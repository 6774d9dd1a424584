//! Particle material blending and face culling.
use vstd::prelude::*;

verus! {

/// Available blend modes for particles.
#[derive(Clone, Copy, Debug, PartialEq, Eq, Structural, Hash)]
pub enum ParticleBlendMode {
    Additive,
    AlphaBlend,
    Premultiplied,
    Multiply,
}

impl Default for ParticleBlendMode {
    fn default() -> (m: Self)
        ensures
            m == ParticleBlendMode::AlphaBlend,
    {
        ParticleBlendMode::AlphaBlend
    }
}

/// How the renderer composes a particle with what lies behind it.
#[derive(Clone, Copy, Debug, PartialEq, Eq, Structural, Hash)]
pub enum AlphaComposition {
    Add,
    Blend,
    Premultiplied,
    Multiply,
}

impl ParticleBlendMode {
    /// The composition the renderer uses for this blend mode.
    pub fn alpha_mode(&self) -> (a: AlphaComposition)
        ensures
            *self == ParticleBlendMode::Additive ==> a == AlphaComposition::Add,
            *self == ParticleBlendMode::AlphaBlend ==> a == AlphaComposition::Blend,
            *self == ParticleBlendMode::Premultiplied ==> a == AlphaComposition::Premultiplied,
            *self == ParticleBlendMode::Multiply ==> a == AlphaComposition::Multiply,
    {
        match self {
            ParticleBlendMode::Additive => AlphaComposition::Add,
            ParticleBlendMode::AlphaBlend => AlphaComposition::Blend,
            ParticleBlendMode::Premultiplied => AlphaComposition::Premultiplied,
            ParticleBlendMode::Multiply => AlphaComposition::Multiply,
        }
    }
}

/// Which faces of a particle quad are culled.
#[derive(Clone, Copy, Debug, PartialEq, Eq, Structural, Hash)]
pub enum CullFace {
    Back,
}

/// Double-sided particles cull nothing; others cull back faces.
pub fn cull_mode(double_sided: bool) -> (c: Option<CullFace>)
    ensures
        double_sided ==> c == None::<CullFace>,
        !double_sided ==> c == Some(CullFace::Back),
{
    if double_sided {
        None
    } else {
        Some(CullFace::Back)
    }
}

/// Atlas animation advances only when the atlas has more than one frame.
pub fn atlas_animates(total_frames: u32) -> (b: bool)
    ensures
        b == (total_frames > 1),
{
    total_frames > 1
}

} // verus!
