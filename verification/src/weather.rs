//! Weather: the kinds of weather, how a transition completes, and which
//! particle effects each kind of weather spawns where.
use vstd::prelude::*;

verus! {

/// The kinds of weather.
#[derive(Debug, Clone, Copy, PartialEq, Eq, Structural, Hash)]
pub enum Weather {
    Clear,
    Cloudy,
    Rain,
    Storm,
    Fog,
    Snow,
}

/// The weather that holds once a transition step is taken: the target takes
/// over when the transition has run its course, and nothing changes
/// otherwise.
pub fn update_weather_transition(current: Weather, target: Weather, transition_complete: bool) -> (w:
    Weather)
    ensures
        (current != target && transition_complete) ==> w == target,
        !(current != target && transition_complete) ==> w == current,
{
    if current != target && transition_complete {
        target
    } else {
        current
    }
}

/// The particle effect a kind of weather spawns.
#[derive(Debug, Clone, Copy, PartialEq, Eq, Structural, Hash)]
pub enum WeatherParticles {
    /// No particles (clear or cloudy sky).
    Nothing,
    /// Rain, at double intensity and with lightning in a storm.
    Rain { storm: bool },
    Snow,
    Fog,
}

/// The particle effect of each kind of weather.
pub open spec fn spec_weather_particles(weather: Weather) -> WeatherParticles {
    match weather {
        Weather::Rain => WeatherParticles::Rain { storm: false },
        Weather::Storm => WeatherParticles::Rain { storm: true },
        Weather::Snow => WeatherParticles::Snow,
        Weather::Fog => WeatherParticles::Fog,
        _ => WeatherParticles::Nothing,
    }
}

/// The particle effect the current weather spawns.
pub fn weather_particles(weather: Weather) -> (p: WeatherParticles)
    ensures
        p == spec_weather_particles(weather),
{
    match weather {
        Weather::Rain => WeatherParticles::Rain { storm: false },
        Weather::Storm => WeatherParticles::Rain { storm: true },
        Weather::Snow => WeatherParticles::Snow,
        Weather::Fog => WeatherParticles::Fog,
        _ => WeatherParticles::Nothing,
    }
}

/// Spacing of the weather emitter grid in world units.
pub const EMITTER_SPACING: i32 = 10;

/// The `k`-th emitter position of the weather grid, as (x, z) offsets: a five
/// by five grid from -20 to 20 in both directions, x outermost.
pub open spec fn spec_emitter_offset(k: int) -> (int, int) {
    ((k / 5 - 2) * 10, (k % 5 - 2) * 10)
}

/// The (x, z) offsets of the weather particle emitters around the player.
pub fn emitter_grid() -> (offsets: Vec<(i32, i32)>)
    ensures
        offsets@.len() == 25,
        forall|k: int|
            0 <= k < 25 ==> (#[trigger] offsets@[k]).0 == spec_emitter_offset(k).0 && offsets@[k].1
                == spec_emitter_offset(k).1,
{
    let mut offsets: Vec<(i32, i32)> = Vec::new();
    let mut x: i32 = -2;
    while x <= 2
        invariant
            -2 <= x <= 3,
            offsets@.len() == 5 * (x + 2),
            forall|k: int|
                0 <= k < offsets@.len() ==> (#[trigger] offsets@[k]).0 == spec_emitter_offset(k).0
                    && offsets@[k].1 == spec_emitter_offset(k).1,
        decreases 3 - x,
    {
        let mut z: i32 = -2;
        while z <= 2
            invariant
                -2 <= x <= 2,
                -2 <= z <= 3,
                offsets@.len() == 5 * (x + 2) + (z + 2),
                forall|k: int|
                    0 <= k < offsets@.len() ==> (#[trigger] offsets@[k]).0 == spec_emitter_offset(
                        k,
                    ).0 && offsets@[k].1 == spec_emitter_offset(k).1,
            decreases 3 - z,
        {
            let ghost k = offsets@.len() as int;
            offsets.push((x * EMITTER_SPACING, z * EMITTER_SPACING));
            assert(k / 5 == x + 2 && k % 5 == z + 2) by (nonlinear_arith)
                requires
                    k == 5 * (x + 2) + (z + 2),
                    0 <= z + 2 < 5,
            ;
            z = z + 1;
        }
        x = x + 1;
    }
    offsets
}

/// The emitter grid is symmetric: every offset lies within 20 units of the
/// player on both axes, on multiples of the spacing.
pub proof fn lemma_emitter_grid_bounds(k: int)
    requires
        0 <= k < 25,
    ensures
        -20 <= spec_emitter_offset(k).0 <= 20,
        -20 <= spec_emitter_offset(k).1 <= 20,
        spec_emitter_offset(k).0 % 10 == 0,
        spec_emitter_offset(k).1 % 10 == 0,
{
}

} // verus!
