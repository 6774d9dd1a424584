//! Particle emitter shapes: the face of a box emitter that a particle leaves
//! from when it is emitted from the box's surface.
use rand::Rng;
use rand::rngs::ThreadRng;
use vstd::prelude::*;

verus! {

/// `rand`'s thread-local generator, carried through as an opaque value.
#[verifier::external_type_specification]
#[verifier::external_body]
pub struct ExThreadRng(rand::rngs::ThreadRng);

/// A face of a box emitter, named by the direction it faces.
#[derive(Debug, Clone, Copy, PartialEq, Eq, Structural, Hash)]
pub enum BoxFace {
    Right,
    Left,
    Top,
    Bottom,
    Front,
    Back,
}

/// The face drawn as `index`: right, left, top, bottom, front, and back for
/// every other index.
pub open spec fn spec_box_face(index: int) -> BoxFace {
    if index == 0 {
        BoxFace::Right
    } else if index == 1 {
        BoxFace::Left
    } else if index == 2 {
        BoxFace::Top
    } else if index == 3 {
        BoxFace::Bottom
    } else if index == 4 {
        BoxFace::Front
    } else {
        BoxFace::Back
    }
}

/// The axis a face is perpendicular to: 0 for x, 1 for y, 2 for z.
pub open spec fn spec_face_axis(face: BoxFace) -> u8 {
    match face {
        BoxFace::Right | BoxFace::Left => 0,
        BoxFace::Top | BoxFace::Bottom => 1,
        BoxFace::Front | BoxFace::Back => 2,
    }
}

/// Whether a face lies on the positive side of its axis.
pub open spec fn spec_face_positive(face: BoxFace) -> bool {
    match face {
        BoxFace::Right | BoxFace::Top | BoxFace::Front => true,
        BoxFace::Left | BoxFace::Bottom | BoxFace::Back => false,
    }
}

impl BoxFace {
    /// The axis this face is perpendicular to: 0 for x, 1 for y, 2 for z.
    pub fn axis(&self) -> (a: u8)
        ensures
            a == spec_face_axis(*self),
            a < 3,
    {
        match self {
            BoxFace::Right | BoxFace::Left => 0,
            BoxFace::Top | BoxFace::Bottom => 1,
            BoxFace::Front | BoxFace::Back => 2,
        }
    }

    /// Whether this face lies on the positive side of its axis.
    pub fn is_positive(&self) -> (b: bool)
        ensures
            b == spec_face_positive(*self),
    {
        match self {
            BoxFace::Right | BoxFace::Top | BoxFace::Front => true,
            BoxFace::Left | BoxFace::Bottom | BoxFace::Back => false,
        }
    }
}

/// The face a drawn index stands for.
pub fn box_face(index: i32) -> (f: BoxFace)
    ensures
        f == spec_box_face(index as int),
{
    match index {
        0 => BoxFace::Right,
        1 => BoxFace::Left,
        2 => BoxFace::Top,
        3 => BoxFace::Bottom,
        4 => BoxFace::Front,
        _ => BoxFace::Back,
    }
}

/// Draws an index from `0..bound` with the given generator (`Rng::gen_range`,
/// which panics only on an empty range, left out by the `requires`). The
/// contract claims only that the index lies in the range; which index comes
/// out is left to chance.
#[verifier::external_body]
fn random_index(rng: &mut ThreadRng, bound: i32) -> (i: i32)
    requires
        bound > 0,
    ensures
        0 <= i < bound,
{
    rng.gen_range(0..bound)
}

/// Picks the face a particle emitted from a box's surface leaves from: one of
/// the six faces, drawn at random with `rng`.
pub fn random_box_face(rng: &mut ThreadRng) -> (f: BoxFace)
    ensures
        exists|i: int| 0 <= i < 6 && f == #[trigger] spec_box_face(i),
{
    let index = random_index(rng, 6);
    let f = box_face(index);
    assert(f == spec_box_face(index as int));
    f
}

/// The six indices that can be drawn name six different faces, and each face
/// is told apart by its axis and side.
pub proof fn lemma_box_faces_distinct(i: int, j: int)
    requires
        0 <= i < 6,
        0 <= j < 6,
        i != j,
    ensures
        spec_box_face(i) != spec_box_face(j),
        spec_face_axis(spec_box_face(i)) != spec_face_axis(spec_box_face(j)) || spec_face_positive(
            spec_box_face(i),
        ) != spec_face_positive(spec_box_face(j)),
{
}

/// Every face can be drawn: some index in `0..6` names it.
pub proof fn lemma_every_face_drawable(face: BoxFace)
    ensures
        exists|i: int| 0 <= i < 6 && #[trigger] spec_box_face(i) == face,
{
    match face {
        BoxFace::Right => assert(spec_box_face(0) == face),
        BoxFace::Left => assert(spec_box_face(1) == face),
        BoxFace::Top => assert(spec_box_face(2) == face),
        BoxFace::Bottom => assert(spec_box_face(3) == face),
        BoxFace::Front => assert(spec_box_face(4) == face),
        BoxFace::Back => assert(spec_box_face(5) == face),
    }
}

} // verus!
