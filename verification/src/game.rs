//! Game-wide states and the topology of the vehicle body mesh.
use vstd::prelude::*;

verus! {

/// The different states the game can be in.
#[derive(Debug, Clone, Copy, Eq, PartialEq, Structural, Hash)]
pub enum GameState {
    Loading,
    MainMenu,
    InGame,
    Paused,
}

impl Default for GameState {
    fn default() -> (s: Self)
        ensures
            s == GameState::Loading,
    {
        GameState::Loading
    }
}

/// Triangle indices of the jeep body box, two triangles per face.
pub open spec fn spec_jeep_body_indices() -> Seq<u32> {
    seq![
        0u32, 2, 1, 0, 3, 2,
        4, 5, 6, 4, 6, 7,
        3, 7, 6, 3, 6, 2,
        0, 1, 5, 0, 5, 4,
        1, 2, 6, 1, 6, 5,
        0, 4, 7, 0, 7, 3,
    ]
}

/// Number of vertices of the jeep body box.
pub const JEEP_BODY_VERTICES: u32 = 8;

/// The triangle indices of the jeep body mesh: the bottom, top, front, back,
/// right and left faces, two triangles each, over the eight corners of the
/// body box.
pub fn jeep_body_indices() -> (indices: Vec<u32>)
    ensures
        indices@ == spec_jeep_body_indices(),
{
    let indices: Vec<u32> = vec![
        0, 2, 1, 0, 3, 2,
        4, 5, 6, 4, 6, 7,
        3, 7, 6, 3, 6, 2,
        0, 1, 5, 0, 5, 4,
        1, 2, 6, 1, 6, 5,
        0, 4, 7, 0, 7, 3,
    ];
    assert(indices@ =~= spec_jeep_body_indices());
    indices
}

/// Every entry of `s` is below `bound`.
pub open spec fn all_below(s: Seq<u32>, bound: u32) -> bool
    decreases s.len(),
{
    s.len() == 0 || (s.last() < bound && all_below(s.drop_last(), bound))
}

proof fn lemma_all_below_forall(s: Seq<u32>, bound: u32)
    requires
        all_below(s, bound),
    ensures
        forall|i: int| 0 <= i < s.len() ==> #[trigger] s[i] < bound,
    decreases s.len(),
{
    if s.len() > 0 {
        lemma_all_below_forall(s.drop_last(), bound);
        assert forall|i: int| 0 <= i < s.len() implies #[trigger] s[i] < bound by {
            if i < s.len() - 1 {
                assert(s[i] == s.drop_last()[i]);
            }
        }
    }
}

/// The body mesh has twelve triangles, and each index names one of the eight
/// corners.
pub proof fn lemma_jeep_body_indices_valid()
    ensures
        spec_jeep_body_indices().len() == 36,
        forall|i: int|
            0 <= i < 36 ==> #[trigger] spec_jeep_body_indices()[i] < JEEP_BODY_VERTICES,
{
    reveal_with_fuel(all_below, 37);
    assert(all_below(spec_jeep_body_indices(), JEEP_BODY_VERTICES));
    lemma_all_below_forall(spec_jeep_body_indices(), JEEP_BODY_VERTICES);
}

} // verus!
