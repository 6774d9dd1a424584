//! Progress tracking over the game's asset handles: how many there are, how
//! many have loaded, and which ones failed.
use vstd::prelude::*;
use crate::game_assets::AssetLoadStatus;

verus! {

/// Asset loading progress.
#[derive(Debug)]
pub struct AssetLoadingState {
    pub total_assets: usize,
    pub loaded_assets: usize,
    /// Identifiers of the assets that failed to load.
    pub failed_assets: Vec<String>,
    pub loading_complete: bool,
}

impl Default for AssetLoadingState {
    fn default() -> (s: Self)
        ensures
            s.total_assets == 0,
            s.loaded_assets == 0,
            s.failed_assets@.len() == 0,
            !s.loading_complete,
    {
        AssetLoadingState {
            total_assets: 0,
            loaded_assets: 0,
            failed_assets: Vec::new(),
            loading_complete: false,
        }
    }
}

/// The loading progress as a fraction `(numerator, denominator)`: the loaded
/// share of all assets, or one whole when there is nothing to load.
pub open spec fn spec_progress(loaded: nat, total: nat) -> (nat, nat) {
    if total == 0 {
        (1, 1)
    } else {
        (loaded, total)
    }
}

impl AssetLoadingState {
    /// The loading progress as the fraction `(loaded, total)`, or `(1, 1)`
    /// when no asset is tracked.
    pub fn progress(&self) -> (r: (usize, usize))
        ensures
            (r.0 as nat, r.1 as nat) == spec_progress(
                self.loaded_assets as nat,
                self.total_assets as nat,
            ),
            r.1 > 0,
    {
        if self.total_assets == 0 {
            (1, 1)
        } else {
            (self.loaded_assets, self.total_assets)
        }
    }
}

/// How many handles report the status `Loaded`.
pub open spec fn count_loaded(s: Seq<(String, Option<AssetLoadStatus>)>) -> nat
    decreases s.len(),
{
    if s.len() == 0 {
        0
    } else {
        count_loaded(s.drop_last()) + if s.last().1 == Some(AssetLoadStatus::Loaded) {
            1nat
        } else {
            0nat
        }
    }
}

/// The identifiers of the handles that report the status `Failed`, in order.
pub open spec fn failed_ids(s: Seq<(String, Option<AssetLoadStatus>)>) -> Seq<Seq<char>>
    decreases s.len(),
{
    if s.len() == 0 {
        seq![]
    } else if s.last().1 == Some(AssetLoadStatus::Failed) {
        failed_ids(s.drop_last()).push(s.last().0@)
    } else {
        failed_ids(s.drop_last())
    }
}

/// Recomputes the loading state from the identifier and reported state of
/// every asset handle: all handles count, loaded ones are tallied, failed ones
/// are listed, and loading is complete when every handle has loaded.
pub fn check_asset_loading_progress(
    handles: &Vec<(String, Option<AssetLoadStatus>)>,
    loading_state: &mut AssetLoadingState,
)
    ensures
        final(loading_state).total_assets == handles@.len(),
        final(loading_state).loaded_assets == count_loaded(handles@),
        final(loading_state).failed_assets@.len() == failed_ids(handles@).len(),
        forall|j: int|
            0 <= j < failed_ids(handles@).len()
                ==> (#[trigger] final(loading_state).failed_assets@[j])@ == failed_ids(handles@)[j],
        final(loading_state).loading_complete
            == (final(loading_state).loaded_assets == final(loading_state).total_assets),
        final(loading_state).loading_complete <==> forall|i: int|
            0 <= i < handles@.len() ==> #[trigger] handles@[i].1 == Some(AssetLoadStatus::Loaded),
{
    let n = handles.len();
    let mut loaded: usize = 0;
    let mut failed: Vec<String> = Vec::new();
    for i in 0..n
        invariant
            n == handles@.len(),
            loaded == count_loaded(handles@.take(i as int)),
            loaded <= i,
            failed@.len() == failed_ids(handles@.take(i as int)).len(),
            forall|j: int|
                0 <= j < failed@.len() ==> (#[trigger] failed@[j])@ == failed_ids(
                    handles@.take(i as int),
                )[j],
    {
        let ghost prev = handles@.take(i as int);
        proof {
            assert(handles@.take(i + 1).drop_last() =~= prev);
        }
        match handles[i].1 {
            Some(AssetLoadStatus::Loaded) => {
                loaded = loaded + 1;
            },
            Some(AssetLoadStatus::Failed) => {
                let id = handles[i].0.clone();
                failed.push(id);
                proof {
                    let cur = failed_ids(handles@.take(i + 1));
                    assert forall|j: int| 0 <= j < failed@.len() implies (
                    #[trigger] failed@[j])@ == cur[j] by {
                        if j < failed_ids(prev).len() {
                        }
                    }
                }
            },
            _ => {},
        }
    }
    assert(handles@.take(n as int) =~= handles@);
    loading_state.total_assets = n;
    loading_state.loaded_assets = loaded;
    loading_state.failed_assets = failed;
    loading_state.loading_complete = loaded == n;
    proof {
        lemma_complete_iff_all_loaded(handles@);
    }
}

/// One more handle adds one to the loaded tally exactly when it reports
/// `Loaded`; a handle in any other state (loading, not loaded, failed,
/// unloaded or unknown) adds nothing.
pub proof fn lemma_count_loaded_push(
    s: Seq<(String, Option<AssetLoadStatus>)>,
    h: (String, Option<AssetLoadStatus>),
)
    ensures
        h.1 == Some(AssetLoadStatus::Loaded) ==> count_loaded(s.push(h)) == count_loaded(s) + 1,
        h.1 != Some(AssetLoadStatus::Loaded) ==> count_loaded(s.push(h)) == count_loaded(s),
{
    assert(s.push(h).drop_last() =~= s);
}

/// Every handle has loaded exactly when the loaded tally reaches the number
/// of handles: loading is complete only once no handle is still loading,
/// failed or unknown.
pub proof fn lemma_complete_iff_all_loaded(s: Seq<(String, Option<AssetLoadStatus>)>)
    ensures
        count_loaded(s) == s.len() <==> forall|i: int|
            0 <= i < s.len() ==> #[trigger] s[i].1 == Some(AssetLoadStatus::Loaded),
    decreases s.len(),
{
    if s.len() > 0 {
        let p = s.drop_last();
        lemma_complete_iff_all_loaded(p);
        lemma_loaded_bounded(p);
        if count_loaded(s) == s.len() {
            assert forall|i: int| 0 <= i < s.len() implies #[trigger] s[i].1 == Some(
                AssetLoadStatus::Loaded,
            ) by {
                if i < p.len() {
                    assert(p[i] == s[i]);
                }
            }
        }
        if forall|i: int| 0 <= i < s.len() ==> #[trigger] s[i].1 == Some(AssetLoadStatus::Loaded) {
            assert forall|i: int| 0 <= i < p.len() implies #[trigger] p[i].1 == Some(
                AssetLoadStatus::Loaded,
            ) by {
                assert(p[i] == s[i]);
            }
            assert(s[s.len() - 1].1 == Some(AssetLoadStatus::Loaded));
        }
    }
}

/// Some handle of `s` with the identifier `id` reports `Failed`.
pub open spec fn has_failed_handle(s: Seq<(String, Option<AssetLoadStatus>)>, id: Seq<char>) -> bool {
    exists|k: int|
        #![trigger s[k]]
        0 <= k < s.len() && s[k].1 == Some(AssetLoadStatus::Failed) && s[k].0@ == id
}

/// The failed list names exactly the handles that report `Failed`: each
/// listed id belongs to a failed handle, and every failed handle is listed.
pub proof fn lemma_failed_ids_exact(s: Seq<(String, Option<AssetLoadStatus>)>)
    ensures
        forall|j: int|
            0 <= j < failed_ids(s).len() ==> has_failed_handle(s, #[trigger] failed_ids(s)[j]),
        forall|k: int|
            0 <= k < s.len() && #[trigger] s[k].1 == Some(AssetLoadStatus::Failed)
                ==> failed_ids(s).contains(s[k].0@),
    decreases s.len(),
{
    if s.len() > 0 {
        let p = s.drop_last();
        lemma_failed_ids_exact(p);
        let r = failed_ids(s);
        let rp = failed_ids(p);
        assert forall|j: int| 0 <= j < r.len() implies has_failed_handle(s, #[trigger] r[j]) by {
            if j < rp.len() {
                assert(r[j] == rp[j]);
                assert(has_failed_handle(p, rp[j]));
                let k = choose|k: int|
                    #![trigger p[k]]
                    0 <= k < p.len() && p[k].1 == Some(AssetLoadStatus::Failed) && p[k].0@
                        == rp[j];
                assert(s[k] == p[k]);
            } else {
                let k = s.len() - 1;
                assert(s[k] == s.last());
                assert(s[k].1 == Some(AssetLoadStatus::Failed) && s[k].0@ == r[j]);
            }
        }
        assert forall|k: int|
            0 <= k < s.len() && #[trigger] s[k].1 == Some(AssetLoadStatus::Failed)
            implies r.contains(s[k].0@) by {
            if k < p.len() {
                assert(p[k] == s[k]);
                let m = choose|m: int| 0 <= m < rp.len() && rp[m] == s[k].0@;
                if s.last().1 == Some(AssetLoadStatus::Failed) {
                    assert(r[m] == rp[m]);
                }
            } else {
                assert(r[rp.len() as int] == s[k].0@);
            }
        }
    }
}

/// The loaded tally never exceeds the number of handles.
pub proof fn lemma_loaded_bounded(s: Seq<(String, Option<AssetLoadStatus>)>)
    ensures
        count_loaded(s) <= s.len(),
        failed_ids(s).len() + count_loaded(s) <= s.len(),
    decreases s.len(),
{
    if s.len() > 0 {
        lemma_loaded_bounded(s.drop_last());
    }
}

} // verus!
