//! Bookkeeping for vehicle configuration assets: which files are vehicle
//! configurations, how many are tracked, and how loading reports move the
//! counters.
use vstd::prelude::*;
use crate::game_assets::AssetLoadStatus;
use crate::text::{ends_with, spec_ends_with};
use crate::assets::spec_progress;

verus! {

/// The suffix that marks a vehicle configuration file.
pub open spec fn vehicle_config_suffix() -> Seq<char> {
    seq!['.', 'v', 'e', 'h', 'i', 'c', 'l', 'e', '.', 'j', 's', 'o', 'n']
}

/// Tells whether a file path names a vehicle configuration
/// (`*.vehicle.json`).
pub fn is_vehicle_config_file(path: &str) -> (b: bool)
    ensures
        b == spec_ends_with(path@, vehicle_config_suffix()),
{
    let suffix = ".vehicle.json";
    proof {
        reveal_strlit(".vehicle.json");
        assert(suffix@ =~= vehicle_config_suffix());
    }
    ends_with(path, suffix)
}

/// Tracks loaded vehicle configuration assets and their status.
#[derive(Debug)]
pub struct AssetLoadingState {
    pub total_assets: usize,
    pub loaded_assets: usize,
    pub failed_assets: Vec<String>,
}

impl Default for AssetLoadingState {
    fn default() -> (s: Self)
        ensures
            s.total_assets == 0,
            s.loaded_assets == 0,
            s.failed_assets@.len() == 0,
    {
        AssetLoadingState { total_assets: 0, loaded_assets: 0, failed_assets: Vec::new() }
    }
}

/// The vehicle configuration paths among `paths`, in order.
pub open spec fn vehicle_config_paths(paths: Seq<String>) -> Seq<Seq<char>>
    decreases paths.len(),
{
    if paths.len() == 0 {
        seq![]
    } else if spec_ends_with(paths.last()@, vehicle_config_suffix()) {
        vehicle_config_paths(paths.drop_last()).push(paths.last()@)
    } else {
        vehicle_config_paths(paths.drop_last())
    }
}

/// Exactly the `*.vehicle.json` files of a listing are vehicle
/// configurations: every path picked ends with `.vehicle.json` and was
/// listed, and every listed path that ends with `.vehicle.json` is picked.
pub proof fn lemma_vehicle_config_paths_exact(paths: Seq<String>)
    ensures
        forall|j: int|
            0 <= j < vehicle_config_paths(paths).len() ==> spec_ends_with(
                #[trigger] vehicle_config_paths(paths)[j],
                ".vehicle.json"@,
            ) && exists|k: int| 0 <= k < paths.len() && paths[k]@ == vehicle_config_paths(paths)[j],
        forall|k: int|
            0 <= k < paths.len() && spec_ends_with(#[trigger] paths[k]@, ".vehicle.json"@)
                ==> vehicle_config_paths(paths).contains(paths[k]@),
    decreases paths.len(),
{
    reveal_strlit(".vehicle.json");
    assert(".vehicle.json"@ =~= vehicle_config_suffix());
    if paths.len() > 0 {
        let p = paths.drop_last();
        lemma_vehicle_config_paths_exact(p);
        let r = vehicle_config_paths(paths);
        let rp = vehicle_config_paths(p);
        assert forall|j: int| 0 <= j < r.len() implies spec_ends_with(
            #[trigger] r[j],
            ".vehicle.json"@,
        ) && exists|k: int| 0 <= k < paths.len() && paths[k]@ == r[j] by {
            if j < rp.len() {
                assert(r[j] == rp[j]);
                let k = choose|k: int| 0 <= k < p.len() && p[k]@ == rp[j];
                assert(paths[k] == p[k]);
            } else {
                assert(paths[paths.len() - 1]@ == r[j]);
            }
        }
        assert forall|k: int|
            0 <= k < paths.len() && spec_ends_with(#[trigger] paths[k]@, ".vehicle.json"@)
            implies r.contains(paths[k]@) by {
            if k < p.len() {
                assert(p[k] == paths[k]);
                assert(rp.contains(paths[k]@));
                let m = choose|m: int| 0 <= m < rp.len() && rp[m] == paths[k]@;
                assert(r[m] == rp[m]);
            } else {
                assert(r[rp.len() as int] == paths[k]@);
            }
        }
    }
}

impl AssetLoadingState {
    /// Picks the vehicle configuration files out of a directory listing,
    /// counts each of them as an asset to load and hands their paths back.
    pub fn load_vehicle_configs(&mut self, paths: &Vec<String>) -> (configs: Vec<String>)
        requires
            old(self).total_assets + paths@.len() <= usize::MAX,
        ensures
            configs@.len() == vehicle_config_paths(paths@).len(),
            forall|j: int|
                0 <= j < configs@.len() ==> (#[trigger] configs@[j])@ == vehicle_config_paths(
                    paths@,
                )[j],
            final(self).total_assets == old(self).total_assets + configs@.len(),
            final(self).loaded_assets == old(self).loaded_assets,
            final(self).failed_assets@ == old(self).failed_assets@,
    {
        let mut configs: Vec<String> = Vec::new();
        let n = paths.len();
        let ghost old_total = self.total_assets;
        for i in 0..n
            invariant
                n == paths@.len(),
                old_total + n <= usize::MAX,
                configs@.len() == vehicle_config_paths(paths@.take(i as int)).len(),
                configs@.len() <= i,
                forall|j: int|
                    0 <= j < configs@.len() ==> (#[trigger] configs@[j])@ == vehicle_config_paths(
                        paths@.take(i as int),
                    )[j],
                self.total_assets == old_total + configs@.len(),
                self.loaded_assets == old(self).loaded_assets,
                self.failed_assets@ == old(self).failed_assets@,
        {
            let ghost prev = vehicle_config_paths(paths@.take(i as int));
            proof {
                assert(paths@.take(i + 1).drop_last() =~= paths@.take(i as int));
            }
            if is_vehicle_config_file(paths[i].as_str()) {
                configs.push(paths[i].clone());
                self.total_assets = self.total_assets + 1;
                proof {
                    let cur = vehicle_config_paths(paths@.take(i + 1));
                    assert forall|j: int| 0 <= j < configs@.len() implies (
                    #[trigger] configs@[j])@ == cur[j] by {
                        if j < prev.len() {
                        }
                    }
                }
            }
        }
        assert(paths@.take(n as int) =~= paths@);
        configs
    }

    /// All tracked assets have loaded.
    pub fn is_loading_complete(&self) -> (b: bool)
        ensures
            b == (self.loaded_assets == self.total_assets),
    {
        self.loaded_assets == self.total_assets
    }

    /// The loading progress as the fraction `(loaded, total)`, or `(1, 1)`
    /// when no asset is tracked.
    pub fn get_loading_progress(&self) -> (r: (usize, usize))
        ensures
            (r.0 as nat, r.1 as nat) == spec_progress(
                self.loaded_assets as nat,
                self.total_assets as nat,
            ),
            r.1 > 0,
    {
        if self.total_assets == 0 {
            (1, 1)
        } else {
            (self.loaded_assets, self.total_assets)
        }
    }

    /// Applies what the asset server reports for the group of vehicle
    /// configurations: while loading, the loaded count follows the number of
    /// configurations already available; once loaded, every tracked asset
    /// counts as loaded; on failure the failed asset, if one is reported, is
    /// recorded.
    pub fn check_asset_loading(
        &mut self,
        group_state: AssetLoadStatus,
        available_configs: usize,
        failed_asset: Option<String>,
    )
        ensures
            final(self).total_assets == old(self).total_assets,
            group_state == AssetLoadStatus::Loading
                ==> final(self).loaded_assets == available_configs,
            group_state == AssetLoadStatus::Loaded
                ==> final(self).loaded_assets == final(self).total_assets,
            group_state != AssetLoadStatus::Loading && group_state != AssetLoadStatus::Loaded
                ==> final(self).loaded_assets == old(self).loaded_assets,
            (group_state == AssetLoadStatus::Failed && failed_asset is Some)
                ==> final(self).failed_assets@ == old(self).failed_assets@.push(failed_asset->0),
            !(group_state == AssetLoadStatus::Failed && failed_asset is Some)
                ==> final(self).failed_assets@ == old(self).failed_assets@,
    {
        match group_state {
            AssetLoadStatus::Loading => {
                self.loaded_assets = available_configs;
            },
            AssetLoadStatus::Loaded => {
                self.loaded_assets = self.total_assets;
            },
            AssetLoadStatus::Failed => {
                if let Some(asset) = failed_asset {
                    self.failed_assets.push(asset);
                }
            },
            _ => {},
        }
    }
}

} // verus!
