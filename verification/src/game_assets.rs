//! Prioritised asset loading bookkeeping: which files of an asset directory
//! are queued, how far loading has come, and which priority band the loader
//! is in.
use vstd::prelude::*;
use crate::text::{ends_with, join_path, spec_ends_with};

verus! {

/// Asset loading priority levels, from what must be ready before the game
/// starts to what can load in the background.
#[derive(Clone, Copy, Debug, PartialEq, Eq, Structural, PartialOrd, Ord, Hash)]
pub enum LoadPriority {
    /// Must be loaded before the game starts (UI, core assets).
    Critical,
    /// Load as soon as possible (player vehicle, current level).
    High,
    /// Load during gameplay (other vehicles, effects).
    Medium,
    /// Can be loaded in the background.
    Low,
}

/// The position of a priority in the loading order.
pub open spec fn priority_rank(p: LoadPriority) -> int {
    match p {
        LoadPriority::Critical => 0,
        LoadPriority::High => 1,
        LoadPriority::Medium => 2,
        LoadPriority::Low => 3,
    }
}

/// What the asset server reports about one asset.
#[derive(Clone, Copy, Debug, PartialEq, Eq, Structural, Hash)]
pub enum AssetLoadStatus {
    NotLoaded,
    Loading,
    Loaded,
    Failed,
    Unloaded,
}

/// Tracks the loading state of game assets.
#[derive(Debug)]
pub struct AssetLoadingState {
    pub total_assets: usize,
    pub loaded_assets: usize,
    pub failed_assets: usize,
    pub is_complete: bool,
    /// Paths of the assets queued for loading, in the order they were found.
    pub loading_queue: Vec<String>,
    pub current_priority: LoadPriority,
}

impl Default for AssetLoadingState {
    fn default() -> (s: Self)
        ensures
            s.total_assets == 0,
            s.loaded_assets == 0,
            s.failed_assets == 0,
            !s.is_complete,
            s.loading_queue@.len() == 0,
            s.current_priority == LoadPriority::Critical,
    {
        AssetLoadingState {
            total_assets: 0,
            loaded_assets: 0,
            failed_assets: 0,
            is_complete: false,
            loading_queue: Vec::new(),
            current_priority: LoadPriority::Critical,
        }
    }
}

/// How many of the reported states are `Some(status)`.
pub open spec fn count_status(s: Seq<Option<AssetLoadStatus>>, status: AssetLoadStatus) -> nat
    decreases s.len(),
{
    if s.len() == 0 {
        0
    } else {
        count_status(s.drop_last(), status) + if s.last() == Some(status) {
            1nat
        } else {
            0nat
        }
    }
}

proof fn lemma_count_take_step(s: Seq<Option<AssetLoadStatus>>, i: int, status: AssetLoadStatus)
    requires
        0 <= i < s.len(),
    ensures
        count_status(s.take(i + 1), status) == count_status(s.take(i), status) + if s[i] == Some(
            status,
        ) {
            1nat
        } else {
            0nat
        },
{
    assert(s.take(i + 1).drop_last() =~= s.take(i));
}

/// The loading state that a set of reported asset states gives: every asset
/// counts, loaded and failed ones are tallied, and loading is complete once
/// every asset has either loaded or failed. The priority is the band of the
/// loaded share (see `get_current_loading_priority`); the queue starts empty.
pub fn check_loading_progress(states: &Vec<Option<AssetLoadStatus>>) -> (s: AssetLoadingState)
    ensures
        s.total_assets == states@.len(),
        s.loaded_assets == count_status(states@, AssetLoadStatus::Loaded),
        s.failed_assets == count_status(states@, AssetLoadStatus::Failed),
        s.is_complete == (s.loaded_assets + s.failed_assets == s.total_assets),
        s.loading_queue@.len() == 0,
        s.current_priority == spec_priority_for(s.loaded_assets as nat, s.total_assets as nat),
{
    let mut state = AssetLoadingState::default();
    let n = states.len();
    for i in 0..n
        invariant
            n == states@.len(),
            state.total_assets == i,
            state.loaded_assets == count_status(states@.take(i as int), AssetLoadStatus::Loaded),
            state.failed_assets == count_status(states@.take(i as int), AssetLoadStatus::Failed),
            state.loaded_assets <= i,
            state.failed_assets <= i,
            state.loaded_assets + state.failed_assets <= i,
            state.loading_queue@.len() == 0,
            state.current_priority == LoadPriority::Critical,
    {
        proof {
            lemma_count_take_step(states@, i as int, AssetLoadStatus::Loaded);
            lemma_count_take_step(states@, i as int, AssetLoadStatus::Failed);
        }
        state.total_assets = state.total_assets + 1;
        match states[i] {
            Some(AssetLoadStatus::Loaded) => {
                state.loaded_assets = state.loaded_assets + 1;
            },
            Some(AssetLoadStatus::Failed) => {
                state.failed_assets = state.failed_assets + 1;
            },
            _ => {},
        }
    }
    assert(states@.take(n as int) =~= states@);
    state.is_complete = state.loaded_assets + state.failed_assets == state.total_assets;
    state.current_priority = get_current_loading_priority(&state);
    state
}

/// One more reported state adds one to the tally of `status` exactly when it
/// is `Some(status)`; any other report adds nothing.
pub proof fn lemma_count_status_push(
    s: Seq<Option<AssetLoadStatus>>,
    x: Option<AssetLoadStatus>,
    status: AssetLoadStatus,
)
    ensures
        x == Some(status) ==> count_status(s.push(x), status) == count_status(s, status) + 1,
        x != Some(status) ==> count_status(s.push(x), status) == count_status(s, status),
{
    assert(s.push(x).drop_last() =~= s);
}

/// Loading is complete exactly when every asset has settled: each reported
/// state is `Loaded` or `Failed`, none is still loading or unknown.
pub proof fn lemma_complete_iff_all_settled(s: Seq<Option<AssetLoadStatus>>)
    ensures
        count_status(s, AssetLoadStatus::Loaded) + count_status(s, AssetLoadStatus::Failed)
            == s.len() <==> forall|i: int|
            0 <= i < s.len() ==> #[trigger] s[i] == Some(AssetLoadStatus::Loaded) || s[i] == Some(
                AssetLoadStatus::Failed,
            ),
    decreases s.len(),
{
    if s.len() > 0 {
        let p = s.drop_last();
        lemma_complete_iff_all_settled(p);
        lemma_progress_counts_bounded(p);
        if forall|i: int|
            0 <= i < s.len() ==> #[trigger] s[i] == Some(AssetLoadStatus::Loaded) || s[i] == Some(
                AssetLoadStatus::Failed,
            ) {
            assert forall|i: int| 0 <= i < p.len() implies #[trigger] p[i] == Some(
                AssetLoadStatus::Loaded,
            ) || p[i] == Some(AssetLoadStatus::Failed) by {
                assert(p[i] == s[i]);
            }
            assert(s[s.len() - 1] == s.last());
        }
        if count_status(s, AssetLoadStatus::Loaded) + count_status(s, AssetLoadStatus::Failed)
            == s.len() {
            assert forall|i: int| 0 <= i < s.len() implies #[trigger] s[i] == Some(
                AssetLoadStatus::Loaded,
            ) || s[i] == Some(AssetLoadStatus::Failed) by {
                if i < p.len() {
                    assert(p[i] == s[i]);
                }
            }
        }
    }
}

/// The priority band for a loading progress of `loaded` out of `total`:
/// below a quarter `Critical`, below a half `High`, below three quarters
/// `Medium`, and `Low` from there on or when nothing is counted.
pub open spec fn spec_priority_for(loaded: nat, total: nat) -> LoadPriority {
    if total == 0 {
        LoadPriority::Low
    } else if 4 * loaded < total {
        LoadPriority::Critical
    } else if 2 * loaded < total {
        LoadPriority::High
    } else if 4 * loaded < 3 * total {
        LoadPriority::Medium
    } else {
        LoadPriority::Low
    }
}

/// The current loading priority, from the share of loaded assets.
pub fn get_current_loading_priority(loading_state: &AssetLoadingState) -> (p: LoadPriority)
    ensures
        p == spec_priority_for(
            loading_state.loaded_assets as nat,
            loading_state.total_assets as nat,
        ),
{
    let loaded = loading_state.loaded_assets as u128;
    let total = loading_state.total_assets as u128;
    if total == 0 {
        LoadPriority::Low
    } else if 4 * loaded < total {
        LoadPriority::Critical
    } else if 2 * loaded < total {
        LoadPriority::High
    } else if 4 * loaded < 3 * total {
        LoadPriority::Medium
    } else {
        LoadPriority::Low
    }
}

/// The priority never moves back while more assets finish loading.
pub proof fn lemma_priority_monotone(l1: nat, l2: nat, total: nat)
    requires
        l1 <= l2,
        total > 0,
    ensures
        priority_rank(spec_priority_for(l1, total)) <= priority_rank(spec_priority_for(l2, total)),
{
}

/// Every asset that has loaded or failed is counted, so the two tallies never
/// exceed the number of assets.
pub proof fn lemma_progress_counts_bounded(states: Seq<Option<AssetLoadStatus>>)
    ensures
        count_status(states, AssetLoadStatus::Loaded) + count_status(
            states,
            AssetLoadStatus::Failed,
        ) <= states.len(),
    decreases states.len(),
{
    if states.len() > 0 {
        lemma_progress_counts_bounded(states.drop_last());
    }
}

/// The (key, path) entries that loading a directory queues: one for each file
/// whose name ends with the extension, in listing order, keyed by the file
/// name as listed.
pub open spec fn spec_directory_entries(
    directory: Seq<char>,
    extension: Seq<char>,
    files: Seq<String>,
) -> Seq<(Seq<char>, Seq<char>)>
    decreases files.len(),
{
    if files.len() == 0 {
        seq![]
    } else {
        let rest = spec_directory_entries(directory, extension, files.drop_last());
        let name = files.last()@;
        if spec_ends_with(name, extension) {
            rest.push((name, directory + seq!['/'] + name))
        } else {
            rest
        }
    }
}

proof fn lemma_entries_len(directory: Seq<char>, extension: Seq<char>, files: Seq<String>)
    ensures
        spec_directory_entries(directory, extension, files).len() <= files.len(),
    decreases files.len(),
{
    if files.len() > 0 {
        lemma_entries_len(directory, extension, files.drop_last());
    }
}

/// Loading a directory takes exactly the listed files whose name ends with
/// the extension: each entry is keyed by such a file's name and points at
/// `directory/name`, and every such file has an entry.
pub proof fn lemma_directory_entries_exact(
    directory: Seq<char>,
    extension: Seq<char>,
    files: Seq<String>,
)
    ensures
        forall|j: int|
            0 <= j < spec_directory_entries(directory, extension, files).len() ==> {
                let e = #[trigger] spec_directory_entries(directory, extension, files)[j];
                &&& spec_ends_with(e.0, extension)
                &&& e.1 == directory + seq!['/'] + e.0
                &&& exists|k: int| 0 <= k < files.len() && files[k]@ == e.0
            },
        forall|k: int|
            0 <= k < files.len() && spec_ends_with(#[trigger] files[k]@, extension)
                ==> spec_directory_entries(directory, extension, files).contains(
                (files[k]@, directory + seq!['/'] + files[k]@),
            ),
    decreases files.len(),
{
    if files.len() > 0 {
        let p = files.drop_last();
        lemma_directory_entries_exact(directory, extension, p);
        let r = spec_directory_entries(directory, extension, files);
        let rp = spec_directory_entries(directory, extension, p);
        assert forall|j: int| 0 <= j < r.len() implies {
            let e = #[trigger] r[j];
            &&& spec_ends_with(e.0, extension)
            &&& e.1 == directory + seq!['/'] + e.0
            &&& exists|k: int| 0 <= k < files.len() && files[k]@ == e.0
        } by {
            if j < rp.len() {
                assert(r[j] == rp[j]);
                let k = choose|k: int| 0 <= k < p.len() && p[k]@ == rp[j].0;
                assert(files[k] == p[k]);
            } else {
                assert(files[files.len() - 1]@ == r[j].0);
            }
        }
        assert forall|k: int|
            0 <= k < files.len() && spec_ends_with(#[trigger] files[k]@, extension)
            implies r.contains((files[k]@, directory + seq!['/'] + files[k]@)) by {
            if k < p.len() {
                assert(p[k] == files[k]);
                let m = choose|m: int| 0 <= m < rp.len() && rp[m] == (files[k]@, directory
                    + seq!['/'] + files[k]@);
                assert(r[m] == rp[m]);
            } else {
                assert(r[rp.len() as int] == (files[k]@, directory + seq!['/'] + files[k]@));
            }
        }
    }
}

/// Queues the assets of one directory: every listed file whose name ends with
/// the extension is queued under `directory/name` and counted, and its key and
/// path are handed back for loading.
pub fn load_directory_with_priority(
    directory: &str,
    extension: &str,
    file_names: &Vec<String>,
    loading_state: &mut AssetLoadingState,
) -> (entries: Vec<(String, String)>)
    requires
        old(loading_state).total_assets + file_names@.len() <= usize::MAX,
    ensures
        ({
            let expected = spec_directory_entries(directory@, extension@, file_names@);
            &&& entries@.len() == expected.len()
            &&& forall|j: int|
                0 <= j < expected.len() ==> (#[trigger] entries@[j]).0@ == expected[j].0
                    && entries@[j].1@ == expected[j].1
            &&& final(loading_state).total_assets == old(loading_state).total_assets
                + expected.len()
            &&& final(loading_state).loading_queue@.len() == old(loading_state).loading_queue@.len()
                + expected.len()
            &&& forall|i: int|
                0 <= i < old(loading_state).loading_queue@.len()
                    ==> #[trigger] final(loading_state).loading_queue@[i] == old(
                    loading_state,
                ).loading_queue@[i]
            &&& forall|j: int|
                0 <= j < expected.len() ==> (#[trigger] final(loading_state).loading_queue@[old(
                    loading_state,
                ).loading_queue@.len() + j])@ == expected[j].1
        }),
        final(loading_state).loaded_assets == old(loading_state).loaded_assets,
        final(loading_state).failed_assets == old(loading_state).failed_assets,
        final(loading_state).is_complete == old(loading_state).is_complete,
        final(loading_state).current_priority == old(loading_state).current_priority,
{
    let mut entries: Vec<(String, String)> = Vec::new();
    let ghost old_queue = loading_state.loading_queue@;
    let ghost old_total = loading_state.total_assets;
    let n = file_names.len();
    for i in 0..n
        invariant
            n == file_names@.len(),
            old_total + n <= usize::MAX,
            ({
                let expected = spec_directory_entries(
                    directory@,
                    extension@,
                    file_names@.take(i as int),
                );
                &&& entries@.len() == expected.len()
                &&& forall|j: int|
                    0 <= j < expected.len() ==> (#[trigger] entries@[j]).0@ == expected[j].0
                        && entries@[j].1@ == expected[j].1
                &&& loading_state.total_assets == old_total + expected.len()
                &&& loading_state.loading_queue@.len() == old_queue.len() + expected.len()
                &&& forall|k: int|
                    0 <= k < old_queue.len() ==> #[trigger] loading_state.loading_queue@[k]
                        == old_queue[k]
                &&& forall|j: int|
                    0 <= j < expected.len() ==> (#[trigger] loading_state.loading_queue@[old_queue.len()
                        + j])@ == expected[j].1
                &&& expected.len() <= i
            }),
            loading_state.loaded_assets == old(loading_state).loaded_assets,
            loading_state.failed_assets == old(loading_state).failed_assets,
            loading_state.is_complete == old(loading_state).is_complete,
            loading_state.current_priority == old(loading_state).current_priority,
    {
        let ghost prev = spec_directory_entries(directory@, extension@, file_names@.take(i as int));
        proof {
            assert(file_names@.take(i + 1).drop_last() =~= file_names@.take(i as int));
            lemma_entries_len(directory@, extension@, file_names@.take(i as int));
        }
        let name = file_names[i].as_str();
        if ends_with(name, extension) {
            let key = String::from_str(name);
            let path = join_path(directory, name);
            let queued = path.clone();
            loading_state.loading_queue.push(queued);
            entries.push((key, path));
            loading_state.total_assets = loading_state.total_assets + 1;
            proof {
                let cur = spec_directory_entries(
                    directory@,
                    extension@,
                    file_names@.take(i + 1),
                );
                assert(cur == prev.push((name@, directory@ + seq!['/'] + name@)));
                assert forall|j: int| 0 <= j < cur.len() implies (#[trigger] entries@[j]).0@
                    == cur[j].0 && entries@[j].1@ == cur[j].1 by {
                    if j < prev.len() {
                    }
                }
                assert forall|j: int| 0 <= j < cur.len() implies (
                #[trigger] loading_state.loading_queue@[old_queue.len() + j])@ == cur[j].1 by {
                    if j < prev.len() {
                    }
                }
            }
        }
    }
    assert(file_names@.take(n as int) =~= file_names@);
    entries
}

/// The asset collections the game keeps, one per kind of asset.
#[derive(Clone, Copy, Debug, PartialEq, Eq, Structural, Hash)]
pub enum AssetCategory {
    UiTextures,
    Fonts,
    UiIcons,
    VehicleModels,
    VehicleTextures,
    VehicleConfigs,
    ParticleTextures,
    WeatherEffects,
    TerrainTextures,
    TerrainHeightmaps,
    EngineSounds,
    EnvironmentSounds,
    MusicTracks,
    RadioStations,
    VoiceLines,
}

/// A directory of assets that loading visits: where it is, which files it
/// takes, their priority and the collection they go to.
#[derive(Debug)]
pub struct AssetDirectory {
    pub directory: String,
    pub extension: String,
    pub priority: LoadPriority,
    pub category: AssetCategory,
}

/// The directories loading visits, in order: UI first, then the vehicles,
/// then effects and terrain, and audio last.
pub open spec fn spec_load_plan() -> Seq<(Seq<char>, Seq<char>, LoadPriority, AssetCategory)> {
    seq![
        ("ui/textures"@, "png"@, LoadPriority::Critical, AssetCategory::UiTextures),
        ("ui/fonts"@, "ttf"@, LoadPriority::Critical, AssetCategory::Fonts),
        ("ui/icons"@, "png"@, LoadPriority::Critical, AssetCategory::UiIcons),
        ("vehicles/models"@, "gltf"@, LoadPriority::High, AssetCategory::VehicleModels),
        ("vehicles/textures"@, "png"@, LoadPriority::High, AssetCategory::VehicleTextures),
        ("vehicles/configs"@, "json"@, LoadPriority::High, AssetCategory::VehicleConfigs),
        ("effects/particles"@, "png"@, LoadPriority::Medium, AssetCategory::ParticleTextures),
        ("effects/weather"@, "gltf"@, LoadPriority::Medium, AssetCategory::WeatherEffects),
        ("terrain/textures"@, "png"@, LoadPriority::Medium, AssetCategory::TerrainTextures),
        ("terrain/heightmaps"@, "png"@, LoadPriority::Medium, AssetCategory::TerrainHeightmaps),
        ("audio/engine"@, "ogg"@, LoadPriority::Low, AssetCategory::EngineSounds),
        ("audio/environment"@, "ogg"@, LoadPriority::Low, AssetCategory::EnvironmentSounds),
        ("audio/music"@, "ogg"@, LoadPriority::Low, AssetCategory::MusicTracks),
        ("audio/radio"@, "ogg"@, LoadPriority::Low, AssetCategory::RadioStations),
        ("audio/voice"@, "ogg"@, LoadPriority::Low, AssetCategory::VoiceLines),
    ]
}

/// Where each collection's assets are found: the directory, the file
/// extension and the loading priority of every kind of asset.
pub open spec fn collection_source(c: AssetCategory) -> (Seq<char>, Seq<char>, LoadPriority) {
    match c {
        AssetCategory::UiTextures => ("ui/textures"@, "png"@, LoadPriority::Critical),
        AssetCategory::Fonts => ("ui/fonts"@, "ttf"@, LoadPriority::Critical),
        AssetCategory::UiIcons => ("ui/icons"@, "png"@, LoadPriority::Critical),
        AssetCategory::VehicleModels => ("vehicles/models"@, "gltf"@, LoadPriority::High),
        AssetCategory::VehicleTextures => ("vehicles/textures"@, "png"@, LoadPriority::High),
        AssetCategory::VehicleConfigs => ("vehicles/configs"@, "json"@, LoadPriority::High),
        AssetCategory::ParticleTextures => ("effects/particles"@, "png"@, LoadPriority::Medium),
        AssetCategory::WeatherEffects => ("effects/weather"@, "gltf"@, LoadPriority::Medium),
        AssetCategory::TerrainTextures => ("terrain/textures"@, "png"@, LoadPriority::Medium),
        AssetCategory::TerrainHeightmaps => ("terrain/heightmaps"@, "png"@, LoadPriority::Medium),
        AssetCategory::EngineSounds => ("audio/engine"@, "ogg"@, LoadPriority::Low),
        AssetCategory::EnvironmentSounds => ("audio/environment"@, "ogg"@, LoadPriority::Low),
        AssetCategory::MusicTracks => ("audio/music"@, "ogg"@, LoadPriority::Low),
        AssetCategory::RadioStations => ("audio/radio"@, "ogg"@, LoadPriority::Low),
        AssetCategory::VoiceLines => ("audio/voice"@, "ogg"@, LoadPriority::Low),
    }
}

/// The load plan visits every collection exactly once, each from its own
/// directory, with its own extension and priority.
pub proof fn lemma_load_plan_sources(c: AssetCategory)
    ensures
        forall|i: int|
            #![trigger spec_load_plan()[i]]
            0 <= i < spec_load_plan().len() ==> (spec_load_plan()[i].0, spec_load_plan()[i].1,
            spec_load_plan()[i].2) == collection_source(spec_load_plan()[i].3),
        exists|i: int| 0 <= i < spec_load_plan().len() && #[trigger] spec_load_plan()[i].3 == c,
        forall|i: int, j: int|
            #![trigger spec_load_plan()[i], spec_load_plan()[j]]
            0 <= i < j < spec_load_plan().len() ==> spec_load_plan()[i].3 != spec_load_plan()[j].3,
{
    let p = spec_load_plan();
    assert(p[0].3 == AssetCategory::UiTextures);
    assert(p[1].3 == AssetCategory::Fonts);
    assert(p[2].3 == AssetCategory::UiIcons);
    assert(p[3].3 == AssetCategory::VehicleModels);
    assert(p[4].3 == AssetCategory::VehicleTextures);
    assert(p[5].3 == AssetCategory::VehicleConfigs);
    assert(p[6].3 == AssetCategory::ParticleTextures);
    assert(p[7].3 == AssetCategory::WeatherEffects);
    assert(p[8].3 == AssetCategory::TerrainTextures);
    assert(p[9].3 == AssetCategory::TerrainHeightmaps);
    assert(p[10].3 == AssetCategory::EngineSounds);
    assert(p[11].3 == AssetCategory::EnvironmentSounds);
    assert(p[12].3 == AssetCategory::MusicTracks);
    assert(p[13].3 == AssetCategory::RadioStations);
    assert(p[14].3 == AssetCategory::VoiceLines);
}

fn planned(directory: &str, extension: &str, priority: LoadPriority, category: AssetCategory) -> (d:
    AssetDirectory)
    ensures
        d.directory@ == directory@,
        d.extension@ == extension@,
        d.priority == priority,
        d.category == category,
{
    AssetDirectory {
        directory: String::from_str(directory),
        extension: String::from_str(extension),
        priority,
        category,
    }
}

/// The directories that loading visits, in the order it visits them.
pub fn asset_load_plan() -> (plan: Vec<AssetDirectory>)
    ensures
        plan@.len() == spec_load_plan().len(),
        forall|i: int|
            0 <= i < plan@.len() ==> (#[trigger] plan@[i]).directory@ == spec_load_plan()[i].0
                && plan@[i].extension@ == spec_load_plan()[i].1 && plan@[i].priority
                == spec_load_plan()[i].2 && plan@[i].category == spec_load_plan()[i].3,
        forall|i: int|
            0 <= i < plan@.len() ==> ((#[trigger] plan@[i]).directory@, plan@[i].extension@,
            plan@[i].priority) == collection_source(plan@[i].category),
{
    let mut plan: Vec<AssetDirectory> = Vec::new();
    plan.push(planned("ui/textures", "png", LoadPriority::Critical, AssetCategory::UiTextures));
    plan.push(planned("ui/fonts", "ttf", LoadPriority::Critical, AssetCategory::Fonts));
    plan.push(planned("ui/icons", "png", LoadPriority::Critical, AssetCategory::UiIcons));
    plan.push(planned("vehicles/models", "gltf", LoadPriority::High, AssetCategory::VehicleModels));
    plan.push(
        planned("vehicles/textures", "png", LoadPriority::High, AssetCategory::VehicleTextures),
    );
    plan.push(planned("vehicles/configs", "json", LoadPriority::High, AssetCategory::VehicleConfigs));
    plan.push(
        planned("effects/particles", "png", LoadPriority::Medium, AssetCategory::ParticleTextures),
    );
    plan.push(
        planned("effects/weather", "gltf", LoadPriority::Medium, AssetCategory::WeatherEffects),
    );
    plan.push(
        planned("terrain/textures", "png", LoadPriority::Medium, AssetCategory::TerrainTextures),
    );
    plan.push(
        planned("terrain/heightmaps", "png", LoadPriority::Medium, AssetCategory::TerrainHeightmaps),
    );
    plan.push(planned("audio/engine", "ogg", LoadPriority::Low, AssetCategory::EngineSounds));
    plan.push(
        planned("audio/environment", "ogg", LoadPriority::Low, AssetCategory::EnvironmentSounds),
    );
    plan.push(planned("audio/music", "ogg", LoadPriority::Low, AssetCategory::MusicTracks));
    plan.push(planned("audio/radio", "ogg", LoadPriority::Low, AssetCategory::RadioStations));
    plan.push(planned("audio/voice", "ogg", LoadPriority::Low, AssetCategory::VoiceLines));
    proof {
        lemma_load_plan_sources(AssetCategory::UiTextures);
        assert(plan@.len() == spec_load_plan().len());
        assert forall|i: int| 0 <= i < plan@.len() implies ((#[trigger] plan@[i]).directory@,
        plan@[i].extension@, plan@[i].priority) == collection_source(plan@[i].category) by {
            assert(spec_load_plan()[i].3 == plan@[i].category);
        }
    }
    plan
}

/// Loading visits the directories from the most to the least urgent
/// priority.
pub proof fn lemma_load_plan_by_priority(i: int, j: int)
    requires
        0 <= i <= j < spec_load_plan().len(),
    ensures
        priority_rank(spec_load_plan()[i].2) <= priority_rank(spec_load_plan()[j].2),
{
}

/// The paths queued by loading each planned directory with its listing, in
/// plan order.
pub open spec fn spec_queued_paths(
    plan: Seq<(Seq<char>, Seq<char>, LoadPriority, AssetCategory)>,
    listings: Seq<Vec<String>>,
    k: nat,
) -> Seq<Seq<char>>
    decreases k,
{
    if k == 0 {
        seq![]
    } else {
        spec_queued_paths(plan, listings, (k - 1) as nat) + spec_directory_entries(
            plan[k - 1].0,
            plan[k - 1].1,
            listings[k - 1]@,
        ).map_values(|e: (Seq<char>, Seq<char>)| e.1)
    }
}

/// Total number of listed files over the first `k` listings.
pub open spec fn spec_listed(listings: Seq<Vec<String>>, k: nat) -> nat
    decreases k,
{
    if k == 0 {
        0
    } else {
        spec_listed(listings, (k - 1) as nat) + listings[k - 1]@.len()
    }
}

proof fn lemma_queued_len(
    plan: Seq<(Seq<char>, Seq<char>, LoadPriority, AssetCategory)>,
    listings: Seq<Vec<String>>,
    k: nat,
)
    ensures
        spec_queued_paths(plan, listings, k).len() <= spec_listed(listings, k),
    decreases k,
{
    if k > 0 {
        lemma_queued_len(plan, listings, (k - 1) as nat);
        lemma_entries_len(plan[k - 1].0, plan[k - 1].1, listings[k - 1]@);
    }
}

proof fn lemma_listed_monotone(listings: Seq<Vec<String>>, k: nat, m: nat)
    requires
        k <= m,
    ensures
        spec_listed(listings, k) <= spec_listed(listings, m),
    decreases m,
{
    if k < m {
        lemma_listed_monotone(listings, k, (m - 1) as nat);
    }
}

/// Loads every planned directory from its file listing (`listings[i]` lists
/// the files of the `i`-th planned directory), in plan order. The state
/// counts and queues every matching file; the entries of each directory are
/// handed back for loading into its collection.
pub fn load_all(listings: &Vec<Vec<String>>) -> (r: (AssetLoadingState, Vec<Vec<(String, String)>>))
    requires
        listings@.len() == spec_load_plan().len(),
        spec_listed(listings@, listings@.len()) <= usize::MAX,
    ensures
        r.0.total_assets == spec_queued_paths(spec_load_plan(), listings@, listings@.len()).len(),
        r.0.loading_queue@.len() == r.0.total_assets,
        forall|q: int|
            0 <= q < r.0.loading_queue@.len() ==> (#[trigger] r.0.loading_queue@[q])@
                == spec_queued_paths(spec_load_plan(), listings@, listings@.len())[q],
        r.0.loaded_assets == 0,
        r.0.failed_assets == 0,
        !r.0.is_complete,
        r.0.current_priority == LoadPriority::Critical,
        r.1@.len() == listings@.len(),
        forall|d: int|
            #![trigger r.1@[d]]
            0 <= d < listings@.len() ==> {
                let expected = spec_directory_entries(
                    spec_load_plan()[d].0,
                    spec_load_plan()[d].1,
                    listings@[d]@,
                );
                &&& r.1@[d]@.len() == expected.len()
                &&& forall|j: int|
                    0 <= j < expected.len() ==> (#[trigger] r.1@[d]@[j]).0@ == expected[j].0
                        && r.1@[d]@[j].1@ == expected[j].1
            },
{
    let plan = asset_load_plan();
    let ghost sp = spec_load_plan();
    let mut state = AssetLoadingState::default();
    let mut all: Vec<Vec<(String, String)>> = Vec::new();
    let n = listings.len();
    for d in 0..n
        invariant
            n == listings@.len(),
            n == sp.len(),
            sp == spec_load_plan(),
            plan@.len() == sp.len(),
            forall|i: int|
                0 <= i < plan@.len() ==> (#[trigger] plan@[i]).directory@ == sp[i].0
                    && plan@[i].extension@ == sp[i].1,
            spec_listed(listings@, n as nat) <= usize::MAX,
            state.total_assets == spec_queued_paths(sp, listings@, d as nat).len(),
            state.loading_queue@.len() == state.total_assets,
            forall|q: int|
                0 <= q < state.loading_queue@.len() ==> (#[trigger] state.loading_queue@[q])@
                    == spec_queued_paths(sp, listings@, d as nat)[q],
            state.loaded_assets == 0,
            state.failed_assets == 0,
            !state.is_complete,
            state.current_priority == LoadPriority::Critical,
            all@.len() == d,
            forall|e: int|
                #![trigger all@[e]]
                0 <= e < d ==> {
                    let expected = spec_directory_entries(sp[e].0, sp[e].1, listings@[e]@);
                    &&& all@[e]@.len() == expected.len()
                    &&& forall|j: int|
                        0 <= j < expected.len() ==> (#[trigger] all@[e]@[j]).0@ == expected[j].0
                            && all@[e]@[j].1@ == expected[j].1
                },
    {
        let ghost before = state.loading_queue@;
        let ghost prev_paths = spec_queued_paths(sp, listings@, d as nat);
        proof {
            lemma_queued_len(sp, listings@, d as nat);
            lemma_listed_monotone(listings@, (d + 1) as nat, n as nat);
            assert(spec_listed(listings@, (d + 1) as nat) == spec_listed(listings@, d as nat)
                + listings@[d as int]@.len());
        }
        let entries = load_directory_with_priority(
            plan[d].directory.as_str(),
            plan[d].extension.as_str(),
            &listings[d],
            &mut state,
        );
        proof {
            let expected = spec_directory_entries(sp[d as int].0, sp[d as int].1, listings@[d as int]@);
            let added = expected.map_values(|e: (Seq<char>, Seq<char>)| e.1);
            let cur = spec_queued_paths(sp, listings@, (d + 1) as nat);
            assert(cur == prev_paths + added);
            assert forall|q: int| 0 <= q < state.loading_queue@.len() implies (
            #[trigger] state.loading_queue@[q])@ == cur[q] by {
                if q < before.len() {
                    assert(state.loading_queue@[q] == before[q]);
                } else {
                    let j = q - before.len();
                    assert(state.loading_queue@[before.len() + j]@ == expected[j].1);
                }
            }
        }
        all.push(entries);
        proof {
            assert forall|e: int|
                #![trigger all@[e]]
                0 <= e < d + 1 implies {
                    let expected = spec_directory_entries(sp[e].0, sp[e].1, listings@[e]@);
                    &&& all@[e]@.len() == expected.len()
                    &&& forall|j: int|
                        0 <= j < expected.len() ==> (#[trigger] all@[e]@[j]).0@ == expected[j].0
                            && all@[e]@[j].1@ == expected[j].1
                } by {
                if e < d {
                }
            }
        }
    }
    (state, all)
}

} // verus!
