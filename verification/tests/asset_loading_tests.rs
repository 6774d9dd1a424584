use sandk_offroad::assets::{check_asset_loading_progress, AssetLoadingState as TrackedAssets};
use sandk_offroad::game_assets::{
    asset_load_plan, check_loading_progress, get_current_loading_priority, load_all,
    load_directory_with_priority, AssetCategory, AssetLoadStatus, AssetLoadingState, LoadPriority,
};

fn names(list: &[&str]) -> Vec<String> {
    list.iter().map(|s| s.to_string()).collect()
}

#[test]
fn default_state_starts_critical_and_empty() {
    let state = AssetLoadingState::default();
    assert_eq!(state.total_assets, 0);
    assert_eq!(state.loaded_assets, 0);
    assert_eq!(state.failed_assets, 0);
    assert!(!state.is_complete);
    assert!(state.loading_queue.is_empty());
    assert_eq!(state.current_priority, LoadPriority::Critical);
}

#[test]
fn directory_load_queues_matching_files() {
    let mut state = AssetLoadingState::default();
    let entries = load_directory_with_priority(
        "ui/textures",
        "png",
        &names(&["queue1.png", "notes.txt", "queue2.png"]),
        &mut state,
    );
    assert_eq!(state.loading_queue.len(), 2);
    assert_eq!(state.loading_queue[0], "ui/textures/queue1.png");
    assert_eq!(state.loading_queue[1], "ui/textures/queue2.png");
    assert_eq!(state.total_assets, 2);
    assert_eq!(
        entries,
        vec![
            ("queue1.png".to_string(), "ui/textures/queue1.png".to_string()),
            ("queue2.png".to_string(), "ui/textures/queue2.png".to_string()),
        ]
    );
}

#[test]
fn directory_loads_accumulate_across_directories() {
    let mut state = AssetLoadingState::default();
    load_directory_with_priority("ui/fonts", "ttf", &names(&["main.ttf"]), &mut state);
    load_directory_with_priority("audio/engine", "ogg", &names(&["idle.ogg", "rev.ogg"]), &mut state);
    assert_eq!(state.total_assets, 3);
    assert_eq!(
        state.loading_queue,
        names(&["ui/fonts/main.ttf", "audio/engine/idle.ogg", "audio/engine/rev.ogg"])
    );
}

#[test]
fn assets_are_keyed_by_their_file_name() {
    let mut state = AssetLoadingState::default();
    let entries = load_directory_with_priority(
        "d",
        "png",
        &names(&["a.png", "b..png", "cpngpng", "png", "x.PNG"]),
        &mut state,
    );
    let keys: Vec<String> = entries.iter().map(|e| e.0.clone()).collect();
    assert_eq!(keys, names(&["a.png", "b..png", "cpngpng", "png"]));
    assert_eq!(state.total_assets, 4);
}

#[test]
fn empty_extension_matches_every_file() {
    let mut state = AssetLoadingState::default();
    let entries = load_directory_with_priority("d", "", &names(&["a.b.", "c"]), &mut state);
    let keys: Vec<String> = entries.iter().map(|e| e.0.clone()).collect();
    assert_eq!(keys, names(&["a.b.", "c"]));
}

#[test]
fn progress_counts_loaded_and_failed() {
    let states = vec![
        Some(AssetLoadStatus::Loaded),
        Some(AssetLoadStatus::Failed),
        Some(AssetLoadStatus::Loading),
        None,
        Some(AssetLoadStatus::Loaded),
    ];
    let state = check_loading_progress(&states);
    assert_eq!(state.total_assets, 5);
    assert_eq!(state.loaded_assets, 2);
    assert_eq!(state.failed_assets, 1);
    assert!(!state.is_complete);
    assert_eq!(state.current_priority, LoadPriority::High);
    assert!(state.loading_queue.is_empty());
}

#[test]
fn loading_completes_when_every_asset_settles() {
    let states = vec![Some(AssetLoadStatus::Loaded), Some(AssetLoadStatus::Failed)];
    let state = check_loading_progress(&states);
    assert!(state.is_complete);
    let state = check_loading_progress(&Vec::new());
    assert_eq!(state.total_assets, 0);
    assert!(state.is_complete);
}

#[test]
fn partial_loading_of_two_critical_assets() {
    let state = check_loading_progress(&vec![Some(AssetLoadStatus::Loaded); 2]);
    assert_eq!(state.total_assets, 2);
    assert_eq!(state.loaded_assets, 2);
    assert_eq!(state.failed_assets, 0);
    assert!(state.is_complete);
}

fn priority(loaded: usize, total: usize) -> LoadPriority {
    let mut state = AssetLoadingState::default();
    state.loaded_assets = loaded;
    state.total_assets = total;
    get_current_loading_priority(&state)
}

#[test]
fn priority_follows_quarters_of_progress() {
    assert_eq!(priority(0, 4), LoadPriority::Critical);
    assert_eq!(priority(1, 5), LoadPriority::Critical);
    assert_eq!(priority(1, 4), LoadPriority::High);
    assert_eq!(priority(2, 5), LoadPriority::High);
    assert_eq!(priority(2, 4), LoadPriority::Medium);
    assert_eq!(priority(2, 3), LoadPriority::Medium);
    assert_eq!(priority(3, 4), LoadPriority::Low);
    assert_eq!(priority(4, 4), LoadPriority::Low);
    assert_eq!(priority(0, 0), LoadPriority::Low);
    assert_eq!(priority(usize::MAX, usize::MAX), LoadPriority::Low);
}

#[test]
fn priority_never_moves_back() {
    let total = 37;
    let mut last = LoadPriority::Critical;
    for loaded in 0..=total {
        let p = priority(loaded, total);
        assert!(p >= last);
        last = p;
    }
}

#[test]
fn tracked_assets_list_failures_in_order() {
    let mut state = TrackedAssets::default();
    let handles = vec![
        ("a".to_string(), Some(AssetLoadStatus::Loaded)),
        ("b".to_string(), Some(AssetLoadStatus::Failed)),
        ("c".to_string(), None),
        ("d".to_string(), Some(AssetLoadStatus::Failed)),
    ];
    check_asset_loading_progress(&handles, &mut state);
    assert_eq!(state.total_assets, 4);
    assert_eq!(state.loaded_assets, 1);
    assert_eq!(state.failed_assets, vec!["b".to_string(), "d".to_string()]);
    assert!(!state.loading_complete);
    assert_eq!(state.progress(), (1, 4));
}

#[test]
fn tracked_assets_complete_when_all_loaded() {
    let mut state = TrackedAssets::default();
    assert_eq!(state.progress(), (1, 1));
    check_asset_loading_progress(&Vec::new(), &mut state);
    assert!(state.loading_complete);
    let handles = vec![("a".to_string(), Some(AssetLoadStatus::Loaded))];
    check_asset_loading_progress(&handles, &mut state);
    assert!(state.loading_complete);
    assert!(state.failed_assets.is_empty());
    assert_eq!(state.progress(), (1, 1));
}

#[test]
fn load_plan_visits_ui_first_and_audio_last() {
    let plan = asset_load_plan();
    assert_eq!(plan.len(), 15);
    assert_eq!(plan[0].directory, "ui/textures");
    assert_eq!(plan[0].extension, "png");
    assert_eq!(plan[0].category, AssetCategory::UiTextures);
    assert_eq!(plan[3].directory, "vehicles/models");
    assert_eq!(plan[3].extension, "gltf");
    assert_eq!(plan[14].directory, "audio/voice");
    assert_eq!(plan[14].priority, LoadPriority::Low);
    assert!(plan.windows(2).all(|w| w[0].priority <= w[1].priority));
}

#[test]
fn load_all_queues_every_planned_directory() {
    let mut listings: Vec<Vec<String>> = vec![Vec::new(); 15];
    listings[0] = names(&["loading.png", "readme.md"]);
    listings[1] = names(&["main.ttf"]);
    listings[3] = names(&["truck.gltf", "truck.glb"]);
    listings[10] = names(&["idle.ogg"]);
    let (state, entries) = load_all(&listings);
    assert_eq!(state.total_assets, 4);
    assert_eq!(
        state.loading_queue,
        names(&[
            "ui/textures/loading.png",
            "ui/fonts/main.ttf",
            "vehicles/models/truck.gltf",
            "audio/engine/idle.ogg",
        ])
    );
    assert_eq!(state.current_priority, LoadPriority::Critical);
    assert_eq!(entries.len(), 15);
    assert_eq!(entries[0], vec![("loading.png".to_string(), "ui/textures/loading.png".to_string())]);
    assert_eq!(entries[3], vec![("truck.gltf".to_string(), "vehicles/models/truck.gltf".to_string())]);
    assert!(entries[2].is_empty());
}

#[test]
fn priority_moves_past_critical_once_critical_assets_load() {
    // One critical, one high, one medium and one low asset, in plan order.
    let mut states = vec![Some(AssetLoadStatus::Loading); 4];
    assert_eq!(check_loading_progress(&states).current_priority, LoadPriority::Critical);
    states[0] = Some(AssetLoadStatus::Loaded);
    assert_eq!(check_loading_progress(&states).current_priority, LoadPriority::High);
    states[1] = Some(AssetLoadStatus::Loaded);
    assert_eq!(check_loading_progress(&states).current_priority, LoadPriority::Medium);
    states[2] = Some(AssetLoadStatus::Loaded);
    assert_eq!(check_loading_progress(&states).current_priority, LoadPriority::Low);
    states[3] = Some(AssetLoadStatus::Loaded);
    let done = check_loading_progress(&states);
    assert_eq!(done.current_priority, LoadPriority::Low);
    assert!(done.is_complete);
}

#[test]
fn loaded_ui_assets_are_kept_under_their_file_names() {
    let mut listings: Vec<Vec<String>> = vec![Vec::new(); 15];
    listings[0] = names(&["loading.png"]);
    listings[1] = names(&["main.ttf"]);
    let (state, entries) = load_all(&listings);
    assert_eq!(state.total_assets, 2);
    assert!(entries[0].iter().any(|(key, _)| key == "loading.png"));
    assert!(entries[1].iter().any(|(key, _)| key == "main.ttf"));
}
