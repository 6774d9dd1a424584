use sandk_offroad::core_state::{handle_game_state, GameState};
use sandk_offroad::game::{jeep_body_indices, GameState as GamePhase};

#[test]
fn loading_moves_to_main_menu() {
    assert_eq!(GameState::default(), GameState::Loading);
    assert_eq!(handle_game_state(GameState::Loading, false, false), Some(GameState::MainMenu));
    assert_eq!(handle_game_state(GameState::Loading, true, true), Some(GameState::MainMenu));
}

#[test]
fn return_starts_play_and_leaves_game_over() {
    assert_eq!(handle_game_state(GameState::MainMenu, true, false), Some(GameState::Playing));
    assert_eq!(handle_game_state(GameState::MainMenu, false, true), None);
    assert_eq!(handle_game_state(GameState::GameOver, true, false), Some(GameState::MainMenu));
    assert_eq!(handle_game_state(GameState::GameOver, false, true), None);
}

#[test]
fn escape_pauses_and_resumes() {
    let paused = handle_game_state(GameState::Playing, false, true).unwrap();
    assert_eq!(paused, GameState::Paused);
    let resumed = handle_game_state(paused, false, true).unwrap();
    assert_eq!(resumed, GameState::Playing);
    assert_eq!(handle_game_state(GameState::Playing, true, false), None);
    assert_eq!(handle_game_state(GameState::Paused, true, false), None);
}

#[test]
fn game_phase_defaults_to_loading() {
    assert_eq!(GamePhase::default(), GamePhase::Loading);
}

#[test]
fn jeep_body_has_twelve_triangles_over_eight_corners() {
    let indices = jeep_body_indices();
    assert_eq!(indices.len(), 36);
    assert!(indices.iter().all(|&i| i < 8));
    assert_eq!(&indices[0..6], &[0, 2, 1, 0, 3, 2]);
    assert_eq!(&indices[30..36], &[0, 4, 7, 0, 7, 3]);
}
