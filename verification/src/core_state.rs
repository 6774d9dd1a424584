//! Top-level game states and the keyboard-driven transitions between them.
use vstd::prelude::*;

verus! {

/// The states the game moves through.
#[derive(Clone, Copy, Debug, PartialEq, Eq, Structural, Hash)]
pub enum GameState {
    Loading,
    MainMenu,
    Playing,
    Paused,
    GameOver,
}

impl Default for GameState {
    fn default() -> (s: Self)
        ensures
            s == GameState::Loading,
    {
        GameState::Loading
    }
}

/// The state the game asks for next, given the current state and which of the
/// two keys that drive the menus were just pressed; `None` keeps the state.
pub open spec fn spec_next_game_state(
    state: GameState,
    return_pressed: bool,
    escape_pressed: bool,
) -> Option<GameState> {
    match state {
        GameState::Loading => Some(GameState::MainMenu),
        GameState::MainMenu => if return_pressed { Some(GameState::Playing) } else { None },
        GameState::Playing => if escape_pressed { Some(GameState::Paused) } else { None },
        GameState::Paused => if escape_pressed { Some(GameState::Playing) } else { None },
        GameState::GameOver => if return_pressed { Some(GameState::MainMenu) } else { None },
    }
}

/// Decides the next game state: loading finishes into the main menu, Return
/// starts the game from the menu and goes back to the menu after a game over,
/// and Escape pauses and resumes play.
pub fn handle_game_state(state: GameState, return_pressed: bool, escape_pressed: bool) -> (next:
    Option<GameState>)
    ensures
        next == spec_next_game_state(state, return_pressed, escape_pressed),
{
    match state {
        GameState::Loading => Some(GameState::MainMenu),
        GameState::MainMenu => {
            if return_pressed {
                Some(GameState::Playing)
            } else {
                None
            }
        },
        GameState::Playing => {
            if escape_pressed {
                Some(GameState::Paused)
            } else {
                None
            }
        },
        GameState::Paused => {
            if escape_pressed {
                Some(GameState::Playing)
            } else {
                None
            }
        },
        GameState::GameOver => {
            if return_pressed {
                Some(GameState::MainMenu)
            } else {
                None
            }
        },
    }
}

/// The state that holds after applying a decision of `handle_game_state`.
pub open spec fn spec_apply(state: GameState, next: Option<GameState>) -> GameState {
    match next {
        Some(s) => s,
        None => state,
    }
}

/// Pressing Escape twice while playing pauses and then resumes the game.
pub proof fn lemma_escape_toggles_pause(return_pressed: bool)
    ensures
        spec_apply(
            spec_apply(
                GameState::Playing,
                spec_next_game_state(GameState::Playing, return_pressed, true),
            ),
            spec_next_game_state(
                spec_apply(
                    GameState::Playing,
                    spec_next_game_state(GameState::Playing, return_pressed, true),
                ),
                return_pressed,
                true,
            ),
        ) == GameState::Playing,
        spec_next_game_state(GameState::Playing, return_pressed, true) == Some(GameState::Paused),
{
}

/// Without either key pressed only the loading screen moves on, and it always
/// moves to the main menu.
pub proof fn lemma_idle_keeps_state(state: GameState)
    ensures
        state != GameState::Loading ==> spec_next_game_state(state, false, false) == None::<
            GameState,
        >,
        spec_next_game_state(GameState::Loading, false, false) == Some(GameState::MainMenu),
{
}

} // verus!
