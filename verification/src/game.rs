//! Game states and the terminal transition: while gameplay is running, a
//! path-follower tick that reports the path complete moves the game to the
//! terminal state, and does so exactly once per session.

use vstd::prelude::*;
use crate::path::MoveOutcome;

verus! {

#[derive(Clone, Copy, PartialEq, Eq, Structural, Debug)]
pub enum GameState {
    MainMenu,
    Gameplay,
    GameOver,
}

/// Whether a path-follower outcome fires the terminal transition: only a
/// completed path during gameplay does.
pub open spec fn spec_triggers_game_over(state: GameState, outcome: MoveOutcome) -> bool {
    state == GameState::Gameplay && outcome == MoveOutcome::PathComplete
}

/// The game state after a path-follower tick.
pub open spec fn spec_next_state(state: GameState, outcome: MoveOutcome) -> GameState {
    if spec_triggers_game_over(state, outcome) {
        GameState::GameOver
    } else {
        state
    }
}

/// Applies the terminal transition a path-follower tick asks for, and
/// reports whether it fired.
pub fn apply_move_outcome(state: &mut GameState, outcome: MoveOutcome) -> (triggered: bool)
    ensures
        triggered == spec_triggers_game_over(*old(state), outcome),
        *final(state) == spec_next_state(*old(state), outcome),
{
    match (*state, outcome) {
        (GameState::Gameplay, MoveOutcome::PathComplete) => {
            *state = GameState::GameOver;
            true
        },
        _ => false,
    }
}

/// The terminal transition fires at most once per session: after it has
/// fired, no later tick can fire it again.
pub proof fn lemma_game_over_fires_once(state: GameState, o1: MoveOutcome, o2: MoveOutcome)
    requires
        spec_triggers_game_over(state, o1),
    ensures
        !spec_triggers_game_over(spec_next_state(state, o1), o2),
{
}

} // verus!
