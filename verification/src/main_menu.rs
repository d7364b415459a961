//! The way from the main menu into a session.

use vstd::prelude::*;
use crate::messages::Intents;
use crate::states::{AppState, NextState};
use crate::systems::game_state::confirm_target;

verus! {

/// Requests a new session if the confirm intent is given in the main menu
/// or after a game over.
pub fn transition_to_game(
    state: AppState,
    changed_state: &mut NextState<AppState>,
    intents: &Intents,
)
    ensures
        final(changed_state).pending == match confirm_target(state, *intents) {
            Some(target) => Some(target),
            None => old(changed_state).pending,
        },
{
    if intents.confirm_selection && state != AppState::Game {
        changed_state.set(AppState::Game);
    }
}

} // verus!
