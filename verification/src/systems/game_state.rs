//! The intents and signals that request a change of phase, and the record
//! of completed sessions.

use vstd::prelude::*;
use crate::messages::{GameOver, Intents};
use crate::resources::HighScores;
use crate::states::{AppState, NextState, SimulationState};

verus! {

/// The label under which every completed session is recorded.
pub const HIGH_SCORE_LABEL: &'static str = "Player";

/// The entry that records a completed session: the fixed label and the
/// score of the game-over signal.
pub open spec fn score_entry(signal: GameOver) -> (Seq<char>, u32) {
    (HIGH_SCORE_LABEL@, signal.score)
}

/// The entries that record the sessions of `signals`, in order.
pub open spec fn score_entries(signals: Seq<GameOver>) -> Seq<(Seq<char>, u32)> {
    signals.map_values(|signal: GameOver| score_entry(signal))
}

/// The phase that a confirm intent asks for, if any: a new session, from the
/// main menu or after a game over.
pub open spec fn confirm_target(state: AppState, intents: Intents) -> Option<AppState> {
    if intents.confirm_selection && state != AppState::Game {
        Some(AppState::Game)
    } else {
        None
    }
}

/// The phase that a cancel intent asks for, if any: the main menu, from a
/// session or after a game over.
pub open spec fn cancel_target(state: AppState, intents: Intents) -> Option<AppState> {
    if intents.cancel_to_menu && state != AppState::MainMenu {
        Some(AppState::MainMenu)
    } else {
        None
    }
}

/// Whether the intents ask for the application to quit. The quit itself is
/// left to the caller.
pub fn exit_game(intents: &Intents) -> (quit: bool)
    ensures
        quit == intents.request_quit,
{
    intents.request_quit
}

/// Requests the game-over phase if a game-over signal was raised.
pub fn handle_game_over(gameover_reader: &Vec<GameOver>, change_state: &mut NextState<AppState>)
    ensures
        final(change_state).pending == if gameover_reader@.len() > 0 {
            Some(AppState::GameOver)
        } else {
            old(change_state).pending
        },
{
    if gameover_reader.len() > 0 {
        change_state.set(AppState::GameOver);
    }
}

/// Appends one entry to the record for each game-over signal. Nothing else
/// ever writes the record.
pub fn update_high_scores(gameover_reader: &Vec<GameOver>, high_scores: &mut HighScores)
    ensures
        final(high_scores)@ == old(high_scores)@ + score_entries(gameover_reader@),
{
    let n: usize = gameover_reader.len();
    let mut i: usize = 0;
    assert(high_scores@ =~= old(high_scores)@ + score_entries(gameover_reader@.take(0)));
    while i < n
        invariant
            i <= n,
            n == gameover_reader@.len(),
            high_scores@ == old(high_scores)@ + score_entries(gameover_reader@.take(i as int)),
        decreases n - i,
    {
        let ghost earlier = high_scores@;
        let signal: GameOver = gameover_reader[i];
        high_scores.scores.push((HIGH_SCORE_LABEL.to_owned(), signal.score));
        i = i + 1;
        proof {
            assert(high_scores@ =~= earlier.push(score_entry(signal)));
            assert(score_entries(gameover_reader@.take(i as int)) =~= score_entries(
                gameover_reader@.take(i - 1),
            ).push(score_entry(signal)));
        }
    }
    assert(gameover_reader@.take(n as int) =~= gameover_reader@);
}

/// Requests the other run phase if the toggle intent is given.
pub fn toggle_game_simulation(
    state: SimulationState,
    change_state: &mut NextState<SimulationState>,
    intents: &Intents,
)
    ensures
        final(change_state).pending == if intents.toggle_run_pause {
            Some(state.toggled_spec())
        } else {
            old(change_state).pending
        },
{
    if intents.toggle_run_pause {
        change_state.set(state.toggled());
    }
}

/// Requests the main menu if the cancel intent is given during a session or
/// after a game over.
pub fn transition_to_main_menu(
    state: AppState,
    change_state: &mut NextState<AppState>,
    intents: &Intents,
)
    ensures
        final(change_state).pending == match cancel_target(state, *intents) {
            Some(target) => Some(target),
            None => old(change_state).pending,
        },
{
    if intents.cancel_to_menu && state != AppState::MainMenu {
        change_state.set(AppState::MainMenu);
    }
}

} // verus!
