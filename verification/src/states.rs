//! The application phase, the run phase and the slot that buffers a
//! requested transition until it is applied between ticks.

use vstd::prelude::*;

verus! {

/// The coarse mode of the application.
#[derive(Clone, Copy, Debug, PartialEq, Eq, Structural, Hash)]
pub enum AppState {
    MainMenu,
    Game,
    GameOver,
}

/// Whether the session in the `Game` phase is running or paused.
#[derive(Clone, Copy, Debug, PartialEq, Eq, Structural, Hash)]
pub enum SimulationState {
    GameRunning,
    GamePaused,
}

/// A buffered request for a transition: the last state that was set since
/// the slot was last taken.
#[derive(Debug)]
pub struct NextState<S> {
    pub pending: Option<S>,
}

impl Default for AppState {
    fn default() -> (r: AppState)
        ensures
            r == AppState::MainMenu,
    {
        AppState::MainMenu
    }
}

impl Default for SimulationState {
    fn default() -> (r: SimulationState)
        ensures
            r == SimulationState::GamePaused,
    {
        SimulationState::GamePaused
    }
}

impl SimulationState {
    /// The other run phase.
    pub open spec fn toggled_spec(self) -> SimulationState {
        match self {
            SimulationState::GamePaused => SimulationState::GameRunning,
            SimulationState::GameRunning => SimulationState::GamePaused,
        }
    }

    /// The other run phase.
    pub fn toggled(self) -> (r: SimulationState)
        ensures
            r == self.toggled_spec(),
    {
        match self {
            SimulationState::GamePaused => SimulationState::GameRunning,
            SimulationState::GameRunning => SimulationState::GamePaused,
        }
    }
}

impl<S> NextState<S> {
    /// An empty slot.
    pub fn new() -> (r: NextState<S>)
        ensures
            r.pending.is_none(),
    {
        NextState { pending: None }
    }

    /// Requests a transition to `state`, replacing an earlier request.
    pub fn set(&mut self, state: S)
        ensures
            final(self).pending == Some(state),
    {
        self.pending = Some(state);
    }

    /// Empties the slot and returns the request that was in it.
    pub fn take(&mut self) -> (r: Option<S>)
        ensures
            r == old(self).pending,
            final(self).pending.is_none(),
    {
        self.pending.take()
    }
}

} // verus!
