//! Transient messages: the game-over signal, the player's intents and the
//! report that a tick hands to the presentation.

use vstd::prelude::*;
use crate::components::EntityKind;
use crate::geometry::Position;

verus! {

/// Raised once when the player is eliminated; carries the score at that
/// moment.
#[derive(Clone, Copy, Debug, PartialEq, Eq, Structural)]
pub struct GameOver {
    pub score: u32,
}

/// The logical intents of one tick. The movement intents are level
/// sensitive; the others are set in the tick in which they were given.
#[derive(Clone, Copy, Debug)]
pub struct Intents {
    pub move_left: bool,
    pub move_right: bool,
    pub move_up: bool,
    pub move_down: bool,
    pub toggle_run_pause: bool,
    pub confirm_selection: bool,
    pub cancel_to_menu: bool,
    pub request_quit: bool,
}

/// An entity that a tick created, with its handle, kind and first position.
#[derive(Clone, Copy, Debug, PartialEq, Eq, Structural)]
pub struct Spawned {
    pub id: u64,
    pub kind: EntityKind,
    pub position: Position,
}

/// An entity that a tick destroyed.
#[derive(Clone, Copy, Debug, PartialEq, Eq, Structural)]
pub struct Despawned {
    pub id: u64,
    pub kind: EntityKind,
}

impl Intents {
    /// No intent at all.
    pub fn none() -> (r: Intents)
        ensures
            r == (Intents {
                move_left: false,
                move_right: false,
                move_up: false,
                move_down: false,
                toggle_run_pause: false,
                confirm_selection: false,
                cancel_to_menu: false,
                request_quit: false,
            }),
    {
        Intents {
            move_left: false,
            move_right: false,
            move_up: false,
            move_down: false,
            toggle_run_pause: false,
            confirm_selection: false,
            cancel_to_menu: false,
            request_quit: false,
        }
    }
}

} // verus!
