//! The steps of a tick, one function per rule.

pub mod enemy;
pub mod game_state;
pub mod player;
pub mod star;
pub mod timers;
