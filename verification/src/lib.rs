//! Simulation core of an avoid-and-collect arcade game.
//!
//! A player dodges roaming enemies and collects stars; a small flow leads
//! from the main menu through a session, paused or running, to a game over
//! and back. The core holds the rules and nothing else: it is given the
//! intents of the player, the extent of the arena and the time of each
//! frame as plain values, and it reports what it created, destroyed and
//! noticed. Lengths are fixed-point numbers and times are nanoseconds, so
//! every rule is exact and is stated as a contract that is proved.
//!
//! - `fixed`, `geometry`: scalars, points, the arena and unit directions.
//! - `components`, `resources`, `messages`, `states`: the data of the game.
//! - `systems`, `main_menu`: the steps of a tick, one function per rule.
//! - `world`, `report`: the whole state, the rule of a tick and its outcome.
//!   `World::step` is a function of its arguments, the draws among them;
//!   `World::tick` draws at random and steps.
//! - `laws`: what holds of every tick and of every run of ticks.
//! - `handles`, `random`: entity handles and the source of randomness.

pub mod components;
pub mod fixed;
pub mod geometry;
pub mod handles;
pub mod laws;
pub mod main_menu;
pub mod messages;
pub mod random;
pub mod report;
pub mod resources;
pub mod states;
pub mod systems;
pub mod world;
