//! The source of randomness.

use vstd::prelude::*;
use crate::components::{EnemyDraws, StarDraws, NUMBER_OF_ENEMIES, NUMBER_OF_STARS};

verus! {

/// The draws that one tick can use: for the star and the enemy that the
/// spawn timers add, and for the first enemies and stars of a session.
#[derive(Clone, Copy, Debug)]
pub struct TickDraws {
    pub star: StarDraws,
    pub enemy: EnemyDraws,
    pub first_enemies: [EnemyDraws; NUMBER_OF_ENEMIES],
    pub first_stars: [StarDraws; NUMBER_OF_STARS],
}

/// Draws a number with `rand::random`, from the generator of the thread.
///
/// Trusted: nothing is claimed of the number. The generator seeds itself
/// from the operating system and gives up if that fails.
#[verifier::external_body]
fn random_draw() -> (r: u32) {
    rand::random::<u32>()
}

/// Draws the two numbers that place a star.
fn draw_star() -> (r: StarDraws) {
    let x: u32 = random_draw();
    let y: u32 = random_draw();
    StarDraws { x, y }
}

/// Draws the four numbers that place and orient an enemy.
fn draw_enemy() -> (r: EnemyDraws) {
    let x: u32 = random_draw();
    let y: u32 = random_draw();
    let direction_x: u32 = random_draw();
    let direction_y: u32 = random_draw();
    EnemyDraws { x, y, direction_x, direction_y }
}

/// Draws all the numbers that one tick can use.
pub fn draw_tick() -> (r: TickDraws) {
    let star = draw_star();
    let enemy = draw_enemy();
    let mut first_enemies = [enemy; NUMBER_OF_ENEMIES];
    let mut i: usize = 0;
    while i < NUMBER_OF_ENEMIES
        invariant
            i <= NUMBER_OF_ENEMIES,
        decreases NUMBER_OF_ENEMIES - i,
    {
        first_enemies[i] = draw_enemy();
        i = i + 1;
    }
    let mut first_stars = [star; NUMBER_OF_STARS];
    let mut j: usize = 0;
    while j < NUMBER_OF_STARS
        invariant
            j <= NUMBER_OF_STARS,
        decreases NUMBER_OF_STARS - j,
    {
        first_stars[j] = draw_star();
        j = j + 1;
    }
    TickDraws { star, enemy, first_enemies, first_stars }
}

} // verus!
