//! The advance of the spawn timers.

use vstd::prelude::*;
use crate::resources::{EnemySpawnTimer, StarSpawnTimer};

verus! {

/// Advances the star spawn timer by the time of the tick.
pub fn tick_star_spawn_timer(star_spawn_timer: &mut StarSpawnTimer, dt_nanos: u64)
    ensures
        final(star_spawn_timer).timer == old(star_spawn_timer).timer.ticked_spec(dt_nanos as int),
{
    star_spawn_timer.timer.tick(dt_nanos);
}

/// Advances the enemy spawn timer by the time of the tick.
pub fn tick_enemy_spawn_timer(enemy_spawn_timer: &mut EnemySpawnTimer, dt_nanos: u64)
    ensures
        final(enemy_spawn_timer).timer == old(enemy_spawn_timer).timer.ticked_spec(
            dt_nanos as int,
        ),
{
    enemy_spawn_timer.timer.tick(dt_nanos);
}

} // verus!
