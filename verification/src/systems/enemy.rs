//! The enemies: creation, bouncing, movement, confinement and the
//! elimination of the player.

use vstd::prelude::*;
use crate::components::{Enemy, EnemyDraws, Player, ENEMY_RADIUS, ENEMY_SPEED, NUMBER_OF_ENEMIES};
use crate::fixed::at_bound;
use crate::geometry::Arena;
use crate::handles::{allocate, enemy_ids, handles_ordered, lemma_handle_appended};
use crate::messages::GameOver;
use crate::resources::{EnemySpawnTimer, Score};

verus! {

/// How many enemies the bounce check mirrored at a vertical wall and how
/// many at a horizontal wall. Each of them is one bounce notification.
#[derive(Clone, Copy, Debug, PartialEq, Eq, Structural)]
pub struct Bounces {
    pub x: usize,
    pub y: usize,
}

/// The enemies that a row of draws selects, under the handles from
/// `first_id` on.
pub open spec fn new_enemies(first_id: int, arena: Arena, draws: Seq<EnemyDraws>) -> Seq<Enemy> {
    Seq::new(draws.len(), |i: int| Enemy::spawned_spec((first_id + i) as u64, arena, draws[i]))
}

/// The bounce check in `arena`, as a function of the enemy.
pub open spec fn bounced_in(arena: Arena) -> spec_fn(Enemy) -> Enemy {
    |enemy: Enemy| enemy.bounced_spec(arena)
}

/// The movement of `dt` nanoseconds, as a function of the enemy.
pub open spec fn moved_for(dt: int) -> spec_fn(Enemy) -> Enemy {
    |enemy: Enemy| enemy.moved_spec(dt)
}

/// The confinement to `arena`, as a function of the enemy.
pub open spec fn confined_in(arena: Arena) -> spec_fn(Enemy) -> Enemy {
    |enemy: Enemy| enemy.confined_spec(arena)
}

/// The enemies that the bounce check mirrors at a vertical wall.
pub open spec fn bouncing_x(arena: Arena) -> spec_fn(Enemy) -> bool {
    |enemy: Enemy| enemy.bounces_x(arena)
}

/// The enemies that the bounce check mirrors at a horizontal wall.
pub open spec fn bouncing_y(arena: Arena) -> spec_fn(Enemy) -> bool {
    |enemy: Enemy| enemy.bounces_y(arena)
}

/// Whether every enemy has a direction of unit length.
pub open spec fn directions_unit(enemies: Seq<Enemy>) -> bool {
    forall|k: int| 0 <= k < enemies.len() ==> (#[trigger] enemies[k]).direction.is_unit()
}

/// Whether the player touches any of the enemies.
pub open spec fn caught(player: Player, enemies: Seq<Enemy>) -> bool {
    exists|i: int| 0 <= i < enemies.len() && player.touches_enemy(#[trigger] enemies[i])
}

/// Appends the enemy that `draws` select, under the next handle.
fn place_enemy(enemies: &mut Vec<Enemy>, next_id: &mut u64, arena: &Arena, draws: EnemyDraws)
    requires
        *old(next_id) < u64::MAX,
    ensures
        final(enemies)@ == old(enemies)@.push(Enemy::spawned_spec(*old(next_id), *arena, draws)),
        *final(next_id) == *old(next_id) + 1,
        handles_ordered(enemy_ids(old(enemies)@), *old(next_id) as int) ==> handles_ordered(
            enemy_ids(final(enemies)@),
            *final(next_id) as int,
        ),
{
    let id: u64 = allocate(next_id);
    enemies.push(Enemy::spawn(id, arena, draws));
    proof {
        assert(enemy_ids(enemies@) =~= enemy_ids(old(enemies)@).push(id));
        if handles_ordered(enemy_ids(old(enemies)@), id as int) {
            lemma_handle_appended(enemy_ids(old(enemies)@), id);
        }
    }
}

/// Creates the enemies of a new session, each at the place of the full
/// arena and with the unit direction that its draws select.
pub fn spawn_enemies(
    enemies: &mut Vec<Enemy>,
    next_id: &mut u64,
    arena: &Arena,
    draws: &[EnemyDraws; NUMBER_OF_ENEMIES],
)
    requires
        *old(next_id) + NUMBER_OF_ENEMIES <= u64::MAX,
    ensures
        final(enemies)@ == old(enemies)@ + new_enemies(*old(next_id) as int, *arena, draws@),
        *final(next_id) == *old(next_id) + NUMBER_OF_ENEMIES,
        handles_ordered(enemy_ids(old(enemies)@), *old(next_id) as int) ==> handles_ordered(
            enemy_ids(final(enemies)@),
            *final(next_id) as int,
        ),
{
    let ghost first_id = *next_id;
    let mut made: usize = 0;
    assert(enemies@ =~= old(enemies)@ + new_enemies(first_id as int, *arena, draws@.take(0)));
    while made < NUMBER_OF_ENEMIES
        invariant
            made <= NUMBER_OF_ENEMIES,
            draws@.len() == NUMBER_OF_ENEMIES,
            first_id + NUMBER_OF_ENEMIES <= u64::MAX,
            *next_id == first_id + made,
            enemies@ == old(enemies)@ + new_enemies(
                first_id as int,
                *arena,
                draws@.take(made as int),
            ),
            handles_ordered(enemy_ids(old(enemies)@), first_id as int) ==> handles_ordered(
                enemy_ids(enemies@),
                *next_id as int,
            ),
        decreases NUMBER_OF_ENEMIES - made,
    {
        place_enemy(enemies, next_id, arena, draws[made]);
        made = made + 1;
        assert(enemies@ =~= old(enemies)@ + new_enemies(
            first_id as int,
            *arena,
            draws@.take(made as int),
        ));
    }
    assert(draws@.take(NUMBER_OF_ENEMIES as int) =~= draws@);
}

/// Removes every enemy and returns those that were removed.
pub fn despawn_enemys(enemies: &mut Vec<Enemy>) -> (removed: Vec<Enemy>)
    ensures
        final(enemies)@.len() == 0,
        removed@ == old(enemies)@,
{
    let mut removed: Vec<Enemy> = Vec::new();
    std::mem::swap(enemies, &mut removed);
    removed
}

/// Moves every enemy along its direction, at the enemies' speed, for
/// `dt_nanos` nanoseconds.
pub fn enemy_movement(enemies: &mut Vec<Enemy>, dt_nanos: u64)
    ensures
        final(enemies)@ == old(enemies)@.map_values(moved_for(dt_nanos as int)),
        directions_unit(final(enemies)@),
{
    let n: usize = enemies.len();
    let mut i: usize = 0;
    while i < n
        invariant
            i <= n,
            n == enemies.len(),
            n == old(enemies).len(),
            forall|k: int| 0 <= k < i ==> enemies[k] == old(enemies)[k].moved_spec(dt_nanos as int),
            forall|k: int| i <= k < n ==> enemies[k] == old(enemies)[k],
            forall|k: int| 0 <= k < i ==> (#[trigger] enemies@[k]).direction.is_unit(),
        decreases n - i,
    {
        let enemy: Enemy = enemies[i];
        proof {
            use_type_invariant(&enemy.direction);
        }
        enemies[i] = Enemy {
            id: enemy.id,
            position: enemy.position.advanced(enemy.direction, ENEMY_SPEED, dt_nanos),
            direction: enemy.direction,
        };
        i = i + 1;
    }
    assert(enemies@ =~= old(enemies)@.map_values(moved_for(dt_nanos as int)));
}

/// Mirrors the direction of every enemy whose centre touches or passes a
/// confinement bound, on the axis of that bound, and counts the bounces.
/// Without an arena nothing changes.
pub fn update_enemy_direction(enemies: &mut Vec<Enemy>, arena: Option<&Arena>) -> (bounces: Bounces)
    ensures
        final(enemies)@ == match arena {
            Some(a) => old(enemies)@.map_values(bounced_in(*a)),
            None => old(enemies)@,
        },
        bounces.x == match arena {
            Some(a) => old(enemies)@.filter(bouncing_x(*a)).len(),
            None => 0,
        },
        bounces.y == match arena {
            Some(a) => old(enemies)@.filter(bouncing_y(*a)).len(),
            None => 0,
        },
        arena.is_some() || directions_unit(old(enemies)@) ==> directions_unit(final(enemies)@),
{
    let mut bounces = Bounces { x: 0, y: 0 };
    if let Some(a) = arena {
        let n: usize = enemies.len();
        let mut i: usize = 0;
        proof {
            reveal(Seq::filter);
            assert(old(enemies)@.take(0).len() == 0);
        }
        while i < n
            invariant
                i <= n,
                n == enemies.len(),
                n == old(enemies).len(),
                forall|k: int| 0 <= k < i ==> enemies[k] == old(enemies)[k].bounced_spec(*a),
                forall|k: int| i <= k < n ==> enemies[k] == old(enemies)[k],
                bounces.x == old(enemies)@.take(i as int).filter(bouncing_x(*a)).len(),
                bounces.y == old(enemies)@.take(i as int).filter(bouncing_y(*a)).len(),
                bounces.x <= i,
                bounces.y <= i,
                forall|k: int| 0 <= k < i ==> (#[trigger] enemies@[k]).direction.is_unit(),
            decreases n - i,
        {
            let enemy: Enemy = enemies[i];
            proof {
                reveal(Seq::filter);
                assert(old(enemies)@.take(i + 1).drop_last() =~= old(enemies)@.take(i as int));
                assert(old(enemies)@.take(i + 1).last() == enemy);
            }
            if at_bound(enemy.position.x, ENEMY_RADIUS, a.width()) {
                bounces.x = bounces.x + 1;
            }
            if at_bound(enemy.position.y, ENEMY_RADIUS, a.height()) {
                bounces.y = bounces.y + 1;
            }
            enemies[i] = Enemy {
                id: enemy.id,
                position: enemy.position,
                direction: enemy.direction.bounced(enemy.position, ENEMY_RADIUS, a),
            };
            i = i + 1;
        }
        assert(old(enemies)@.take(n as int) =~= old(enemies)@);
        assert(enemies@ =~= old(enemies)@.map_values(bounced_in(*a)));
    }
    bounces
}

/// Confines every enemy to the arena. Without an arena nothing changes.
pub fn confine_enemy(enemies: &mut Vec<Enemy>, arena: Option<&Arena>)
    ensures
        final(enemies)@ == match arena {
            Some(a) => old(enemies)@.map_values(confined_in(*a)),
            None => old(enemies)@,
        },
        arena.is_some() && arena.unwrap().fits(ENEMY_RADIUS as int) ==> forall|k: int|
            0 <= k < final(enemies)@.len() ==> (#[trigger] final(enemies)@[k]).position.inside(
                ENEMY_RADIUS as int,
                *arena.unwrap(),
            ),
        arena.is_some() || directions_unit(old(enemies)@) ==> directions_unit(final(enemies)@),
{
    if let Some(a) = arena {
        let n: usize = enemies.len();
        let mut i: usize = 0;
        while i < n
            invariant
                i <= n,
                n == enemies.len(),
                n == old(enemies).len(),
                forall|k: int| 0 <= k < i ==> enemies[k] == old(enemies)[k].confined_spec(*a),
                forall|k: int| i <= k < n ==> enemies[k] == old(enemies)[k],
                a.fits(ENEMY_RADIUS as int) ==> forall|k: int|
                    0 <= k < i ==> (#[trigger] enemies@[k]).position.inside(
                        ENEMY_RADIUS as int,
                        *a,
                    ),
                forall|k: int| 0 <= k < i ==> (#[trigger] enemies@[k]).direction.is_unit(),
            decreases n - i,
        {
            let enemy: Enemy = enemies[i];
            proof {
                use_type_invariant(&enemy.direction);
            }
            enemies[i] = Enemy {
                id: enemy.id,
                position: enemy.position.confined(ENEMY_RADIUS, a),
                direction: enemy.direction,
            };
            i = i + 1;
        }
        assert(enemies@ =~= old(enemies)@.map_values(confined_in(*a)));
    }
}

/// Eliminates the player if it touches any enemy: the player is removed and
/// one game-over signal with the current score is written, however many
/// enemies touch it. Returns the eliminated player. Without a player nothing
/// happens.
pub fn enemy_hit_player(
    player: &mut Option<Player>,
    enemies: &Vec<Enemy>,
    score: &Score,
    gameover_writer: &mut Vec<GameOver>,
) -> (eliminated: Option<Player>)
    ensures
        eliminated == match *old(player) {
            Some(p) => if caught(p, enemies@) {
                Some(p)
            } else {
                None
            },
            None => None,
        },
        *final(player) == if eliminated.is_some() {
            None
        } else {
            *old(player)
        },
        final(gameover_writer)@ == if eliminated.is_some() {
            old(gameover_writer)@.push(GameOver { score: score.value })
        } else {
            old(gameover_writer)@
        },
{
    if let Some(p) = *player {
        let n: usize = enemies.len();
        let mut i: usize = 0;
        while i < n
            invariant
                i <= n,
                n == enemies.len(),
                *player == *old(player),
                *player == Some(p),
                gameover_writer@ == old(gameover_writer)@,
                forall|k: int| 0 <= k < i ==> !p.touches_enemy(#[trigger] enemies@[k]),
            decreases n - i,
        {
            if p.hits_enemy(&enemies[i]) {
                *player = None;
                gameover_writer.push(GameOver { score: score.value });
                return Some(p);
            }
            i = i + 1;
        }
    }
    None
}

/// Creates one more enemy, at the place and with the direction that
/// `draws` select, if the spawn timer has just completed a period and the
/// arena is known.
pub fn spawn_enemys_over_time(
    enemies: &mut Vec<Enemy>,
    next_id: &mut u64,
    arena: Option<&Arena>,
    enemy_spawn_timer: &EnemySpawnTimer,
    draws: EnemyDraws,
)
    requires
        *old(next_id) < u64::MAX,
    ensures
        final(enemies)@ == if enemy_spawn_timer.timer.finished && arena.is_some() {
            old(enemies)@.push(Enemy::spawned_spec(*old(next_id), *arena.unwrap(), draws))
        } else {
            old(enemies)@
        },
        *final(next_id) == if enemy_spawn_timer.timer.finished && arena.is_some() {
            *old(next_id) + 1
        } else {
            *old(next_id) as int
        },
        handles_ordered(enemy_ids(old(enemies)@), *old(next_id) as int) ==> handles_ordered(
            enemy_ids(final(enemies)@),
            *final(next_id) as int,
        ),
{
    if enemy_spawn_timer.timer.is_finished() {
        if let Some(a) = arena {
            place_enemy(enemies, next_id, a, draws);
        }
    }
}

} // verus!
