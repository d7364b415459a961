//! The three kinds of entity and the constants of their rules.

use vstd::prelude::*;
use crate::fixed::UNIT;
use crate::geometry::{Arena, Direction, Position};

verus! {

/// Speed of the player, in units per second.
pub const PLAYER_SPEED: u32 = 500;

/// Edge length of the player's body.
pub const PLAYER_SIZE: i64 = 64 * UNIT;

/// Half the edge length of the player's body.
pub const PLAYER_RADIUS: i64 = 32 * UNIT;

/// Number of enemies created when a session starts.
pub const NUMBER_OF_ENEMIES: usize = 2;

/// Speed of every enemy, in units per second.
pub const ENEMY_SPEED: u32 = 200;

/// Edge length of an enemy's body.
pub const ENEMY_SIZE: i64 = 64 * UNIT;

/// Half the edge length of an enemy's body.
pub const ENEMY_RADIUS: i64 = 32 * UNIT;

/// Period of the enemy spawn timer, in nanoseconds.
pub const ENEMY_SPAWN_TIME: u64 = 5_000_000_000;

/// Number of stars created when a session starts.
pub const NUMBER_OF_STARS: usize = 3;

/// Edge length of a star's body.
pub const STAR_SIZE: i64 = 30 * UNIT;

/// Half the edge length of a star's body.
pub const STAR_RADIUS: i64 = 15 * UNIT;

/// Period of the star spawn timer, in nanoseconds.
pub const STAR_SPAWN_TIME: u64 = 3_000_000_000;

/// The kind of an entity, which together with its handle identifies it.
#[derive(Clone, Copy, Debug, PartialEq, Eq, Structural, Hash)]
pub enum EntityKind {
    Player,
    Enemy,
    Star,
}

/// The entity steered by the movement intents.
#[derive(Clone, Copy, Debug)]
pub struct Player {
    pub id: u64,
    pub position: Position,
}

/// An adversary: it roams along its direction and eliminates the player on
/// contact.
#[derive(Clone, Copy, Debug)]
pub struct Enemy {
    pub id: u64,
    pub position: Position,
    pub direction: Direction,
}

/// A collectible: it rests where it was created until the player touches it.
#[derive(Clone, Copy, Debug)]
pub struct Star {
    pub id: u64,
    pub position: Position,
}

/// The four draws that place and orient a new enemy.
#[derive(Clone, Copy, Debug)]
pub struct EnemyDraws {
    pub x: u32,
    pub y: u32,
    pub direction_x: u32,
    pub direction_y: u32,
}

/// The two draws that place a new star.
#[derive(Clone, Copy, Debug)]
pub struct StarDraws {
    pub x: u32,
    pub y: u32,
}

impl Player {
    /// The player as created at the centre of the arena.
    pub open spec fn spawned_spec(id: u64, arena: Arena) -> Player {
        Player { id, position: arena.center_spec() }
    }

    /// This player after moving along `heading`, if there is one.
    pub open spec fn moved_spec(self, heading: Option<Direction>, dt: int) -> Player {
        match heading {
            Some(direction) => Player {
                id: self.id,
                position: self.position.advanced_spec(direction, PLAYER_SPEED as int, dt),
            },
            None => self,
        }
    }

    /// This player confined to the arena.
    pub open spec fn confined_spec(self, arena: Arena) -> Player {
        Player { id: self.id, position: self.position.confined_spec(PLAYER_RADIUS as int, arena) }
    }

    /// Whether the player touches a star.
    pub open spec fn touches_star(self, star: Star) -> bool {
        crate::geometry::within_spec(
            self.position,
            star.position,
            PLAYER_RADIUS as int + STAR_RADIUS as int,
        )
    }

    /// Whether the player touches an enemy.
    pub open spec fn touches_enemy(self, enemy: Enemy) -> bool {
        crate::geometry::within_spec(
            self.position,
            enemy.position,
            PLAYER_RADIUS as int + ENEMY_RADIUS as int,
        )
    }

    /// Creates the player at the centre of the arena.
    pub fn spawn(id: u64, arena: &Arena) -> (r: Player)
        ensures
            r == Player::spawned_spec(id, *arena),
    {
        Player { id, position: arena.center() }
    }

    /// Whether the player's body overlaps the star's: the distance of the
    /// centres is less than the sum of the radii.
    pub fn hits_star(&self, star: &Star) -> (r: bool)
        ensures
            r == self.touches_star(*star),
    {
        self.position.within(star.position, PLAYER_RADIUS + STAR_RADIUS)
    }

    /// Whether the player's body overlaps the enemy's: the distance of the
    /// centres is less than the sum of the radii.
    pub fn hits_enemy(&self, enemy: &Enemy) -> (r: bool)
        ensures
            r == self.touches_enemy(*enemy),
    {
        self.position.within(enemy.position, PLAYER_RADIUS + ENEMY_RADIUS)
    }
}

impl Enemy {
    /// The enemy that the draws select: anywhere in the full arena, heading
    /// along the drawn direction.
    pub open spec fn spawned_spec(id: u64, arena: Arena, draws: EnemyDraws) -> Enemy {
        Enemy {
            id,
            position: arena.point_at_spec(draws.x as int, draws.y as int),
            direction: Direction::from_draws_spec(
                draws.direction_x as int,
                draws.direction_y as int,
            ),
        }
    }

    /// This enemy after the bounce check: its direction is mirrored on each
    /// axis on which its centre touches or passes a confinement bound.
    pub open spec fn bounced_spec(self, arena: Arena) -> Enemy {
        Enemy {
            id: self.id,
            position: self.position,
            direction: self.direction.bounced_spec(self.position, ENEMY_RADIUS as int, arena),
        }
    }

    /// Whether the bounce check mirrors this enemy at a vertical wall.
    pub open spec fn bounces_x(self, arena: Arena) -> bool {
        crate::fixed::at_bound_spec(
            self.position.x as int,
            ENEMY_RADIUS as int,
            arena.width_spec(),
        )
    }

    /// Whether the bounce check mirrors this enemy at a horizontal wall.
    pub open spec fn bounces_y(self, arena: Arena) -> bool {
        crate::fixed::at_bound_spec(
            self.position.y as int,
            ENEMY_RADIUS as int,
            arena.height_spec(),
        )
    }

    /// This enemy after moving along its direction.
    pub open spec fn moved_spec(self, dt: int) -> Enemy {
        Enemy {
            id: self.id,
            position: self.position.advanced_spec(self.direction, ENEMY_SPEED as int, dt),
            direction: self.direction,
        }
    }

    /// This enemy confined to the arena.
    pub open spec fn confined_spec(self, arena: Arena) -> Enemy {
        Enemy {
            id: self.id,
            position: self.position.confined_spec(ENEMY_RADIUS as int, arena),
            direction: self.direction,
        }
    }

    /// Creates the enemy that the draws select.
    pub fn spawn(id: u64, arena: &Arena, draws: EnemyDraws) -> (r: Enemy)
        ensures
            r == Enemy::spawned_spec(id, *arena, draws),
            r.direction.is_unit(),
    {
        Enemy {
            id,
            position: arena.point_at(draws.x, draws.y),
            direction: Direction::from_draws(draws.direction_x, draws.direction_y),
        }
    }
}

impl Star {
    /// The star that the draws select: the drawn point of the arena, moved
    /// inside the confinement bounds so that the whole body is in the arena.
    pub open spec fn spawned_spec(id: u64, arena: Arena, draws: StarDraws) -> Star {
        Star {
            id,
            position: arena.point_at_spec(draws.x as int, draws.y as int).confined_spec(
                STAR_RADIUS as int,
                arena,
            ),
        }
    }

    /// Creates the star that the draws select.
    pub fn spawn(id: u64, arena: &Arena, draws: StarDraws) -> (r: Star)
        ensures
            r == Star::spawned_spec(id, *arena, draws),
            arena.fits(STAR_RADIUS as int) ==> r.position.inside(STAR_RADIUS as int, *arena),
    {
        Star { id, position: arena.point_at(draws.x, draws.y).confined(STAR_RADIUS, arena) }
    }
}

} // verus!
