//! What a tick hands to the presentation: the entities it created and
//! destroyed, and the notifications it raised.

use vstd::prelude::*;
use crate::components::{Enemy, EntityKind, Player, Star};
use crate::messages::{Despawned, GameOver, Spawned};
use crate::systems::enemy::Bounces;

verus! {

/// The outcome of one tick.
#[derive(Debug)]
pub struct TickReport {
    /// The entities created, in the order of their handles.
    pub spawned: Vec<Spawned>,
    /// The entities destroyed.
    pub despawned: Vec<Despawned>,
    /// The number of stars collected: one "collected" notification each.
    pub collected: usize,
    /// The bounces of enemies off the walls: one "bounced" notification each.
    pub bounces: Bounces,
    /// The game-over signal, raised with the "eliminated" notification when
    /// the player was eliminated.
    pub game_over: Option<GameOver>,
    /// Whether the intents asked for the application to quit.
    pub quit_requested: bool,
}

/// The mathematical content of a `TickReport`.
pub struct TickReportView {
    pub spawned: Seq<Spawned>,
    pub despawned: Seq<Despawned>,
    pub collected: nat,
    pub bounces: Bounces,
    pub game_over: Option<GameOver>,
    pub quit_requested: bool,
}

/// The record of a player's creation.
pub open spec fn player_spawned(player: Player) -> Spawned {
    Spawned { id: player.id, kind: EntityKind::Player, position: player.position }
}

/// The record of an enemy's creation.
pub open spec fn enemy_spawned(enemy: Enemy) -> Spawned {
    Spawned { id: enemy.id, kind: EntityKind::Enemy, position: enemy.position }
}

/// The record of a star's creation.
pub open spec fn star_spawned(star: Star) -> Spawned {
    Spawned { id: star.id, kind: EntityKind::Star, position: star.position }
}

/// The record of a player's destruction.
pub open spec fn player_despawned(player: Player) -> Despawned {
    Despawned { id: player.id, kind: EntityKind::Player }
}

/// The record of an enemy's destruction.
pub open spec fn enemy_despawned(enemy: Enemy) -> Despawned {
    Despawned { id: enemy.id, kind: EntityKind::Enemy }
}

/// The record of a star's destruction.
pub open spec fn star_despawned(star: Star) -> Despawned {
    Despawned { id: star.id, kind: EntityKind::Star }
}

/// The records of the creation of `enemies`, in order.
pub open spec fn enemies_spawned(enemies: Seq<Enemy>) -> Seq<Spawned> {
    enemies.map_values(|e: Enemy| enemy_spawned(e))
}

/// The records of the creation of `stars`, in order.
pub open spec fn stars_spawned(stars: Seq<Star>) -> Seq<Spawned> {
    stars.map_values(|s: Star| star_spawned(s))
}

/// The records of the destruction of `enemies`, in order.
pub open spec fn enemies_despawned(enemies: Seq<Enemy>) -> Seq<Despawned> {
    enemies.map_values(|e: Enemy| enemy_despawned(e))
}

/// The records of the destruction of `stars`, in order.
pub open spec fn stars_despawned(stars: Seq<Star>) -> Seq<Despawned> {
    stars.map_values(|s: Star| star_despawned(s))
}

/// The record of the destruction of the player, if there is one.
pub open spec fn player_gone(player: Option<Player>) -> Seq<Despawned> {
    match player {
        Some(p) => seq![player_despawned(p)],
        None => Seq::empty(),
    }
}

impl View for TickReport {
    type V = TickReportView;

    open spec fn view(&self) -> TickReportView {
        TickReportView {
            spawned: self.spawned@,
            despawned: self.despawned@,
            collected: self.collected as nat,
            bounces: self.bounces,
            game_over: self.game_over,
            quit_requested: self.quit_requested,
        }
    }
}

impl TickReportView {
    /// The report of a tick in which nothing happened.
    pub open spec fn empty() -> TickReportView {
        TickReportView {
            spawned: Seq::empty(),
            despawned: Seq::empty(),
            collected: 0,
            bounces: Bounces { x: 0, y: 0 },
            game_over: None,
            quit_requested: false,
        }
    }
}

impl TickReport {
    /// The report of a tick in which nothing happened.
    pub fn new() -> (r: TickReport)
        ensures
            r@ == TickReportView::empty(),
    {
        TickReport {
            spawned: Vec::new(),
            despawned: Vec::new(),
            collected: 0,
            bounces: Bounces { x: 0, y: 0 },
            game_over: None,
            quit_requested: false,
        }
    }
}

/// Records the creation of the enemies from index `from` on.
pub fn record_enemies_spawned(enemies: &Vec<Enemy>, from: usize, out: &mut Vec<Spawned>)
    requires
        from <= enemies@.len(),
    ensures
        final(out)@ == old(out)@ + enemies_spawned(enemies@.subrange(from as int, enemies@.len() as int)),
{
    let n: usize = enemies.len();
    let mut i: usize = from;
    assert(out@ =~= old(out)@ + enemies_spawned(enemies@.subrange(from as int, from as int)));
    while i < n
        invariant
            from <= i <= n,
            n == enemies@.len(),
            out@ == old(out)@ + enemies_spawned(enemies@.subrange(from as int, i as int)),
        decreases n - i,
    {
        let enemy: Enemy = enemies[i];
        out.push(Spawned { id: enemy.id, kind: EntityKind::Enemy, position: enemy.position });
        i = i + 1;
        assert(out@ =~= old(out)@ + enemies_spawned(enemies@.subrange(from as int, i as int)));
    }
}

/// Records the creation of the stars from index `from` on.
pub fn record_stars_spawned(stars: &Vec<Star>, from: usize, out: &mut Vec<Spawned>)
    requires
        from <= stars@.len(),
    ensures
        final(out)@ == old(out)@ + stars_spawned(stars@.subrange(from as int, stars@.len() as int)),
{
    let n: usize = stars.len();
    let mut i: usize = from;
    assert(out@ =~= old(out)@ + stars_spawned(stars@.subrange(from as int, from as int)));
    while i < n
        invariant
            from <= i <= n,
            n == stars@.len(),
            out@ == old(out)@ + stars_spawned(stars@.subrange(from as int, i as int)),
        decreases n - i,
    {
        let star: Star = stars[i];
        out.push(Spawned { id: star.id, kind: EntityKind::Star, position: star.position });
        i = i + 1;
        assert(out@ =~= old(out)@ + stars_spawned(stars@.subrange(from as int, i as int)));
    }
}

/// Records the destruction of all of `enemies`.
pub fn record_enemies_despawned(enemies: &Vec<Enemy>, out: &mut Vec<Despawned>)
    ensures
        final(out)@ == old(out)@ + enemies_despawned(enemies@),
{
    let n: usize = enemies.len();
    let mut i: usize = 0;
    assert(out@ =~= old(out)@ + enemies_despawned(enemies@.take(0)));
    while i < n
        invariant
            i <= n,
            n == enemies@.len(),
            out@ == old(out)@ + enemies_despawned(enemies@.take(i as int)),
        decreases n - i,
    {
        out.push(Despawned { id: enemies[i].id, kind: EntityKind::Enemy });
        i = i + 1;
        assert(out@ =~= old(out)@ + enemies_despawned(enemies@.take(i as int)));
    }
    assert(enemies@.take(n as int) =~= enemies@);
}

/// Records the destruction of all of `stars`.
pub fn record_stars_despawned(stars: &Vec<Star>, out: &mut Vec<Despawned>)
    ensures
        final(out)@ == old(out)@ + stars_despawned(stars@),
{
    let n: usize = stars.len();
    let mut i: usize = 0;
    assert(out@ =~= old(out)@ + stars_despawned(stars@.take(0)));
    while i < n
        invariant
            i <= n,
            n == stars@.len(),
            out@ == old(out)@ + stars_despawned(stars@.take(i as int)),
        decreases n - i,
    {
        out.push(Despawned { id: stars[i].id, kind: EntityKind::Star });
        i = i + 1;
        assert(out@ =~= old(out)@ + stars_despawned(stars@.take(i as int)));
    }
    assert(stars@.take(n as int) =~= stars@);
}

/// Records the destruction of the player, if there is one.
pub fn record_player_despawned(player: &Option<Player>, out: &mut Vec<Despawned>)
    ensures
        final(out)@ == old(out)@ + player_gone(*player),
{
    if let Some(p) = player {
        out.push(Despawned { id: p.id, kind: EntityKind::Player });
        assert(out@ =~= old(out)@ + player_gone(*player));
    } else {
        assert(out@ =~= old(out)@ + player_gone(*player));
    }
}

} // verus!
