//! The whole simulation: its state, its invariant and the rule of a tick.

use vstd::prelude::*;
use crate::components::{
    Enemy, Player, Star, ENEMY_RADIUS, NUMBER_OF_ENEMIES, NUMBER_OF_STARS, PLAYER_RADIUS,
};
use crate::geometry::Arena;
use crate::handles::{
    enemy_handles, enemy_ids, handles_ordered, in_order, lemma_limit_grows, star_handles, star_ids,
};
use crate::main_menu::transition_to_game;
use crate::messages::{Despawned, GameOver, Intents, Spawned};
use crate::random::{draw_tick, TickDraws};
use crate::report::{
    enemies_despawned, enemies_spawned, player_gone, player_spawned, record_enemies_despawned,
    record_enemies_spawned, record_player_despawned, record_stars_despawned,
    record_stars_spawned, stars_despawned, stars_spawned, TickReport, TickReportView,
};
use crate::resources::{EnemySpawnTimer, HighScores, Score, StarSpawnTimer};
use crate::states::{AppState, NextState, SimulationState};
use crate::systems::enemy::{
    bounced_in, bouncing_x, bouncing_y, caught, confine_enemy, confined_in, despawn_enemys,
    enemy_hit_player, enemy_movement, moved_for, new_enemies, spawn_enemies,
    spawn_enemys_over_time, update_enemy_direction, Bounces,
};
use crate::systems::game_state::{
    cancel_target, confirm_target, exit_game, handle_game_over, score_entries, score_entry,
    toggle_game_simulation, transition_to_main_menu, update_high_scores,
};
use crate::systems::player::{
    confine_player, despawn_player, heading_of, missed_by, player_hit_star, player_movement,
    spawn_player, touched_by,
};
use crate::systems::star::{despawn_stars, new_stars, spawn_stars, spawn_stars_over_time};
use crate::systems::timers::{tick_enemy_spawn_timer, tick_star_spawn_timer};

verus! {

/// The state of the simulation.
#[derive(Debug)]
pub struct World {
    /// The application phase.
    pub app_state: AppState,
    /// The run phase, which matters only in the `Game` phase.
    pub simulation_state: SimulationState,
    /// The player, while there is one.
    pub player: Option<Player>,
    /// The live enemies, oldest first.
    pub enemies: Vec<Enemy>,
    /// The live stars, oldest first.
    pub stars: Vec<Star>,
    /// The handle that the next entity gets.
    pub next_id: u64,
    /// The score of the active session; there is none outside a session.
    pub score: Option<Score>,
    /// The record of the completed sessions.
    pub high_scores: HighScores,
    /// The cadence of new stars.
    pub star_spawn_timer: StarSpawnTimer,
    /// The cadence of new enemies.
    pub enemy_spawn_timer: EnemySpawnTimer,
}

/// The mathematical content of a `World`.
pub struct WorldView {
    pub app_state: AppState,
    pub simulation_state: SimulationState,
    pub player: Option<Player>,
    pub enemies: Seq<Enemy>,
    pub stars: Seq<Star>,
    pub next_id: u64,
    pub score: Option<Score>,
    pub high_scores: Seq<(Seq<char>, u32)>,
    pub star_spawn_timer: StarSpawnTimer,
    pub enemy_spawn_timer: EnemySpawnTimer,
}

/// The arena that a tick was given, as a value.
pub open spec fn arena_of(arena: Option<&Arena>) -> Option<Arena> {
    match arena {
        Some(a) => Some(*a),
        None => None,
    }
}

/// The game-over signals of a tick as a sequence: one or none.
pub open spec fn signal_seq(signal: Option<GameOver>) -> Seq<GameOver> {
    match signal {
        Some(s) => seq![s],
        None => Seq::empty(),
    }
}

impl View for World {
    type V = WorldView;

    open spec fn view(&self) -> WorldView {
        WorldView {
            app_state: self.app_state,
            simulation_state: self.simulation_state,
            player: self.player,
            enemies: self.enemies@,
            stars: self.stars@,
            next_id: self.next_id,
            score: self.score,
            high_scores: self.high_scores@,
            star_spawn_timer: self.star_spawn_timer,
            enemy_spawn_timer: self.enemy_spawn_timer,
        }
    }
}

impl WorldView {
    /// The state in which the application starts: the main menu, no
    /// session, an empty record.
    pub open spec fn initial() -> WorldView {
        WorldView {
            app_state: AppState::MainMenu,
            simulation_state: SimulationState::GamePaused,
            player: None,
            enemies: Seq::empty(),
            stars: Seq::empty(),
            next_id: 0,
            score: None,
            high_scores: Seq::empty(),
            star_spawn_timer: StarSpawnTimer {
                timer: crate::resources::RepeatingTimer::new_spec(
                    crate::components::STAR_SPAWN_TIME,
                ),
            },
            enemy_spawn_timer: EnemySpawnTimer {
                timer: crate::resources::RepeatingTimer::new_spec(
                    crate::components::ENEMY_SPAWN_TIME,
                ),
            },
        }
    }

    /// The invariant of the simulation: there is a score exactly during a
    /// session, there are entities only during a session, and the handles
    /// of each kind are in ascending order below the next handle.
    pub open spec fn wf(self) -> bool {
        &&& self.app_state == AppState::Game <==> self.score.is_some()
        &&& self.app_state != AppState::Game ==> self.player.is_none() && self.enemies.len() == 0
            && self.stars.len() == 0
        &&& handles_ordered(enemy_ids(self.enemies), self.next_id as int)
        &&& handles_ordered(star_ids(self.stars), self.next_id as int)
        &&& self.player.is_some() ==> self.player.unwrap().id < self.next_id
    }

    /// Whether the counters are far enough from the limits of their types
    /// for one more tick: the handles that a tick can take, and the stars
    /// that it can collect.
    pub open spec fn has_headroom(self) -> bool {
        &&& self.next_id + 1 + NUMBER_OF_ENEMIES + NUMBER_OF_STARS <= u64::MAX
        &&& self.score.is_some() ==> self.score.unwrap().value + self.stars.len() + 1 <= u32::MAX
    }

    /// Whether the session is running: only then do timers, movement,
    /// collisions and periodic spawns take place.
    pub open spec fn is_running(self) -> bool {
        self.app_state == AppState::Game && self.simulation_state == SimulationState::GameRunning
    }

    /// This state with the spawn timers advanced by `dt` and with the star
    /// and the enemy added whose timer completed a period, each where its
    /// draws put it. Without an arena nothing is added.
    pub open spec fn spawned_over_time(self, arena: Option<Arena>, dt: int, draws: TickDraws) -> WorldView {
        let star_timer = self.star_spawn_timer.timer.ticked_spec(dt);
        let enemy_timer = self.enemy_spawn_timer.timer.ticked_spec(dt);
        let star_due = star_timer.finished && arena.is_some();
        let enemy_due = enemy_timer.finished && arena.is_some();
        let enemy_id: int = if star_due {
            self.next_id + 1
        } else {
            self.next_id as int
        };
        WorldView {
            stars: if star_due {
                self.stars.push(Star::spawned_spec(self.next_id, arena.unwrap(), draws.star))
            } else {
                self.stars
            },
            enemies: if enemy_due {
                self.enemies.push(
                    Enemy::spawned_spec(enemy_id as u64, arena.unwrap(), draws.enemy),
                )
            } else {
                self.enemies
            },
            next_id: if enemy_due {
                (enemy_id + 1) as u64
            } else {
                enemy_id as u64
            },
            star_spawn_timer: StarSpawnTimer { timer: star_timer },
            enemy_spawn_timer: EnemySpawnTimer { timer: enemy_timer },
            ..self
        }
    }

    /// The enemies after the bounce check, the movement and the confinement
    /// of a tick. Without an arena they only move.
    pub open spec fn enemies_moved(self, arena: Option<Arena>, dt: int) -> Seq<Enemy> {
        match arena {
            Some(a) => self.enemies.map_values(bounced_in(a)).map_values(moved_for(dt)).map_values(
                confined_in(a),
            ),
            None => self.enemies.map_values(moved_for(dt)),
        }
    }

    /// The bounces that the bounce check of a tick counts.
    pub open spec fn bounces(self, arena: Option<Arena>) -> Bounces {
        match arena {
            Some(a) => Bounces {
                x: self.enemies.filter(bouncing_x(a)).len() as usize,
                y: self.enemies.filter(bouncing_y(a)).len() as usize,
            },
            None => Bounces { x: 0, y: 0 },
        }
    }

    /// The player after the movement and the confinement of a tick, before
    /// the collisions.
    pub open spec fn player_moved(self, intents: Intents, arena: Option<Arena>, dt: int) -> Option<
        Player,
    > {
        match self.player {
            Some(p) => {
                let moved = p.moved_spec(heading_of(intents), dt);
                match arena {
                    Some(a) => Some(moved.confined_spec(a)),
                    None => Some(moved),
                }
            },
            None => None,
        }
    }

    /// The stars that the player collects in a tick.
    pub open spec fn stars_collected(self, intents: Intents, arena: Option<Arena>, dt: int) -> Seq<
        Star,
    > {
        match self.player_moved(intents, arena, dt) {
            Some(p) => self.stars.filter(touched_by(p)),
            None => Seq::empty(),
        }
    }

    /// The stars that are left after a tick.
    pub open spec fn stars_left(self, intents: Intents, arena: Option<Arena>, dt: int) -> Seq<Star> {
        match self.player_moved(intents, arena, dt) {
            Some(p) => self.stars.filter(missed_by(p)),
            None => self.stars,
        }
    }

    /// Whether the player is eliminated in a tick: after all have moved, it
    /// touches an enemy.
    pub open spec fn player_caught(self, intents: Intents, arena: Option<Arena>, dt: int) -> bool {
        match self.player_moved(intents, arena, dt) {
            Some(p) => caught(p, self.enemies_moved(arena, dt)),
            None => false,
        }
    }

    /// The score after the collisions of a tick: one more for each star
    /// collected.
    pub open spec fn score_after(self, intents: Intents, arena: Option<Arena>, dt: int) -> Option<
        Score,
    > {
        match self.score {
            Some(score) => Some(
                Score {
                    value: (score.value + self.stars_collected(intents, arena, dt).len()) as u32,
                },
            ),
            None => None,
        }
    }

    /// The game-over signal of a tick: raised if the player is eliminated,
    /// with the score after the collection of stars.
    pub open spec fn signal(self, intents: Intents, arena: Option<Arena>, dt: int) -> Option<
        GameOver,
    > {
        if self.player_caught(intents, arena, dt) {
            match self.score_after(intents, arena, dt) {
                Some(score) => Some(GameOver { score: score.value }),
                None => None,
            }
        } else {
            None
        }
    }

    /// This state after the bounce check, the movement, the confinement and
    /// the collisions of a tick.
    pub open spec fn simulated(self, intents: Intents, arena: Option<Arena>, dt: int) -> WorldView {
        WorldView {
            player: if self.player_caught(intents, arena, dt) {
                None
            } else {
                self.player_moved(intents, arena, dt)
            },
            enemies: self.enemies_moved(arena, dt),
            stars: self.stars_left(intents, arena, dt),
            score: self.score_after(intents, arena, dt),
            ..self
        }
    }

    /// The phase that a tick requests: the game-over phase if the player was
    /// eliminated; else what the cancel intent asks for; else what the
    /// confirm intent asks for.
    pub open spec fn requested_phase(self, intents: Intents, signal: Option<GameOver>) -> Option<
        AppState,
    > {
        if signal.is_some() {
            Some(AppState::GameOver)
        } else {
            match cancel_target(self.app_state, intents) {
                Some(target) => Some(target),
                None => confirm_target(self.app_state, intents),
            }
        }
    }

    /// The run phase after a tick in a session: the other one if the toggle
    /// intent is given.
    pub open spec fn requested_run(self, intents: Intents) -> SimulationState {
        if intents.toggle_run_pause {
            self.simulation_state.toggled_spec()
        } else {
            self.simulation_state
        }
    }

    /// This state after the session has ended and the phase `target` is
    /// entered: every entity and the score are gone.
    pub open spec fn session_left(self, target: AppState) -> WorldView {
        WorldView {
            app_state: target,
            player: None,
            enemies: Seq::empty(),
            stars: Seq::empty(),
            score: None,
            ..self
        }
    }

    /// The records of the entities that the end of the session destroys.
    pub open spec fn teardown(self) -> Seq<Despawned> {
        player_gone(self.player) + enemies_despawned(self.enemies) + stars_despawned(self.stars)
    }

    /// This state with a new session begun in `arena`: the session is
    /// paused, the score is zero, the player is at the centre, and the first
    /// enemies and stars are where their draws put them.
    pub open spec fn session_entered(self, arena: Arena, draws: TickDraws) -> WorldView {
        WorldView {
            app_state: AppState::Game,
            simulation_state: SimulationState::GamePaused,
            player: Some(Player::spawned_spec(self.next_id, arena)),
            enemies: self.enemies + new_enemies(self.next_id + 1, arena, draws.first_enemies@),
            stars: self.stars + new_stars(
                self.next_id + 1 + NUMBER_OF_ENEMIES,
                arena,
                draws.first_stars@,
            ),
            next_id: (self.next_id + 1 + NUMBER_OF_ENEMIES + NUMBER_OF_STARS) as u64,
            score: Some(Score { value: 0 }),
            ..self
        }
    }

    /// The end of a tick in a session, after the simulation: the signal is
    /// recorded, the run phase follows the toggle intent, and a requested
    /// phase ends the session.
    pub open spec fn concluded(self, intents: Intents, signal: Option<GameOver>) -> WorldView {
        let recorded = WorldView {
            simulation_state: self.requested_run(intents),
            high_scores: match signal {
                Some(s) => self.high_scores.push(score_entry(s)),
                None => self.high_scores,
            },
            ..self
        };
        match self.requested_phase(intents, signal) {
            Some(target) => recorded.session_left(target),
            None => recorded,
        }
    }

    /// The state after the periodic spawns of a tick in a session: in a
    /// running session the timers advance and add what is due; a paused
    /// session stays as it is.
    pub open spec fn spawned(self, arena: Option<Arena>, dt: int, draws: TickDraws) -> WorldView {
        if self.is_running() {
            self.spawned_over_time(arena, dt, draws)
        } else {
            self
        }
    }

    /// The state after the simulation of a tick in a session: a running
    /// session is simulated after its periodic spawns; a paused session
    /// stays as it is.
    pub open spec fn moved(self, intents: Intents, arena: Option<Arena>, dt: int, draws: TickDraws) -> WorldView {
        if self.is_running() {
            self.spawned(arena, dt, draws).simulated(intents, arena, dt)
        } else {
            self
        }
    }

    /// The game-over signal of a tick: raised in a running session if the
    /// player is eliminated.
    pub open spec fn step_signal(
        self,
        intents: Intents,
        arena: Option<Arena>,
        dt: int,
        draws: TickDraws,
    ) -> Option<GameOver> {
        if self.is_running() {
            self.spawned(arena, dt, draws).signal(intents, arena, dt)
        } else {
            None
        }
    }

    /// The state after a tick, as a function of what the tick is given and
    /// of the draws it can use.
    ///
    /// During a session: if the session is running, the spawn timers
    /// advance and add their entities, the enemies bounce, all move and
    /// are confined, and the collisions are resolved; then, running or
    /// paused, the tick is concluded. Outside a session: a requested
    /// session begins if the arena is known and is dropped if not; a
    /// requested main menu is entered; nothing else changes.
    pub open spec fn stepped(self, intents: Intents, arena: Option<Arena>, dt: int, draws: TickDraws) -> WorldView {
        if self.app_state == AppState::Game {
            self.moved(intents, arena, dt, draws).concluded(
                intents,
                self.step_signal(intents, arena, dt, draws),
            )
        } else {
            match (self.requested_phase(intents, None), arena) {
                (Some(AppState::Game), Some(a)) => self.session_entered(a, draws),
                (Some(AppState::Game), None) => self,
                (Some(target), _) => WorldView { app_state: target, ..self },
                (None, _) => self,
            }
        }
    }

    /// The report of a tick, as a function of what the tick is given and of
    /// the draws it can use.
    pub open spec fn step_report(
        self,
        intents: Intents,
        arena: Option<Arena>,
        dt: int,
        draws: TickDraws,
    ) -> TickReportView {
        let quiet = TickReportView { quit_requested: intents.request_quit, ..TickReportView::empty() };
        if self.app_state == AppState::Game {
            let spawned = self.spawned(arena, dt, draws);
            let moved = self.moved(intents, arena, dt, draws);
            let signal = self.step_signal(intents, arena, dt, draws);
            let collected = if self.is_running() {
                spawned.stars_collected(intents, arena, dt)
            } else {
                Seq::empty()
            };
            let eliminated = if signal.is_some() {
                player_gone(spawned.player_moved(intents, arena, dt))
            } else {
                Seq::empty()
            };
            let teardown = if self.requested_phase(intents, signal).is_some() {
                moved.teardown()
            } else {
                Seq::empty()
            };
            TickReportView {
                spawned: stars_spawned(
                    spawned.stars.subrange(self.stars.len() as int, spawned.stars.len() as int),
                ) + enemies_spawned(
                    spawned.enemies.subrange(
                        self.enemies.len() as int,
                        spawned.enemies.len() as int,
                    ),
                ),
                despawned: stars_despawned(collected) + eliminated + teardown,
                collected: collected.len(),
                bounces: if self.is_running() {
                    spawned.bounces(arena)
                } else {
                    Bounces { x: 0, y: 0 }
                },
                game_over: signal,
                ..quiet
            }
        } else {
            match (self.requested_phase(intents, None), arena) {
                (Some(AppState::Game), Some(a)) => {
                    let after = self.session_entered(a, draws);
                    TickReportView {
                        spawned: player_created(after.player) + enemies_spawned(after.enemies)
                            + stars_spawned(after.stars),
                        ..quiet
                    }
                },
                _ => quiet,
            }
        }
    }

    /// Whether `after` and `report` are the state and the report after a
    /// tick that used `draws`.
    pub open spec fn is_step(
        self,
        after: WorldView,
        report: TickReportView,
        intents: Intents,
        arena: Option<Arena>,
        dt: int,
        draws: TickDraws,
    ) -> bool {
        &&& after == self.stepped(intents, arena, dt, draws)
        &&& report == self.step_report(intents, arena, dt, draws)
    }

    /// The rule of a tick that draws for itself: it is a step for some
    /// draws.
    pub open spec fn ticked(
        self,
        after: WorldView,
        report: TickReportView,
        intents: Intents,
        arena: Option<Arena>,
        dt: int,
    ) -> bool {
        exists|draws: TickDraws| #[trigger] self.is_step(after, report, intents, arena, dt, draws)
    }

    /// Whether the player and every enemy lie between the confinement
    /// bounds of the arena.
    pub open spec fn confined(self, arena: Arena) -> bool {
        &&& self.player.is_some() ==> self.player.unwrap().position.inside(
            PLAYER_RADIUS as int,
            arena,
        )
        &&& forall|i: int|
            0 <= i < self.enemies.len() ==> (#[trigger] self.enemies[i]).position.inside(
                ENEMY_RADIUS as int,
                arena,
            )
    }
}

/// The record of the creation of the player, if there is one.
pub open spec fn player_created(player: Option<Player>) -> Seq<Spawned> {
    match player {
        Some(p) => seq![player_spawned(p)],
        None => Seq::empty(),
    }
}


impl World {
    /// The world in which the application starts.
    pub fn new() -> (r: World)
        ensures
            r@ == WorldView::initial(),
            r@.wf(),
            r@.has_headroom(),
    {
        let r = World {
            app_state: AppState::default(),
            simulation_state: SimulationState::default(),
            player: None,
            enemies: Vec::new(),
            stars: Vec::new(),
            next_id: 0,
            score: None,
            high_scores: HighScores::default(),
            star_spawn_timer: StarSpawnTimer::default(),
            enemy_spawn_timer: EnemySpawnTimer::default(),
        };
        assert(r@ =~= WorldView::initial());
        r
    }

    /// Whether the world satisfies its invariant and its counters have room
    /// for one more tick: the condition under which `tick` may be called.
    pub fn is_valid(&self) -> (r: bool)
        ensures
            r == (self@.wf() && self@.has_headroom()),
    {
        let in_session: bool = self.app_state == AppState::Game;
        if in_session != self.score.is_some() {
            return false;
        }
        if !in_session && (self.player.is_some() || self.enemies.len() > 0 || self.stars.len()
            > 0) {
            return false;
        }
        if !in_order(&enemy_handles(&self.enemies), self.next_id) {
            return false;
        }
        if !in_order(&star_handles(&self.stars), self.next_id) {
            return false;
        }
        if let Some(p) = self.player {
            if p.id >= self.next_id {
                return false;
            }
        }
        if self.next_id > u64::MAX - 1 - (NUMBER_OF_ENEMIES as u64) - (NUMBER_OF_STARS as u64) {
            return false;
        }
        if let Some(score) = self.score {
            if self.stars.len() >= u32::MAX as usize || score.value as usize > u32::MAX as usize - 1
                - self.stars.len() {
                return false;
            }
        }
        true
    }

    /// The score of the active session, if there is one.
    pub fn current_score(&self) -> (r: Option<u32>)
        ensures
            r == match self.score {
                Some(score) => Some(score.value),
                None => None,
            },
    {
        match self.score {
            Some(score) => Some(score.value),
            None => None,
        }
    }

    /// The number of live enemies.
    pub fn enemy_count(&self) -> (r: usize)
        ensures
            r == self.enemies@.len(),
    {
        self.enemies.len()
    }

    /// Advances the spawn timers and adds the entities that are due.
    fn spawn_over_time(&mut self, arena: Option<&Arena>, dt_nanos: u64, draws: &TickDraws)
        requires
            old(self)@.wf(),
            old(self).app_state == AppState::Game,
            old(self).next_id + 2 <= u64::MAX,
        ensures
            final(self)@ == old(self)@.spawned_over_time(arena_of(arena), dt_nanos as int, *draws),
            final(self)@.wf(),
    {
        tick_star_spawn_timer(&mut self.star_spawn_timer, dt_nanos);
        tick_enemy_spawn_timer(&mut self.enemy_spawn_timer, dt_nanos);
        spawn_stars_over_time(
            &mut self.stars,
            &mut self.next_id,
            arena,
            &self.star_spawn_timer,
            draws.star,
        );
        let ghost middle_id = self.next_id;
        proof {
            lemma_limit_grows(
                enemy_ids(self.enemies@),
                old(self).next_id as int,
                middle_id as int,
            );
        }
        spawn_enemys_over_time(
            &mut self.enemies,
            &mut self.next_id,
            arena,
            &self.enemy_spawn_timer,
            draws.enemy,
        );
        proof {
            lemma_limit_grows(star_ids(self.stars@), middle_id as int, self.next_id as int);
            assert(self@ =~= old(self)@.spawned_over_time(arena_of(arena), dt_nanos as int, *draws));
        }
    }

    /// Resolves one tick of a running session: bounce check, movement,
    /// confinement and collisions. Returns the game-over signal, if the
    /// player was eliminated.
    fn simulate(
        &mut self,
        intents: &Intents,
        arena: Option<&Arena>,
        dt_nanos: u64,
        report: &mut TickReport,
    ) -> (signals: Vec<GameOver>)
        requires
            old(self)@.wf(),
            old(self).score.is_some(),
            old(self).score.unwrap().value + old(self).stars.len() <= u32::MAX,
        ensures
            final(self)@ == old(self)@.simulated(*intents, arena_of(arena), dt_nanos as int),
            final(self)@.wf(),
            signals@ == signal_seq(old(self)@.signal(*intents, arena_of(arena), dt_nanos as int)),
            final(report).spawned@ == old(report).spawned@,
            final(report).quit_requested == old(report).quit_requested,
            final(report).collected == old(self)@.stars_collected(
                *intents,
                arena_of(arena),
                dt_nanos as int,
            ).len(),
            final(report).bounces == old(self)@.bounces(arena_of(arena)),
            final(report).game_over == old(self)@.signal(*intents, arena_of(arena), dt_nanos as int),
            final(report).despawned@ == old(report).despawned@ + stars_despawned(
                old(self)@.stars_collected(*intents, arena_of(arena), dt_nanos as int),
            ) + (if old(self)@.signal(*intents, arena_of(arena), dt_nanos as int).is_some() {
                player_gone(old(self)@.player_moved(*intents, arena_of(arena), dt_nanos as int))
            } else {
                Seq::empty()
            }),
    {
        let ghost before = self@;
        let ghost a = arena_of(arena);
        let ghost dt = dt_nanos as int;
        report.bounces = update_enemy_direction(&mut self.enemies, arena);
        player_movement(&mut self.player, intents, dt_nanos);
        enemy_movement(&mut self.enemies, dt_nanos);
        confine_player(&mut self.player, arena);
        confine_enemy(&mut self.enemies, arena);
        proof {
            assert(self.enemies@ =~= before.enemies_moved(a, dt));
            assert(self.player == before.player_moved(*intents, a, dt));
            assert(enemy_ids(self.enemies@) =~= enemy_ids(before.enemies));
        }
        let mut score: Score = match self.score {
            Some(s) => s,
            None => Score { value: 0 },
        };
        proof {
            if let Some(p) = self.player {
                self.stars@.lemma_filter_len(touched_by(p));
            }
        }
        let collected = player_hit_star(&self.player, &mut self.stars, &mut score);
        self.score = Some(score);
        record_stars_despawned(&collected, &mut report.despawned);
        report.collected = collected.len();
        let mut signals: Vec<GameOver> = Vec::new();
        let eliminated = enemy_hit_player(&mut self.player, &self.enemies, &score, &mut signals);
        record_player_despawned(&eliminated, &mut report.despawned);
        if eliminated.is_some() {
            report.game_over = Some(GameOver { score: score.value });
        } else {
            report.game_over = None;
        }
        proof {
            assert(report.despawned@ =~= old(report).despawned@ + stars_despawned(collected@)
                + player_gone(eliminated));
            assert(self@ =~= before.simulated(*intents, a, dt));
        }
        signals
    }

    /// Ends the session and enters `target`: every entity and the score are
    /// removed.
    fn leave_session(&mut self, target: AppState, report: &mut TickReport)
        requires
            target != AppState::Game,
            old(self)@.wf(),
        ensures
            final(self)@ == old(self)@.session_left(target),
            final(self)@.wf(),
            final(report).despawned@ == old(report).despawned@ + old(self)@.teardown(),
            final(report).spawned@ == old(report).spawned@,
            final(report).collected == old(report).collected,
            final(report).bounces == old(report).bounces,
            final(report).game_over == old(report).game_over,
            final(report).quit_requested == old(report).quit_requested,
    {
        let player = despawn_player(&mut self.player);
        let enemies = despawn_enemys(&mut self.enemies);
        let stars = despawn_stars(&mut self.stars);
        record_player_despawned(&player, &mut report.despawned);
        record_enemies_despawned(&enemies, &mut report.despawned);
        record_stars_despawned(&stars, &mut report.despawned);
        self.score = None;
        self.app_state = target;
        proof {
            assert(report.despawned@ =~= old(report).despawned@ + old(self)@.teardown());
            assert(self.enemies@ =~= Seq::<Enemy>::empty());
            assert(self.stars@ =~= Seq::<Star>::empty());
            assert(self@.high_scores == old(self)@.high_scores);
            assert(self@ =~= old(self)@.session_left(target));
        }
    }

    /// Begins a session in `arena`: paused, with a score of zero, the player
    /// and the first enemies and stars.
    fn enter_session(&mut self, arena: &Arena, draws: &TickDraws, report: &mut TickReport)
        requires
            old(self)@.wf(),
            old(self)@.has_headroom(),
            old(self).app_state != AppState::Game,
        ensures
            final(self)@ == old(self)@.session_entered(*arena, *draws),
            final(self)@.wf(),
            final(report).spawned@ == old(report).spawned@ + player_created(final(self).player)
                + enemies_spawned(final(self).enemies@) + stars_spawned(final(self).stars@),
            final(report).despawned@ == old(report).despawned@,
            final(report).collected == old(report).collected,
            final(report).bounces == old(report).bounces,
            final(report).game_over == old(report).game_over,
            final(report).quit_requested == old(report).quit_requested,
    {
        self.app_state = AppState::Game;
        self.simulation_state = SimulationState::default();
        self.score = Some(Score::default());
        spawn_player(&mut self.player, &mut self.next_id, arena);
        let ghost enemy_id = self.next_id;
        proof {
            lemma_limit_grows(enemy_ids(self.enemies@), old(self).next_id as int, enemy_id as int);
        }
        spawn_enemies(&mut self.enemies, &mut self.next_id, arena, &draws.first_enemies);
        let ghost star_id = self.next_id;
        proof {
            lemma_limit_grows(star_ids(self.stars@), old(self).next_id as int, star_id as int);
        }
        spawn_stars(&mut self.stars, &mut self.next_id, Some(arena), &draws.first_stars);
        if let Some(p) = self.player {
            report.spawned.push(
                Spawned { id: p.id, kind: crate::components::EntityKind::Player, position: p.position },
            );
        }
        record_enemies_spawned(&self.enemies, 0, &mut report.spawned);
        record_stars_spawned(&self.stars, 0, &mut report.spawned);
        proof {
            lemma_limit_grows(enemy_ids(self.enemies@), star_id as int, self.next_id as int);
            assert(self.enemies@.subrange(0, self.enemies@.len() as int) =~= self.enemies@);
            assert(self.stars@.subrange(0, self.stars@.len() as int) =~= self.stars@);
            assert(report.spawned@ =~= old(report).spawned@ + player_created(self.player)
                + enemies_spawned(self.enemies@) + stars_spawned(self.stars@));
            assert(self@ =~= old(self)@.session_entered(*arena, *draws));
        }
    }

    /// Advances the simulation by one tick of `dt_nanos` nanoseconds, under
    /// the intents of the tick and in the arena as it is now, if it is
    /// known. What the tick creates is placed by `draws`.
    pub fn step(
        &mut self,
        intents: &Intents,
        arena: Option<&Arena>,
        dt_nanos: u64,
        draws: &TickDraws,
    ) -> (report: TickReport)
        requires
            old(self)@.wf(),
            old(self)@.has_headroom(),
        ensures
            final(self)@ == old(self)@.stepped(*intents, arena_of(arena), dt_nanos as int, *draws),
            report@ == old(self)@.step_report(*intents, arena_of(arena), dt_nanos as int, *draws),
            final(self)@.wf(),
    {
        let ghost before = self@;
        let ghost a = arena_of(arena);
        let ghost dt = dt_nanos as int;
        let mut report = TickReport::new();
        report.quit_requested = exit_game(intents);
        let mut change_app: NextState<AppState> = NextState::new();
        transition_to_game(self.app_state, &mut change_app, intents);
        transition_to_main_menu(self.app_state, &mut change_app, intents);
        if self.app_state == AppState::Game {
            let mut change_run: NextState<SimulationState> = NextState::new();
            toggle_game_simulation(self.simulation_state, &mut change_run, intents);
            let mut signals: Vec<GameOver> = Vec::new();
            if self.simulation_state == SimulationState::GameRunning {
                let stars_before: usize = self.stars.len();
                let enemies_before: usize = self.enemies.len();
                self.spawn_over_time(arena, dt_nanos, draws);
                record_stars_spawned(&self.stars, stars_before, &mut report.spawned);
                record_enemies_spawned(&self.enemies, enemies_before, &mut report.spawned);
                signals = self.simulate(intents, arena, dt_nanos, &mut report);
            }
            let ghost moved = self@;
            let ghost signal = report.game_over;
            handle_game_over(&signals, &mut change_app);
            update_high_scores(&signals, &mut self.high_scores);
            if let Some(run) = change_run.take() {
                self.simulation_state = run;
            }
            let ghost recorded = self@;
            proof {
                assert(score_entries(signals@) =~= match signal {
                    Some(s) => seq![score_entry(s)],
                    None => Seq::empty(),
                });
                assert(recorded.high_scores =~= match signal {
                    Some(s) => moved.high_scores.push(score_entry(s)),
                    None => moved.high_scores,
                });
                assert(recorded =~= WorldView {
                    simulation_state: moved.requested_run(*intents),
                    high_scores: match signal {
                        Some(s) => moved.high_scores.push(score_entry(s)),
                        None => moved.high_scores,
                    },
                    ..moved
                });
            }
            if let Some(target) = change_app.take() {
                self.leave_session(target, &mut report);
            }
            proof {
                assert(self@ =~= moved.concluded(*intents, signal));
                let expected = before.step_report(*intents, a, dt, *draws);
                assert(report@.spawned =~= expected.spawned);
                assert(report@.despawned =~= expected.despawned);
                assert(report@ =~= expected);
            }
        } else {
            match change_app.take() {
                Some(AppState::Game) => {
                    if let Some(arena) = arena {
                        self.enter_session(arena, draws, &mut report);
                    }
                },
                Some(target) => {
                    self.app_state = target;
                },
                None => {},
            }
            proof {
                assert(self@ =~= before.stepped(*intents, a, dt, *draws));
                assert(report@ =~= before.step_report(*intents, a, dt, *draws));
            }
        }
        report
    }

    /// Advances the simulation by one tick of `dt_nanos` nanoseconds, under
    /// the intents of the tick and in the arena as it is now, if it is
    /// known. What the tick creates is placed at random.
    pub fn tick(&mut self, intents: &Intents, arena: Option<&Arena>, dt_nanos: u64) -> (report:
        TickReport)
        requires
            old(self)@.wf(),
            old(self)@.has_headroom(),
        ensures
            old(self)@.ticked(
                final(self)@,
                report@,
                *intents,
                arena_of(arena),
                dt_nanos as int,
            ),
            final(self)@.wf(),
    {
        let draws = draw_tick();
        let report = self.step(intents, arena, dt_nanos, &draws);
        proof {
            assert(old(self)@.is_step(
                self@,
                report@,
                *intents,
                arena_of(arena),
                dt_nanos as int,
                draws,
            ));
        }
        report
    }
}

} // verus!
