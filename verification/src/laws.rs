//! What holds of every tick and of every run of ticks.
//!
//! The laws are stated of `WorldView::stepped` and `WorldView::step_report`,
//! for every state, every input and every choice of draws; so they hold of
//! a step with given draws and of a tick that draws for itself.

use vstd::prelude::*;
use crate::components::{
    Enemy, EnemyDraws, Star, StarDraws, ENEMY_RADIUS, ENEMY_SIZE, PLAYER_RADIUS, PLAYER_SIZE,
    STAR_RADIUS, STAR_SIZE,
};
use crate::geometry::{
    lemma_confined_inside, lemma_diagonals_are_drawn, lemma_drawn_direction_is_unit, Arena,
};
use crate::handles::lemma_kept_stars_are_old;
use crate::messages::Intents;
use crate::random::TickDraws;
use crate::resources::Score;
use crate::states::{AppState, SimulationState};
use crate::systems::enemy::{bounced_in, directions_unit, moved_for};
use crate::systems::game_state::score_entry;
use crate::systems::player::{heading_of, missed_by, touched_by};
use crate::world::WorldView;

verus! {

/// One tick of a run: the state before it and what it was given.
pub struct Step {
    pub before: WorldView,
    pub intents: Intents,
    pub arena: Option<Arena>,
    pub dt: int,
    pub draws: TickDraws,
}

impl Step {
    /// The state after the tick.
    pub open spec fn after(self) -> WorldView {
        self.before.stepped(self.intents, self.arena, self.dt, self.draws)
    }

    /// Whether the tick completed a session: the player was eliminated.
    pub open spec fn completes_session(self) -> bool {
        self.before.step_report(self.intents, self.arena, self.dt, self.draws).game_over.is_some()
    }
}

/// Whether every star lies between the confinement bounds of the arena.
pub open spec fn stars_inside(stars: Seq<Star>, arena: Arena) -> bool {
    forall|i: int|
        0 <= i < stars.len() ==> (#[trigger] stars[i]).position.inside(STAR_RADIUS as int, arena)
}

/// Whether `steps` is a run: each tick starts in the state in which the one
/// before it ended.
pub open spec fn is_run(steps: Seq<Step>) -> bool {
    forall|i: int, j: int|
        0 <= i && j == i + 1 && j < steps.len() ==> (#[trigger] steps[j]).before
            == (#[trigger] steps[i]).after()
}

/// The number of sessions that a run completed: the ticks in which the
/// player was eliminated.
pub open spec fn completed_sessions(steps: Seq<Step>) -> nat
    decreases steps.len(),
{
    if steps.len() == 0 {
        0
    } else {
        completed_sessions(steps.drop_last()) + if steps.last().completes_session() {
            1nat
        } else {
            0nat
        }
    }
}

/// Confinement: after a tick of a running session in an arena that is at
/// least as large as the bodies, the player and every enemy lie between the
/// confinement bounds, half a body from each wall, on both axes.
pub proof fn lemma_step_confines(
    before: WorldView,
    intents: Intents,
    arena: Arena,
    dt: int,
    draws: TickDraws,
)
    requires
        before.is_running(),
        arena.holds(PLAYER_SIZE as int),
        arena.holds(ENEMY_SIZE as int),
    ensures
        before.stepped(intents, Some(arena), dt, draws).confined(arena),
{
    let spawned = before.spawned(Some(arena), dt, draws);
    let moved = spawned.simulated(intents, Some(arena), dt);
    assert forall|i: int| 0 <= i < moved.enemies.len() implies (#[trigger] moved.enemies[i]).position.inside(
        ENEMY_RADIUS as int,
        arena,
    ) by {
        let unconfined = spawned.enemies.map_values(bounced_in(arena)).map_values(moved_for(dt))[i];
        lemma_confined_inside(unconfined.position, ENEMY_RADIUS as int, arena);
    }
    if spawned.player.is_some() {
        let unconfined = spawned.player.unwrap().moved_spec(heading_of(intents), dt);
        lemma_confined_inside(unconfined.position, PLAYER_RADIUS as int, arena);
    }
}

/// Confinement of stars: a newly created star lies between the confinement
/// bounds of the arena it was created in, if the arena is at least as large
/// as a star.
pub proof fn lemma_new_star_inside(id: u64, arena: Arena, draws: StarDraws)
    requires
        arena.holds(STAR_SIZE as int),
    ensures
        Star::spawned_spec(id, arena, draws).position.inside(STAR_RADIUS as int, arena),
{
    lemma_confined_inside(
        arena.point_at_spec(draws.x as int, draws.y as int),
        STAR_RADIUS as int,
        arena,
    );
}

/// Confinement of stars over a tick: if the stars lie between the
/// confinement bounds of the arena before a tick in that arena, they do so
/// after it.
pub proof fn lemma_step_keeps_stars_inside(
    before: WorldView,
    intents: Intents,
    arena: Arena,
    dt: int,
    draws: TickDraws,
)
    requires
        arena.holds(STAR_SIZE as int),
        stars_inside(before.stars, arena),
    ensures
        stars_inside(before.stepped(intents, Some(arena), dt, draws).stars, arena),
{
    let after = before.stepped(intents, Some(arena), dt, draws);
    if before.is_running() {
        let spawned = before.spawned(Some(arena), dt, draws);
        assert forall|i: int| 0 <= i < spawned.stars.len() implies (#[trigger] spawned.stars[i]).position.inside(
            STAR_RADIUS as int,
            arena,
        ) by {
            if i < before.stars.len() {
                assert(spawned.stars[i] == before.stars[i]);
            } else {
                lemma_new_star_inside(before.next_id, arena, draws.star);
            }
        }
        match spawned.player_moved(intents, Some(arena), dt) {
            Some(p) => {
                lemma_kept_stars_are_old(spawned.stars, missed_by(p));
            },
            None => {},
        }
        assert(stars_inside(spawned.simulated(intents, Some(arena), dt).stars, arena));
    } else if before.app_state != AppState::Game {
        assert forall|i: int| 0 <= i < after.stars.len() implies (#[trigger] after.stars[i]).position.inside(
            STAR_RADIUS as int,
            arena,
        ) by {
            if i >= before.stars.len() {
                let k = i - before.stars.len();
                lemma_new_star_inside(
                    (before.next_id + 1 + crate::components::NUMBER_OF_ENEMIES + k) as u64,
                    arena,
                    draws.first_stars@[k],
                );
            }
        }
    }
}

/// Unit length at creation: a newly created enemy has a direction of unit
/// length.
pub proof fn lemma_new_enemy_is_unit(id: u64, arena: Arena, draws: EnemyDraws)
    ensures
        Enemy::spawned_spec(id, arena, draws).direction.is_unit(),
{
    lemma_drawn_direction_is_unit(draws.direction_x as int, draws.direction_y as int);
}

/// Any heading at creation: for each pattern of signs there are draws for
/// which the new enemy heads into that quadrant, so new enemies are not
/// bound to any part of the circle.
pub proof fn lemma_new_enemy_heads_anywhere(id: u64, arena: Arena, left: bool, down: bool)
    ensures
        exists|draws: EnemyDraws|
            {
                let direction = (#[trigger] Enemy::spawned_spec(id, arena, draws)).direction;
                &&& if left {
                    direction.x_spec() < 0
                } else {
                    direction.x_spec() > 0
                }
                &&& if down {
                    direction.y_spec() < 0
                } else {
                    direction.y_spec() > 0
                }
            },
{
    let draws = EnemyDraws {
        x: 0,
        y: 0,
        direction_x: if left {
            0x7fff_ffffu32
        } else {
            0x8000_0001u32
        },
        direction_y: if down {
            0x7fff_ffffu32
        } else {
            0x8000_0001u32
        },
    };
    lemma_diagonals_are_drawn(left, down);
    let direction = Enemy::spawned_spec(id, arena, draws).direction;
    assert(if left {
        direction.x_spec() < 0
    } else {
        direction.x_spec() > 0
    });
    assert(if down {
        direction.y_spec() < 0
    } else {
        direction.y_spec() > 0
    });
}

/// Unit length for good: if every enemy has a direction of unit length
/// before a tick, every enemy has one after it, however many of them
/// bounced and were created.
pub proof fn lemma_step_keeps_directions_unit(
    before: WorldView,
    intents: Intents,
    arena: Option<Arena>,
    dt: int,
    draws: TickDraws,
)
    requires
        directions_unit(before.enemies),
    ensures
        directions_unit(before.stepped(intents, arena, dt, draws).enemies),
{
    let after = before.stepped(intents, arena, dt, draws);
    if before.is_running() {
        let spawned = before.spawned(arena, dt, draws);
        assert forall|i: int| 0 <= i < spawned.enemies.len() implies (#[trigger] spawned.enemies[i]).direction.is_unit() by {
            if i < before.enemies.len() {
                assert(spawned.enemies[i] == before.enemies[i]);
            } else {
                lemma_new_enemy_is_unit(spawned.enemies[i].id, arena.unwrap(), draws.enemy);
            }
        }
        let moved = spawned.simulated(intents, arena, dt);
        assert forall|i: int| 0 <= i < moved.enemies.len() implies (#[trigger] moved.enemies[i]).direction.is_unit() by {
            let enemy = spawned.enemies[i];
            match arena {
                Some(a) => {
                    enemy.direction.lemma_bounce_keeps_unit(enemy.position, ENEMY_RADIUS as int, a);
                },
                None => {},
            }
        }
    } else if before.app_state != AppState::Game {
        assert forall|i: int| 0 <= i < after.enemies.len() implies (#[trigger] after.enemies[i]).direction.is_unit() by {
            if i >= before.enemies.len() {
                let k = i - before.enemies.len();
                lemma_new_enemy_is_unit(
                    (before.next_id + 1 + k) as u64,
                    arena.unwrap(),
                    draws.first_enemies@[k],
                );
            }
        }
    }
}

/// Score monotonicity: over a tick within a session the score grows by
/// exactly the number of stars collected in that tick, and so never falls.
pub proof fn lemma_score_counts_collected(
    before: WorldView,
    intents: Intents,
    arena: Option<Arena>,
    dt: int,
    draws: TickDraws,
)
    requires
        before.wf(),
        before.has_headroom(),
        before.app_state == AppState::Game,
        before.stepped(intents, arena, dt, draws).app_state == AppState::Game,
    ensures
        before.score.is_some(),
        before.stepped(intents, arena, dt, draws).score.is_some(),
        before.stepped(intents, arena, dt, draws).score.unwrap().value
            == before.score.unwrap().value + before.step_report(
            intents,
            arena,
            dt,
            draws,
        ).collected,
        before.stepped(intents, arena, dt, draws).score.unwrap().value
            >= before.score.unwrap().value,
{
    if before.is_running() {
        let spawned = before.spawned(arena, dt, draws);
        match spawned.player_moved(intents, arena, dt) {
            Some(p) => {
                spawned.stars.lemma_filter_len(touched_by(p));
            },
            None => {},
        }
    }
}

/// History per tick: a tick appends one entry to the record, with the score
/// of the session, exactly when the player is eliminated in it; no tick
/// changes the record otherwise, whatever phase it leaves or enters.
pub proof fn lemma_step_appends_history(
    before: WorldView,
    intents: Intents,
    arena: Option<Arena>,
    dt: int,
    draws: TickDraws,
)
    ensures
        before.stepped(intents, arena, dt, draws).high_scores == match before.step_report(
            intents,
            arena,
            dt,
            draws,
        ).game_over {
            Some(signal) => before.high_scores.push(score_entry(signal)),
            None => before.high_scores,
        },
        before.step_report(intents, arena, dt, draws).game_over.is_some() ==> before.is_running()
            && before.stepped(intents, arena, dt, draws).app_state == AppState::GameOver,
{
}

/// History append-only: over a run of ticks the record keeps its old
/// entries and grows by exactly the number of sessions completed in the
/// run, whatever sessions were abandoned in between.
pub proof fn lemma_history_counts_completed_sessions(steps: Seq<Step>)
    requires
        is_run(steps),
        steps.len() > 0,
    ensures
        steps.last().after().high_scores.len() == steps.first().before.high_scores.len()
            + completed_sessions(steps),
        steps.last().after().high_scores.take(steps.first().before.high_scores.len() as int)
            == steps.first().before.high_scores,
    decreases steps.len(),
{
    let last = steps.last();
    lemma_step_appends_history(last.before, last.intents, last.arena, last.dt, last.draws);
    let earlier = steps.drop_last();
    let start = steps.first().before.high_scores;
    if earlier.len() == 0 {
        assert(completed_sessions(earlier) == 0);
        assert(last.after().high_scores.take(start.len() as int) =~= start);
    } else {
        assert forall|i: int, j: int| 0 <= i && j == i + 1 && j < earlier.len() implies (
        #[trigger] earlier[j]).before == (#[trigger] earlier[i]).after() by {
            assert(earlier[i] == steps[i]);
            assert(earlier[j] == steps[j]);
        }
        lemma_history_counts_completed_sessions(earlier);
        assert(earlier.first() == steps.first());
        assert(earlier.last() == steps[steps.len() - 2]);
        assert(steps[steps.len() - 1].before == steps[steps.len() - 2].after());
        assert(last.after().high_scores.take(start.len() as int)
            =~= last.before.high_scores.take(start.len() as int));
    }
}

/// Toggling twice: two ticks in a row that are given the toggle intent, in
/// a session that lasts through both, leave the run phase as it was.
pub proof fn lemma_toggle_twice_restores(
    before: WorldView,
    first: Intents,
    first_arena: Option<Arena>,
    first_dt: int,
    first_draws: TickDraws,
    second: Intents,
    second_arena: Option<Arena>,
    second_dt: int,
    second_draws: TickDraws,
)
    requires
        first.toggle_run_pause,
        second.toggle_run_pause,
        before.app_state == AppState::Game,
        before.stepped(first, first_arena, first_dt, first_draws).app_state == AppState::Game,
        before.stepped(first, first_arena, first_dt, first_draws).stepped(
            second,
            second_arena,
            second_dt,
            second_draws,
        ).app_state == AppState::Game,
    ensures
        before.stepped(first, first_arena, first_dt, first_draws).simulation_state
            == before.simulation_state.toggled_spec(),
        before.stepped(first, first_arena, first_dt, first_draws).stepped(
            second,
            second_arena,
            second_dt,
            second_draws,
        ).simulation_state == before.simulation_state,
{
}

/// Paused by default: whenever a tick enters a session, from the main menu
/// or after a game over, the session is paused, with a score of zero.
pub proof fn lemma_session_begins_paused(
    before: WorldView,
    intents: Intents,
    arena: Option<Arena>,
    dt: int,
    draws: TickDraws,
)
    requires
        before.app_state != AppState::Game,
        before.stepped(intents, arena, dt, draws).app_state == AppState::Game,
    ensures
        before.stepped(intents, arena, dt, draws).simulation_state == SimulationState::GamePaused,
        before.stepped(intents, arena, dt, draws).score == Some(Score { value: 0 }),
        intents.confirm_selection,
        arena.is_some(),
{
}

/// Gating: a tick of a paused session, or outside a session, moves nothing;
/// timers, entities, score and record stay as they are unless the phase
/// changes.
pub proof fn lemma_gated_step_is_still(
    before: WorldView,
    intents: Intents,
    arena: Option<Arena>,
    dt: int,
    draws: TickDraws,
)
    requires
        !before.is_running(),
        before.stepped(intents, arena, dt, draws).app_state == before.app_state,
    ensures
        before.stepped(intents, arena, dt, draws).player == before.player,
        before.stepped(intents, arena, dt, draws).enemies == before.enemies,
        before.stepped(intents, arena, dt, draws).stars == before.stars,
        before.stepped(intents, arena, dt, draws).score == before.score,
        before.stepped(intents, arena, dt, draws).star_spawn_timer == before.star_spawn_timer,
        before.stepped(intents, arena, dt, draws).enemy_spawn_timer == before.enemy_spawn_timer,
        before.stepped(intents, arena, dt, draws).high_scores == before.high_scores,
{
}

} // verus!
