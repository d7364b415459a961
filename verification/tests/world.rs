use dash_ball::components::{Enemy, EntityKind, Player, Star};
use dash_ball::fixed::UNIT;
use dash_ball::geometry::{Arena, Direction, Position};
use dash_ball::components::{EnemyDraws, StarDraws};
use dash_ball::messages::{Despawned, GameOver, Intents, Spawned};
use dash_ball::random::TickDraws;
use dash_ball::resources::{EnemySpawnTimer, HighScores, Score, StarSpawnTimer};
use dash_ball::states::{AppState, SimulationState};
use dash_ball::systems::enemy::Bounces;
use dash_ball::world::World;

const SIXTEENTH: u64 = 62_500_000;

fn arena() -> Arena {
    Arena::from_units(1280, 720)
}

fn left() -> Direction {
    Direction::from_intents(true, false, false, false).expect("a heading")
}

fn running(player: Option<Player>, enemies: Vec<Enemy>, stars: Vec<Star>, score: u32) -> World {
    World {
        app_state: AppState::Game,
        simulation_state: SimulationState::GameRunning,
        player,
        enemies,
        stars,
        next_id: 100,
        score: Some(Score { value: score }),
        high_scores: HighScores::default(),
        star_spawn_timer: StarSpawnTimer::default(),
        enemy_spawn_timer: EnemySpawnTimer::default(),
    }
}

fn player_at(x: i32, y: i32) -> Option<Player> {
    Some(Player { id: 0, position: Position::from_units(x, y) })
}

fn confirm() -> Intents {
    let mut intents = Intents::none();
    intents.confirm_selection = true;
    intents
}

fn cancel() -> Intents {
    let mut intents = Intents::none();
    intents.cancel_to_menu = true;
    intents
}

fn toggle() -> Intents {
    let mut intents = Intents::none();
    intents.toggle_run_pause = true;
    intents
}

fn inside(position: Position, half: i64, arena: &Arena) -> bool {
    half <= position.x
        && position.x <= arena.width() - half
        && half <= position.y
        && position.y <= arena.height() - half
}

#[test]
fn a_new_world_is_in_the_main_menu_with_nothing_in_it() {
    let world = World::new();
    assert_eq!(world.app_state, AppState::MainMenu);
    assert_eq!(world.simulation_state, SimulationState::GamePaused);
    assert!(world.player.is_none());
    assert!(world.enemies.is_empty());
    assert!(world.stars.is_empty());
    assert!(world.score.is_none());
    assert!(world.high_scores.scores.is_empty());
    assert_eq!(world.current_score(), None);
    assert_eq!(world.enemy_count(), 0);
    assert!(world.is_valid());
}

#[test]
fn enemy_at_the_left_wall_bounces_and_is_confined() {
    let arena = arena();
    let enemy = Enemy { id: 1, position: Position::from_units(0, 360), direction: left() };
    let mut world = running(None, vec![enemy], Vec::new(), 0);
    let report = world.tick(&Intents::none(), Some(&arena), 160_000_000);
    assert_eq!(world.enemies.len(), 1);
    assert_eq!(world.enemies[0].position, Position::from_units(32, 360));
    assert_eq!(world.enemies[0].direction.x(), UNIT);
    assert_eq!(world.enemies[0].direction.y(), 0);
    assert_eq!(report.bounces, Bounces { x: 1, y: 0 });
    assert_eq!(world.app_state, AppState::Game);
}

#[test]
fn enemy_leaving_the_wall_travels_by_speed_times_time() {
    let arena = arena();
    let enemy = Enemy { id: 1, position: Position::from_units(0, 360), direction: left() };
    let mut world = running(None, vec![enemy], Vec::new(), 0);
    world.tick(&Intents::none(), Some(&arena), 1_000_000_000);
    assert_eq!(world.enemies[0].position, Position::from_units(200, 360));
    assert_eq!(world.enemies[0].direction.x(), UNIT);
    world.tick(&Intents::none(), Some(&arena), 1_000_000_000);
    assert_eq!(world.enemies[0].position, Position::from_units(400, 360));
}

#[test]
fn player_collects_a_star_at_distance_ten() {
    let arena = arena();
    let star = Star { id: 5, position: Position::from_units(110, 100) };
    let mut world = running(player_at(100, 100), Vec::new(), vec![star], 3);
    let report = world.tick(&Intents::none(), Some(&arena), SIXTEENTH);
    assert!(world.stars.is_empty());
    assert_eq!(world.score.expect("a score").value, 4);
    assert_eq!(world.current_score(), Some(4));
    assert_eq!(report.collected, 1);
    assert_eq!(report.despawned, vec![Despawned { id: 5, kind: EntityKind::Star }]);
    assert!(report.game_over.is_none());
}

#[test]
fn eliminated_player_ends_the_session_with_its_score() {
    let arena = arena();
    let enemy = Enemy { id: 1, position: Position::from_units(330, 300), direction: left() };
    let far = Enemy { id: 2, position: Position::from_units(900, 600), direction: left() };
    let star = Star { id: 3, position: Position::from_units(1000, 100) };
    let mut world = running(player_at(300, 300), vec![enemy, far], vec![star], 7);
    let report = world.tick(&Intents::none(), Some(&arena), SIXTEENTH);
    assert_eq!(report.game_over, Some(GameOver { score: 7 }));
    assert_eq!(world.high_scores.scores, vec![("Player".to_string(), 7)]);
    assert_eq!(world.app_state, AppState::GameOver);
    assert!(world.player.is_none());
    assert!(world.enemies.is_empty());
    assert!(world.stars.is_empty());
    assert!(world.score.is_none());
    assert_eq!(
        report.despawned,
        vec![
            Despawned { id: 0, kind: EntityKind::Player },
            Despawned { id: 1, kind: EntityKind::Enemy },
            Despawned { id: 2, kind: EntityKind::Enemy },
            Despawned { id: 3, kind: EntityKind::Star },
        ]
    );
    assert!(world.is_valid());
}

#[test]
fn a_star_collected_in_the_tick_of_elimination_counts() {
    let arena = arena();
    let enemy = Enemy { id: 1, position: Position::from_units(330, 300), direction: left() };
    let star = Star { id: 3, position: Position::from_units(300, 320) };
    let mut world = running(player_at(300, 300), vec![enemy], vec![star], 7);
    let report = world.tick(&Intents::none(), Some(&arena), SIXTEENTH);
    assert_eq!(report.collected, 1);
    assert_eq!(report.game_over, Some(GameOver { score: 8 }));
    assert_eq!(world.high_scores.scores, vec![("Player".to_string(), 8)]);
}

#[test]
fn confirm_in_the_main_menu_begins_a_paused_session() {
    let arena = arena();
    let mut world = World::new();
    let report = world.tick(&confirm(), Some(&arena), SIXTEENTH);
    assert_eq!(world.app_state, AppState::Game);
    assert_eq!(world.simulation_state, SimulationState::GamePaused);
    assert_eq!(world.enemies.len(), 2);
    assert_eq!(world.enemy_count(), 2);
    assert_eq!(world.stars.len(), 3);
    assert_eq!(world.score.expect("a score").value, 0);
    let player = world.player.expect("a player");
    assert_eq!(player.position, Position::from_units(640, 360));
    assert_eq!(player.id, 0);
    assert_eq!(world.next_id, 6);
    assert_eq!(report.spawned.len(), 6);
    assert_eq!(report.spawned[0].kind, EntityKind::Player);
    assert_eq!(report.spawned[1].kind, EntityKind::Enemy);
    assert_eq!(report.spawned[2].id, 2);
    assert_eq!(report.spawned[5].kind, EntityKind::Star);
    assert_eq!(report.spawned[5].position, world.stars[2].position);
    assert!(report.despawned.is_empty());
    assert!(world.is_valid());
}

#[test]
fn confirm_without_an_arena_is_dropped() {
    let mut world = World::new();
    let report = world.tick(&confirm(), None, SIXTEENTH);
    assert_eq!(world.app_state, AppState::MainMenu);
    assert!(world.player.is_none());
    assert!(report.spawned.is_empty());
    let arena = arena();
    world.tick(&Intents::none(), Some(&arena), SIXTEENTH);
    assert_eq!(world.app_state, AppState::MainMenu);
}

#[test]
fn nothing_happens_in_the_menu_without_a_confirm() {
    let arena = arena();
    let mut world = World::new();
    let mut intents = cancel();
    intents.toggle_run_pause = true;
    intents.move_left = true;
    world.tick(&intents, Some(&arena), 10_000_000_000);
    assert_eq!(world.app_state, AppState::MainMenu);
    assert_eq!(world.simulation_state, SimulationState::GamePaused);
    assert_eq!(world.star_spawn_timer.timer.elapsed, 0);
    assert!(world.stars.is_empty());
}

#[test]
fn a_paused_session_stands_still() {
    let arena = arena();
    let enemy = Enemy { id: 1, position: Position::from_units(500, 360), direction: left() };
    let star = Star { id: 2, position: Position::from_units(110, 100) };
    let mut world = running(player_at(100, 100), vec![enemy], vec![star], 0);
    world.simulation_state = SimulationState::GamePaused;
    let mut intents = Intents::none();
    intents.move_right = true;
    let report = world.tick(&intents, Some(&arena), 10_000_000_000);
    assert_eq!(world.player.unwrap().position, Position::from_units(100, 100));
    assert_eq!(world.enemies[0].position, Position::from_units(500, 360));
    assert_eq!(world.stars.len(), 1);
    assert_eq!(world.score.unwrap().value, 0);
    assert_eq!(world.star_spawn_timer.timer.elapsed, 0);
    assert_eq!(world.enemy_spawn_timer.timer.elapsed, 0);
    assert_eq!(report.collected, 0);
    assert!(report.spawned.is_empty());
}

#[test]
fn toggling_twice_returns_to_the_run_phase_before() {
    let arena = arena();
    let mut world = running(player_at(100, 100), Vec::new(), Vec::new(), 0);
    world.simulation_state = SimulationState::GamePaused;
    world.tick(&toggle(), Some(&arena), SIXTEENTH);
    assert_eq!(world.simulation_state, SimulationState::GameRunning);
    world.tick(&toggle(), Some(&arena), SIXTEENTH);
    assert_eq!(world.simulation_state, SimulationState::GamePaused);
    world.tick(&Intents::none(), Some(&arena), SIXTEENTH);
    assert_eq!(world.simulation_state, SimulationState::GamePaused);
}

#[test]
fn every_session_begins_paused() {
    let arena = arena();
    let mut world = World::new();
    world.tick(&confirm(), Some(&arena), SIXTEENTH);
    for enemy in world.enemies.iter_mut() {
        enemy.position = Position::from_units(1200, 650);
    }
    world.tick(&toggle(), Some(&arena), SIXTEENTH);
    assert_eq!(world.simulation_state, SimulationState::GameRunning);
    world.tick(&cancel(), Some(&arena), SIXTEENTH);
    assert_eq!(world.app_state, AppState::MainMenu);
    world.tick(&confirm(), Some(&arena), SIXTEENTH);
    assert_eq!(world.app_state, AppState::Game);
    assert_eq!(world.simulation_state, SimulationState::GamePaused);
    assert_eq!(world.score.unwrap().value, 0);
}

#[test]
fn abandoning_a_session_tears_it_down_without_a_record() {
    let arena = arena();
    let enemy = Enemy { id: 1, position: Position::from_units(900, 600), direction: left() };
    let star = Star { id: 2, position: Position::from_units(1000, 100) };
    let mut world = running(player_at(300, 300), vec![enemy], vec![star], 5);
    let report = world.tick(&cancel(), Some(&arena), SIXTEENTH);
    assert_eq!(world.app_state, AppState::MainMenu);
    assert!(world.player.is_none());
    assert!(world.enemies.is_empty());
    assert!(world.stars.is_empty());
    assert!(world.score.is_none());
    assert!(world.high_scores.scores.is_empty());
    assert!(report.game_over.is_none());
    assert_eq!(report.despawned.len(), 3);
    assert_eq!(report.despawned[0], Despawned { id: 0, kind: EntityKind::Player });
}

#[test]
fn elimination_wins_over_a_cancel_in_the_same_tick() {
    let arena = arena();
    let enemy = Enemy { id: 1, position: Position::from_units(330, 300), direction: left() };
    let mut world = running(player_at(300, 300), vec![enemy], Vec::new(), 2);
    world.tick(&cancel(), Some(&arena), SIXTEENTH);
    assert_eq!(world.app_state, AppState::GameOver);
    assert_eq!(world.high_scores.scores.len(), 1);
}

#[test]
fn after_a_game_over_confirm_restarts_and_cancel_leaves() {
    let arena = arena();
    let mut world = World::new();
    world.app_state = AppState::GameOver;
    world.tick(&confirm(), Some(&arena), SIXTEENTH);
    assert_eq!(world.app_state, AppState::Game);
    assert_eq!(world.simulation_state, SimulationState::GamePaused);
    let mut world = World::new();
    world.app_state = AppState::GameOver;
    world.tick(&cancel(), Some(&arena), SIXTEENTH);
    assert_eq!(world.app_state, AppState::MainMenu);
    let mut world = World::new();
    world.app_state = AppState::GameOver;
    let mut both = confirm();
    both.cancel_to_menu = true;
    world.tick(&both, Some(&arena), SIXTEENTH);
    assert_eq!(world.app_state, AppState::MainMenu);
}

#[test]
fn the_record_grows_by_one_for_each_completed_session_only() {
    let arena = arena();
    let mut world = World::new();
    let before = world.high_scores.scores.len();
    let mut completed = 0;
    for round in 0..6 {
        world.tick(&confirm(), Some(&arena), SIXTEENTH);
        assert_eq!(world.app_state, AppState::Game);
        if round % 2 == 0 {
            let at = world.player.expect("a player").position;
            world.enemies[0].position = at;
            world.tick(&toggle(), Some(&arena), SIXTEENTH);
            let report = world.tick(&Intents::none(), Some(&arena), 1);
            assert!(report.game_over.is_some());
            assert_eq!(world.app_state, AppState::GameOver);
            completed += 1;
        } else {
            world.tick(&cancel(), Some(&arena), SIXTEENTH);
            assert_eq!(world.app_state, AppState::MainMenu);
        }
        assert_eq!(world.high_scores.scores.len(), before + completed);
    }
    assert_eq!(completed, 3);
    assert!(world.high_scores.scores.iter().all(|entry| entry.0 == "Player"));
}

#[test]
fn the_score_never_falls_and_counts_each_star() {
    let arena = arena();
    let stars = vec![
        Star { id: 1, position: Position::from_units(110, 100) },
        Star { id: 2, position: Position::from_units(300, 100) },
        Star { id: 3, position: Position::from_units(310, 100) },
        Star { id: 4, position: Position::from_units(900, 600) },
    ];
    let mut world = running(player_at(100, 100), Vec::new(), stars, 0);
    let mut intents = Intents::none();
    intents.move_right = true;
    let mut last = 0;
    let mut collected = 0;
    for _ in 0..10 {
        let report = world.tick(&intents, Some(&arena), 50_000_000);
        let now = world.score.expect("a score").value;
        assert!(now >= last);
        assert_eq!(now as usize, last as usize + report.collected);
        collected += report.collected;
        last = now;
    }
    assert_eq!(collected, 3);
    assert_eq!(last, 3);
    assert_eq!(world.stars.len(), 1);
    assert_eq!(world.stars[0].id, 4);
}

#[test]
fn player_and_enemies_stay_confined_whatever_the_tick() {
    let arena = arena();
    let mut world = World::new();
    world.tick(&confirm(), Some(&arena), SIXTEENTH);
    world.tick(&toggle(), Some(&arena), SIXTEENTH);
    let mut intents = Intents::none();
    intents.move_left = true;
    intents.move_down = true;
    for step in 0..200u64 {
        if world.app_state != AppState::Game {
            break;
        }
        let dt = if step % 7 == 0 { 3_000_000_000 } else { 16_000_000 + step * 1_000_000 };
        world.tick(&intents, Some(&arena), dt);
        if let Some(player) = world.player {
            assert!(inside(player.position, 32 * UNIT, &arena));
        }
        for enemy in world.enemies.iter() {
            assert!(inside(enemy.position, 32 * UNIT, &arena));
        }
        for star in world.stars.iter() {
            assert!(inside(star.position, 15 * UNIT, &arena));
        }
        assert!(world.is_valid());
    }
}

#[test]
fn directions_keep_unit_length_through_bounces() {
    let arena = Arena::from_units(200, 200);
    let mut world = running(None, Vec::new(), Vec::new(), 0);
    world.enemy_spawn_timer.timer.period = 100_000_000;
    for _ in 0..300 {
        world.tick(&Intents::none(), Some(&arena), 100_000_000);
    }
    assert_eq!(world.enemies.len(), 300);
    let one = (UNIT as i128) * (UNIT as i128);
    for enemy in world.enemies.iter() {
        let x = enemy.direction.x() as i128;
        let y = enemy.direction.y() as i128;
        assert!(x * x + y * y <= one);
        assert!(one < (x.abs() + 1) * (x.abs() + 1) + (y.abs() + 1) * (y.abs() + 1));
    }
}

#[test]
fn the_timers_add_a_star_every_three_and_an_enemy_every_five_seconds() {
    let arena = arena();
    let mut world = running(None, Vec::new(), Vec::new(), 0);
    let mut stars = Vec::new();
    let mut enemies = Vec::new();
    for _ in 0..15 {
        let report = world.tick(&Intents::none(), Some(&arena), 1_000_000_000);
        stars.push(world.stars.len());
        enemies.push(world.enemies.len());
        assert!(report.spawned.len() <= 2);
    }
    assert_eq!(stars, vec![0, 0, 1, 1, 1, 2, 2, 2, 3, 3, 3, 4, 4, 4, 5]);
    assert_eq!(enemies, vec![0, 0, 0, 0, 1, 1, 1, 1, 1, 2, 2, 2, 2, 2, 3]);
    assert_eq!(world.next_id, 108);
}

#[test]
fn periodic_spawns_are_reported_with_their_handles() {
    let arena = arena();
    let mut world = running(None, Vec::new(), Vec::new(), 0);
    let report = world.tick(&Intents::none(), Some(&arena), 15_000_000_000);
    assert_eq!(report.spawned.len(), 2);
    assert_eq!(report.spawned[0].kind, EntityKind::Star);
    assert_eq!(report.spawned[0].id, 100);
    assert_eq!(report.spawned[1].kind, EntityKind::Enemy);
    assert_eq!(report.spawned[1].id, 101);
    assert_eq!(world.stars[0].id, 100);
    assert_eq!(world.enemies[0].id, 101);
}

#[test]
fn without_an_arena_entities_move_but_are_neither_confined_nor_created() {
    let enemy = Enemy { id: 1, position: Position::from_units(0, 360), direction: left() };
    let mut world = running(player_at(10, 10), vec![enemy], Vec::new(), 0);
    let mut intents = Intents::none();
    intents.move_left = true;
    let report = world.tick(&intents, None, 5_000_000_000);
    assert_eq!(world.enemies.len(), 1);
    assert_eq!(world.enemies[0].position, Position::from_units(-1000, 360));
    assert_eq!(world.enemies[0].direction.x(), -UNIT);
    assert_eq!(world.player.unwrap().position, Position::from_units(-2490, 10));
    assert!(world.stars.is_empty());
    assert!(report.spawned.is_empty());
    assert_eq!(report.bounces, Bounces { x: 0, y: 0 });
    assert!(world.enemy_spawn_timer.timer.finished);
}

#[test]
fn a_session_without_a_player_goes_on() {
    let arena = arena();
    let enemy = Enemy { id: 1, position: Position::from_units(500, 360), direction: left() };
    let star = Star { id: 2, position: Position::from_units(500, 360) };
    let mut world = running(None, vec![enemy], vec![star], 4);
    let report = world.tick(&Intents::none(), Some(&arena), SIXTEENTH);
    assert_eq!(world.app_state, AppState::Game);
    assert_eq!(world.stars.len(), 1);
    assert_eq!(world.score.unwrap().value, 4);
    assert!(report.game_over.is_none());
}

#[test]
fn the_quit_intent_is_reported_in_every_phase() {
    let arena = arena();
    let mut intents = Intents::none();
    intents.request_quit = true;
    let mut world = World::new();
    assert!(world.tick(&intents, Some(&arena), SIXTEENTH).quit_requested);
    assert!(!world.tick(&Intents::none(), Some(&arena), SIXTEENTH).quit_requested);
    let mut world = running(None, Vec::new(), Vec::new(), 0);
    assert!(world.tick(&intents, Some(&arena), SIXTEENTH).quit_requested);
}

#[test]
fn in_an_arena_smaller_than_the_bodies_the_tick_still_runs() {
    let arena = Arena::from_units(40, 40);
    let enemy = Enemy { id: 1, position: Position::from_units(20, 20), direction: left() };
    let mut world = running(None, vec![enemy], Vec::new(), 0);
    world.tick(&Intents::none(), Some(&arena), SIXTEENTH);
    assert_eq!(world.enemies[0].position, Position::from_units(8, 32));
    assert_eq!(world.enemies[0].direction.x(), UNIT);
    world.tick(&Intents::none(), Some(&arena), SIXTEENTH);
    assert_eq!(world.enemies[0].position, Position::from_units(32, 8));
    assert_eq!(world.enemies[0].direction.x(), -UNIT);
}

#[test]
fn is_valid_rejects_broken_worlds() {
    let mut world = World::new();
    world.score = Some(Score { value: 0 });
    assert!(!world.is_valid());
    let mut world = World::new();
    world.player = player_at(1, 1);
    assert!(!world.is_valid());
    let star = |id| Star { id, position: Position::from_units(50, 50) };
    let world = running(None, Vec::new(), vec![star(2), star(1)], 0);
    assert!(!world.is_valid());
    let world = running(None, Vec::new(), vec![star(1), star(1)], 0);
    assert!(!world.is_valid());
    let world = running(None, Vec::new(), vec![star(1), star(100)], 0);
    assert!(!world.is_valid());
    let world = running(None, Vec::new(), vec![star(1), star(99)], 0);
    assert!(world.is_valid());
    let mut world = running(None, Vec::new(), vec![star(1)], u32::MAX - 1);
    assert!(!world.is_valid());
    world.score = Some(Score { value: u32::MAX - 2 });
    assert!(world.is_valid());
    let mut world = running(None, Vec::new(), Vec::new(), 0);
    world.next_id = u64::MAX - 5;
    assert!(!world.is_valid());
    world.next_id = u64::MAX - 6;
    assert!(world.is_valid());
    let mut world = running(player_at(1, 1), Vec::new(), Vec::new(), 0);
    world.next_id = 0;
    assert!(!world.is_valid());
}

fn draws() -> TickDraws {
    TickDraws {
        star: StarDraws { x: 0x8000_0000, y: 0x8000_0000 },
        enemy: EnemyDraws { x: 0, y: 0, direction_x: 0x8000_0003, direction_y: 0x8000_0004 },
        first_enemies: [
            EnemyDraws { x: 0x4000_0000, y: 0x4000_0000, direction_x: 0, direction_y: 0 },
            EnemyDraws {
                x: 0xC000_0000,
                y: 0xC000_0000,
                direction_x: 0x7fff_fffc,
                direction_y: 0x8000_0003,
            },
        ],
        first_stars: [
            StarDraws { x: 0, y: 0 },
            StarDraws { x: 0x8000_0000, y: 0x4000_0000 },
            StarDraws { x: u32::MAX, y: u32::MAX },
        ],
    }
}

#[test]
fn a_step_begins_the_session_that_its_draws_select() {
    let arena = arena();
    let mut world = World::new();
    let report = world.step(&confirm(), Some(&arena), SIXTEENTH, &draws());
    assert_eq!(world.app_state, AppState::Game);
    assert_eq!(world.simulation_state, SimulationState::GamePaused);
    assert_eq!(world.player.unwrap().position, Position::from_units(640, 360));
    assert_eq!(world.enemies.len(), 2);
    assert_eq!(world.enemies[0].id, 1);
    assert_eq!(world.enemies[0].position, Position::from_units(320, 180));
    assert_eq!(world.enemies[1].id, 2);
    assert_eq!(world.enemies[1].position, Position::from_units(960, 540));
    assert_eq!(world.enemies[0].direction.x(), -707_106_781);
    assert_eq!(world.enemies[0].direction.y(), -707_106_781);
    assert_eq!(world.enemies[1].direction.x(), -800_000_000);
    assert_eq!(world.enemies[1].direction.y(), 600_000_000);
    assert_eq!(world.stars.len(), 3);
    assert_eq!(world.stars[0].id, 3);
    assert_eq!(world.stars[0].position, Position::from_units(15, 15));
    assert_eq!(world.stars[1].position, Position::from_units(640, 180));
    assert_eq!(world.stars[2].position, Position::from_units(1265, 705));
    assert_eq!(world.next_id, 6);
    assert_eq!(
        report.spawned,
        vec![
            Spawned { id: 0, kind: EntityKind::Player, position: Position::from_units(640, 360) },
            Spawned { id: 1, kind: EntityKind::Enemy, position: Position::from_units(320, 180) },
            Spawned { id: 2, kind: EntityKind::Enemy, position: Position::from_units(960, 540) },
            Spawned { id: 3, kind: EntityKind::Star, position: Position::from_units(15, 15) },
            Spawned { id: 4, kind: EntityKind::Star, position: Position::from_units(640, 180) },
            Spawned { id: 5, kind: EntityKind::Star, position: Position::from_units(1265, 705) },
        ]
    );
}

#[test]
fn a_step_adds_what_the_timers_are_due_where_its_draws_say() {
    let arena = arena();
    let mut world = running(None, Vec::new(), Vec::new(), 0);
    let report = world.step(&Intents::none(), Some(&arena), 15_000_000_000, &draws());
    assert_eq!(world.stars.len(), 1);
    assert_eq!(world.stars[0].id, 100);
    assert_eq!(world.stars[0].position, Position::from_units(640, 360));
    assert_eq!(world.enemies.len(), 1);
    assert_eq!(world.enemies[0].id, 101);
    assert_eq!(world.enemies[0].position, Position::from_units(32, 32));
    assert_eq!(world.enemies[0].direction.x(), -600_000_000);
    assert_eq!(world.enemies[0].direction.y(), -800_000_000);
    assert_eq!(report.bounces, Bounces { x: 1, y: 1 });
    assert_eq!(
        report.spawned,
        vec![
            Spawned { id: 100, kind: EntityKind::Star, position: Position::from_units(640, 360) },
            Spawned { id: 101, kind: EntityKind::Enemy, position: Position::from_units(0, 0) },
        ]
    );
    assert_eq!(world.star_spawn_timer.timer.elapsed, 0);
    assert_eq!(world.enemy_spawn_timer.timer.elapsed, 0);
}

#[test]
fn steps_with_the_same_draws_agree() {
    let arena = arena();
    let mut one = World::new();
    let mut other = World::new();
    let mut intents = confirm();
    for round in 0..40u64 {
        let first = one.step(&intents, Some(&arena), 400_000_000 + round, &draws());
        let second = other.step(&intents, Some(&arena), 400_000_000 + round, &draws());
        assert_eq!(first.spawned, second.spawned);
        assert_eq!(first.despawned, second.despawned);
        assert_eq!(first.game_over, second.game_over);
        assert_eq!(one.app_state, other.app_state);
        assert_eq!(one.next_id, other.next_id);
        assert_eq!(one.enemies.len(), other.enemies.len());
        for (a, b) in one.enemies.iter().zip(other.enemies.iter()) {
            assert_eq!(a.position, b.position);
        }
        intents = if round == 0 { toggle() } else { Intents::none() };
        if one.app_state != AppState::Game {
            break;
        }
    }
}
