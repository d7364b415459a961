use dash_ball::components::{
    Enemy, EnemyDraws, Player, Star, StarDraws, NUMBER_OF_ENEMIES, NUMBER_OF_STARS,
};
use dash_ball::fixed::UNIT;
use dash_ball::geometry::{Arena, Direction, Position, DIAGONAL};
use dash_ball::main_menu::transition_to_game;
use dash_ball::messages::{GameOver, Intents};
use dash_ball::resources::{
    EnemySpawnTimer, HighScores, RepeatingTimer, Score, StarSpawnTimer,
};
use dash_ball::states::{AppState, NextState, SimulationState};
use dash_ball::systems::enemy::{
    confine_enemy, despawn_enemys, enemy_hit_player, enemy_movement, spawn_enemies,
    spawn_enemys_over_time, update_enemy_direction, Bounces,
};
use dash_ball::systems::game_state::{
    exit_game, handle_game_over, toggle_game_simulation, transition_to_main_menu,
    update_high_scores, HIGH_SCORE_LABEL,
};
use dash_ball::systems::player::{
    confine_player, despawn_player, player_hit_star, player_movement, spawn_player,
};
use dash_ball::systems::star::{despawn_stars, spawn_stars, spawn_stars_over_time};
use dash_ball::systems::timers::{tick_enemy_spawn_timer, tick_star_spawn_timer};

fn arena() -> Arena {
    Arena::from_units(1280, 720)
}

fn left() -> Direction {
    Direction::from_intents(true, false, false, false).expect("a heading")
}

fn star(id: u64, x: i32, y: i32) -> Star {
    Star { id, position: Position::from_units(x, y) }
}

fn enemy(id: u64, x: i32, y: i32, direction: Direction) -> Enemy {
    Enemy { id, position: Position::from_units(x, y), direction }
}

fn finished_timer(period: u64) -> RepeatingTimer {
    RepeatingTimer { elapsed: 0, period, finished: true }
}

#[test]
fn repeating_timer_wraps_and_reports_the_edge() {
    let mut timer = RepeatingTimer::new(3_000_000_000);
    assert!(!timer.is_finished());
    timer.tick(1_000_000_000);
    assert_eq!(timer.elapsed, 1_000_000_000);
    assert!(!timer.is_finished());
    timer.tick(2_500_000_000);
    assert_eq!(timer.elapsed, 500_000_000);
    assert!(timer.is_finished());
    timer.tick(1_000_000_000);
    assert_eq!(timer.elapsed, 1_500_000_000);
    assert!(!timer.is_finished());
    timer.tick(1_500_000_000);
    assert_eq!(timer.elapsed, 0);
    assert!(timer.is_finished());
}

#[test]
fn repeating_timer_drops_several_periods_at_once() {
    let mut timer = RepeatingTimer::new(1_000_000_000);
    timer.tick(3_500_000_000);
    assert_eq!(timer.elapsed, 500_000_000);
    assert!(timer.is_finished());
    assert_eq!(timer.period, 1_000_000_000);
}

#[test]
fn repeating_timer_with_an_empty_period_is_always_finished() {
    let mut timer = RepeatingTimer::new(0);
    timer.tick(0);
    assert!(timer.is_finished());
    assert_eq!(timer.elapsed, 0);
    timer.tick(17);
    assert!(timer.is_finished());
    assert_eq!(timer.elapsed, 0);
}

#[test]
fn repeating_timer_takes_the_longest_times() {
    let mut timer = RepeatingTimer { elapsed: u64::MAX - 1, period: u64::MAX, finished: false };
    timer.tick(u64::MAX);
    assert!(timer.is_finished());
    assert_eq!(timer.elapsed, u64::MAX - 1);
}

#[test]
fn spawn_timers_start_with_their_periods() {
    let stars = StarSpawnTimer::default();
    assert_eq!(stars.timer.period, 3_000_000_000);
    assert_eq!(stars.timer.elapsed, 0);
    assert!(!stars.timer.finished);
    let enemies = EnemySpawnTimer::default();
    assert_eq!(enemies.timer.period, 5_000_000_000);
    assert_eq!(enemies.timer.elapsed, 0);
    assert!(!enemies.timer.finished);
}

#[test]
fn spawn_timer_systems_advance_their_timers() {
    let mut stars = StarSpawnTimer::default();
    tick_star_spawn_timer(&mut stars, 3_000_000_000);
    assert!(stars.timer.finished);
    assert_eq!(stars.timer.elapsed, 0);
    let mut enemies = EnemySpawnTimer::default();
    tick_enemy_spawn_timer(&mut enemies, 3_000_000_000);
    assert!(!enemies.timer.finished);
    assert_eq!(enemies.timer.elapsed, 3_000_000_000);
    tick_enemy_spawn_timer(&mut enemies, 2_000_000_001);
    assert!(enemies.timer.finished);
    assert_eq!(enemies.timer.elapsed, 1);
}

#[test]
fn spawn_player_puts_the_player_at_the_centre() {
    let mut player = None;
    let mut next_id = 7;
    spawn_player(&mut player, &mut next_id, &arena());
    let player: Player = player.expect("a player");
    assert_eq!(player.id, 7);
    assert_eq!(player.position, Position::from_units(640, 360));
    assert_eq!(next_id, 8);
}

#[test]
fn despawn_player_hands_the_player_back() {
    let mut player = Some(Player { id: 3, position: Position::from_units(1, 2) });
    let removed = despawn_player(&mut player).expect("the removed player");
    assert_eq!(removed.id, 3);
    assert!(player.is_none());
    assert!(despawn_player(&mut player).is_none());
}

#[test]
fn player_movement_follows_the_intents() {
    let mut player = Some(Player { id: 0, position: Position::from_units(100, 100) });
    let mut intents = Intents::none();
    intents.move_right = true;
    player_movement(&mut player, &intents, 100_000_000);
    assert_eq!(player.unwrap().position, Position::from_units(150, 100));
    intents.move_up = true;
    player_movement(&mut player, &intents, 1_000_000_000);
    assert_eq!(
        player.unwrap().position,
        Position::new(150 * UNIT + 500 * DIAGONAL, 100 * UNIT + 500 * DIAGONAL)
    );
}

#[test]
fn player_movement_without_heading_or_player_does_nothing() {
    let mut player = Some(Player { id: 0, position: Position::from_units(100, 100) });
    let mut intents = Intents::none();
    player_movement(&mut player, &intents, 1_000_000_000);
    assert_eq!(player.unwrap().position, Position::from_units(100, 100));
    intents.move_left = true;
    intents.move_right = true;
    player_movement(&mut player, &intents, 1_000_000_000);
    assert_eq!(player.unwrap().position, Position::from_units(100, 100));
    let mut nobody: Option<Player> = None;
    intents.move_right = false;
    player_movement(&mut nobody, &intents, 1_000_000_000);
    assert!(nobody.is_none());
}

#[test]
fn confine_player_clamps_to_half_size_from_the_walls() {
    let arena = arena();
    let mut player = Some(Player { id: 0, position: Position::from_units(-20, 2000) });
    confine_player(&mut player, Some(&arena));
    assert_eq!(player.unwrap().position, Position::from_units(32, 688));
}

#[test]
fn confine_player_without_arena_does_nothing() {
    let mut player = Some(Player { id: 0, position: Position::from_units(-20, 2000) });
    confine_player(&mut player, None);
    assert_eq!(player.unwrap().position, Position::from_units(-20, 2000));
    let mut nobody: Option<Player> = None;
    confine_player(&mut nobody, Some(&arena()));
    assert!(nobody.is_none());
}

#[test]
fn player_collects_the_star_it_touches() {
    let player = Some(Player { id: 0, position: Position::from_units(100, 100) });
    let mut stars = vec![star(1, 110, 100)];
    let mut score = Score { value: 4 };
    let collected = player_hit_star(&player, &mut stars, &mut score);
    assert_eq!(collected.len(), 1);
    assert_eq!(collected[0].id, 1);
    assert!(stars.is_empty());
    assert_eq!(score.value, 5);
}

#[test]
fn player_collects_every_touched_star_in_one_sweep() {
    let player = Some(Player { id: 0, position: Position::from_units(100, 100) });
    let mut stars = vec![
        star(1, 110, 100),
        star(2, 300, 300),
        star(3, 100, 146),
        star(4, 100, 147),
        star(5, 90, 90),
    ];
    let mut score = Score { value: 0 };
    let collected = player_hit_star(&player, &mut stars, &mut score);
    let collected_ids: Vec<u64> = collected.iter().map(|s| s.id).collect();
    let left_ids: Vec<u64> = stars.iter().map(|s| s.id).collect();
    assert_eq!(collected_ids, vec![1, 3, 5]);
    assert_eq!(left_ids, vec![2, 4]);
    assert_eq!(score.value, 3);
}

#[test]
fn the_score_may_reach_its_limit_by_the_stars_touched() {
    let player = Some(Player { id: 0, position: Position::from_units(100, 100) });
    let mut stars = vec![star(1, 110, 100), star(2, 300, 300)];
    let mut score = Score { value: u32::MAX - 1 };
    let collected = player_hit_star(&player, &mut stars, &mut score);
    assert_eq!(collected.len(), 1);
    assert_eq!(stars.len(), 1);
    assert_eq!(stars[0].id, 2);
    assert_eq!(score.value, u32::MAX);
}

#[test]
fn without_a_player_a_score_at_its_limit_stays() {
    let mut stars = vec![star(1, 110, 100), star(2, 300, 300)];
    let mut score = Score { value: u32::MAX };
    let collected = player_hit_star(&None, &mut stars, &mut score);
    assert!(collected.is_empty());
    assert_eq!(stars.len(), 2);
    assert_eq!(score.value, u32::MAX);
}

#[test]
fn nothing_is_collected_without_a_player() {
    let mut stars = vec![star(1, 110, 100)];
    let mut score = Score { value: 4 };
    let collected = player_hit_star(&None, &mut stars, &mut score);
    assert!(collected.is_empty());
    assert_eq!(stars.len(), 1);
    assert_eq!(score.value, 4);
}

#[test]
fn spawn_stars_confines_the_drawn_points() {
    let arena = arena();
    let mut stars = vec![star(0, 50, 50)];
    let mut next_id = 1;
    let draws = [
        StarDraws { x: 0, y: 0 },
        StarDraws { x: 0x8000_0000, y: 0x4000_0000 },
        StarDraws { x: u32::MAX, y: u32::MAX },
    ];
    spawn_stars(&mut stars, &mut next_id, Some(&arena), &draws);
    assert_eq!(stars.len(), 1 + NUMBER_OF_STARS);
    assert_eq!(next_id, 1 + NUMBER_OF_STARS as u64);
    assert_eq!(stars[0].position, Position::from_units(50, 50));
    assert_eq!(stars[1].id, 1);
    assert_eq!(stars[1].position, Position::from_units(15, 15));
    assert_eq!(stars[2].id, 2);
    assert_eq!(stars[2].position, Position::from_units(640, 180));
    assert_eq!(stars[3].id, 3);
    assert_eq!(stars[3].position, Position::from_units(1265, 705));
}

#[test]
fn spawn_stars_without_arena_creates_nothing() {
    let mut stars = Vec::new();
    let mut next_id = 1;
    let draws = [StarDraws { x: 1, y: 2 }; NUMBER_OF_STARS];
    spawn_stars(&mut stars, &mut next_id, None, &draws);
    assert!(stars.is_empty());
    assert_eq!(next_id, 1);
}

#[test]
fn despawn_stars_hands_all_stars_back() {
    let mut stars = vec![star(1, 1, 1), star(2, 2, 2)];
    let removed = despawn_stars(&mut stars);
    assert!(stars.is_empty());
    assert_eq!(removed.len(), 2);
    assert_eq!(removed[1].id, 2);
}

#[test]
fn stars_spawn_over_time_only_on_the_edge_of_the_timer() {
    let arena = arena();
    let mut stars = Vec::new();
    let mut next_id = 10;
    let mut timer = StarSpawnTimer::default();
    let draws = StarDraws { x: 0x8000_0000, y: 0 };
    spawn_stars_over_time(&mut stars, &mut next_id, Some(&arena), &timer, draws);
    assert!(stars.is_empty());
    timer.timer = finished_timer(3_000_000_000);
    spawn_stars_over_time(&mut stars, &mut next_id, None, &timer, draws);
    assert!(stars.is_empty());
    assert_eq!(next_id, 10);
    spawn_stars_over_time(&mut stars, &mut next_id, Some(&arena), &timer, draws);
    assert_eq!(stars.len(), 1);
    assert_eq!(stars[0].id, 10);
    assert_eq!(stars[0].position, Position::from_units(640, 15));
    assert_eq!(next_id, 11);
}

#[test]
fn spawn_enemies_uses_the_full_arena_and_the_full_circle() {
    let arena = arena();
    let mut enemies = Vec::new();
    let mut next_id = 5;
    let draws = [
        EnemyDraws { x: 0, y: 0x8000_0000, direction_x: 0x8000_0003, direction_y: 0x7fff_fffc },
        EnemyDraws { x: 0xC000_0000, y: 0, direction_x: 0, direction_y: 0 },
    ];
    spawn_enemies(&mut enemies, &mut next_id, &arena, &draws);
    assert_eq!(enemies.len(), NUMBER_OF_ENEMIES);
    assert_eq!(next_id, 5 + NUMBER_OF_ENEMIES as u64);
    assert_eq!(enemies[0].id, 5);
    assert_eq!(enemies[0].position, Position::from_units(0, 360));
    assert_eq!(enemies[0].direction.x(), 600_000_000);
    assert_eq!(enemies[0].direction.y(), -800_000_000);
    assert_eq!(enemies[1].id, 6);
    assert_eq!(enemies[1].position, Position::from_units(960, 0));
    assert_eq!(enemies[1].direction.x(), -DIAGONAL);
    assert_eq!(enemies[1].direction.y(), -DIAGONAL);
}

#[test]
fn despawn_enemys_hands_all_enemies_back() {
    let mut enemies = vec![enemy(1, 1, 1, left()), enemy(2, 2, 2, left())];
    let removed = despawn_enemys(&mut enemies);
    assert!(enemies.is_empty());
    assert_eq!(removed.len(), 2);
    assert_eq!(removed[0].id, 1);
}

#[test]
fn enemies_spawn_over_time_only_on_the_edge_of_the_timer() {
    let arena = arena();
    let mut enemies = Vec::new();
    let mut next_id = 10;
    let mut timer = EnemySpawnTimer::default();
    let draws = EnemyDraws {
        x: 0x4000_0000,
        y: 0x8000_0000,
        direction_x: 0x7fff_fffc,
        direction_y: 0x8000_0003,
    };
    spawn_enemys_over_time(&mut enemies, &mut next_id, Some(&arena), &timer, draws);
    assert!(enemies.is_empty());
    timer.timer = finished_timer(5_000_000_000);
    spawn_enemys_over_time(&mut enemies, &mut next_id, None, &timer, draws);
    assert!(enemies.is_empty());
    spawn_enemys_over_time(&mut enemies, &mut next_id, Some(&arena), &timer, draws);
    assert_eq!(enemies.len(), 1);
    assert_eq!(enemies[0].id, 10);
    assert_eq!(enemies[0].position, Position::from_units(320, 360));
    assert_eq!(enemies[0].direction.x(), -800_000_000);
    assert_eq!(enemies[0].direction.y(), 600_000_000);
    assert_eq!(next_id, 11);
}

#[test]
fn enemy_movement_moves_each_enemy_along_its_direction() {
    let mut enemies = vec![
        enemy(0, 100, 100, left()),
        enemy(1, 10, 10, Direction::from_draws(0x8000_0003, 0x8000_0004)),
    ];
    enemy_movement(&mut enemies, 500_000_000);
    assert_eq!(enemies[0].position, Position::from_units(0, 100));
    assert_eq!(enemies[1].position, Position::from_units(70, 90));
    assert_eq!(enemies[0].id, 0);
    assert_eq!(enemies[1].direction.y(), 800_000_000);
}

#[test]
fn update_enemy_direction_flips_at_the_bounds_and_counts() {
    let arena = arena();
    let d = Direction::from_draws(0x8000_0003, 0x8000_0004);
    let mut enemies = vec![
        enemy(0, 0, 360, left()),
        enemy(1, 640, 360, d),
        enemy(2, 1248, 688, d),
        enemy(3, 640, 32, d),
    ];
    let bounces = update_enemy_direction(&mut enemies, Some(&arena));
    assert_eq!(bounces, Bounces { x: 2, y: 2 });
    assert_eq!((enemies[0].direction.x(), enemies[0].direction.y()), (UNIT, 0));
    assert_eq!((enemies[1].direction.x(), enemies[1].direction.y()), (d.x(), d.y()));
    assert_eq!((enemies[2].direction.x(), enemies[2].direction.y()), (-d.x(), -d.y()));
    assert_eq!((enemies[3].direction.x(), enemies[3].direction.y()), (d.x(), -d.y()));
    assert_eq!(enemies[0].position, Position::from_units(0, 360));
}

#[test]
fn update_enemy_direction_without_arena_does_nothing() {
    let mut enemies = vec![enemy(0, 0, 360, left())];
    let bounces = update_enemy_direction(&mut enemies, None);
    assert_eq!(bounces, Bounces { x: 0, y: 0 });
    assert_eq!(enemies[0].direction.x(), -UNIT);
}

#[test]
fn confine_enemy_clamps_every_enemy() {
    let arena = arena();
    let mut enemies = vec![enemy(0, -10, 360, left()), enemy(1, 2000, 719, left())];
    confine_enemy(&mut enemies, Some(&arena));
    assert_eq!(enemies[0].position, Position::from_units(32, 360));
    assert_eq!(enemies[1].position, Position::from_units(1248, 688));
    let mut untouched = vec![enemy(0, -10, 360, left())];
    confine_enemy(&mut untouched, None);
    assert_eq!(untouched[0].position, Position::from_units(-10, 360));
}

#[test]
fn enemy_bounces_off_the_left_wall_within_one_tick() {
    let arena = arena();
    let mut enemies = vec![enemy(0, 0, 360, left())];
    let bounces = update_enemy_direction(&mut enemies, Some(&arena));
    enemy_movement(&mut enemies, 160_000_000);
    confine_enemy(&mut enemies, Some(&arena));
    assert_eq!(bounces, Bounces { x: 1, y: 0 });
    assert_eq!(enemies[0].position, Position::from_units(32, 360));
    assert_eq!(enemies[0].direction.x(), UNIT);
    assert_eq!(enemies[0].direction.y(), 0);
}

#[test]
fn enemy_eliminates_the_player_it_touches() {
    let mut player = Some(Player { id: 9, position: Position::from_units(100, 100) });
    let enemies = vec![enemy(0, 500, 500, left()), enemy(1, 163, 100, left())];
    let mut signals = Vec::new();
    let eliminated = enemy_hit_player(&mut player, &enemies, &Score { value: 7 }, &mut signals);
    assert_eq!(eliminated.expect("the eliminated player").id, 9);
    assert!(player.is_none());
    assert_eq!(signals, vec![GameOver { score: 7 }]);
}

#[test]
fn enemy_at_the_sum_of_the_radii_does_not_touch() {
    let mut player = Some(Player { id: 9, position: Position::from_units(100, 100) });
    let enemies = vec![enemy(1, 164, 100, left())];
    let mut signals = Vec::new();
    let eliminated = enemy_hit_player(&mut player, &enemies, &Score { value: 7 }, &mut signals);
    assert!(eliminated.is_none());
    assert!(player.is_some());
    assert!(signals.is_empty());
}

#[test]
fn several_touching_enemies_raise_one_signal() {
    let mut player = Some(Player { id: 9, position: Position::from_units(100, 100) });
    let enemies = vec![
        enemy(0, 100, 100, left()),
        enemy(1, 110, 100, left()),
        enemy(2, 100, 90, left()),
    ];
    let mut signals = vec![GameOver { score: 1 }];
    let eliminated = enemy_hit_player(&mut player, &enemies, &Score { value: 3 }, &mut signals);
    assert!(eliminated.is_some());
    assert_eq!(signals, vec![GameOver { score: 1 }, GameOver { score: 3 }]);
    let again = enemy_hit_player(&mut player, &enemies, &Score { value: 3 }, &mut signals);
    assert!(again.is_none());
    assert_eq!(signals.len(), 2);
}

#[test]
fn exit_game_reports_the_quit_intent() {
    let mut intents = Intents::none();
    assert!(!exit_game(&intents));
    intents.request_quit = true;
    assert!(exit_game(&intents));
}

#[test]
fn handle_game_over_requests_the_game_over_phase() {
    let mut next = NextState::new();
    handle_game_over(&Vec::new(), &mut next);
    assert_eq!(next.pending, None);
    next.set(AppState::MainMenu);
    handle_game_over(&Vec::new(), &mut next);
    assert_eq!(next.pending, Some(AppState::MainMenu));
    handle_game_over(&vec![GameOver { score: 2 }], &mut next);
    assert_eq!(next.pending, Some(AppState::GameOver));
}

#[test]
fn update_high_scores_appends_one_entry_per_signal() {
    let mut high_scores = HighScores::default();
    update_high_scores(&Vec::new(), &mut high_scores);
    assert!(high_scores.scores.is_empty());
    update_high_scores(&vec![GameOver { score: 7 }], &mut high_scores);
    update_high_scores(&vec![GameOver { score: 0 }, GameOver { score: 12 }], &mut high_scores);
    assert_eq!(
        high_scores.scores,
        vec![
            ("Player".to_string(), 7),
            ("Player".to_string(), 0),
            ("Player".to_string(), 12)
        ]
    );
    assert_eq!(HIGH_SCORE_LABEL, "Player");
}

#[test]
fn toggle_requests_the_other_run_phase() {
    let mut intents = Intents::none();
    let mut next = NextState::new();
    toggle_game_simulation(SimulationState::GamePaused, &mut next, &intents);
    assert_eq!(next.pending, None);
    intents.toggle_run_pause = true;
    toggle_game_simulation(SimulationState::GamePaused, &mut next, &intents);
    assert_eq!(next.pending, Some(SimulationState::GameRunning));
    toggle_game_simulation(SimulationState::GameRunning, &mut next, &intents);
    assert_eq!(next.pending, Some(SimulationState::GamePaused));
}

#[test]
fn cancel_requests_the_main_menu_from_a_session_or_a_game_over() {
    let mut intents = Intents::none();
    intents.cancel_to_menu = true;
    let mut next = NextState::new();
    transition_to_main_menu(AppState::MainMenu, &mut next, &intents);
    assert_eq!(next.pending, None);
    transition_to_main_menu(AppState::Game, &mut next, &intents);
    assert_eq!(next.pending, Some(AppState::MainMenu));
    let mut next = NextState::new();
    transition_to_main_menu(AppState::GameOver, &mut next, &intents);
    assert_eq!(next.pending, Some(AppState::MainMenu));
    let mut next = NextState::new();
    transition_to_main_menu(AppState::Game, &mut next, &Intents::none());
    assert_eq!(next.pending, None);
}

#[test]
fn confirm_requests_a_session_from_the_menu_or_a_game_over() {
    let mut intents = Intents::none();
    intents.confirm_selection = true;
    let mut next = NextState::new();
    transition_to_game(AppState::Game, &mut next, &intents);
    assert_eq!(next.pending, None);
    transition_to_game(AppState::MainMenu, &mut next, &intents);
    assert_eq!(next.pending, Some(AppState::Game));
    let mut next = NextState::new();
    transition_to_game(AppState::GameOver, &mut next, &intents);
    assert_eq!(next.pending, Some(AppState::Game));
    let mut next = NextState::new();
    transition_to_game(AppState::MainMenu, &mut next, &Intents::none());
    assert_eq!(next.pending, None);
}

#[test]
fn next_state_keeps_the_last_request_until_taken() {
    let mut next = NextState::new();
    assert_eq!(next.take(), None);
    next.set(AppState::Game);
    next.set(AppState::GameOver);
    assert_eq!(next.take(), Some(AppState::GameOver));
    assert_eq!(next.take(), None);
}

#[test]
fn phases_start_in_the_menu_and_paused() {
    assert_eq!(AppState::default(), AppState::MainMenu);
    assert_eq!(SimulationState::default(), SimulationState::GamePaused);
    assert_eq!(SimulationState::GamePaused.toggled(), SimulationState::GameRunning);
    assert_eq!(SimulationState::GameRunning.toggled(), SimulationState::GamePaused);
    assert_eq!(Score::default().value, 0);
}
