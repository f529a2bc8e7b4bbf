use game_project::collision::{CollisionEvent, CollisionPair, CollisionState};
use game_project::keyboard::{KeyCode, KeyboardState};
use game_project::logic::{
    can_run, count_hits, game_logic, movement, random_spawn_point, reset_score, resolve_collisions, score_hit,
    spawn_enemy, earns_point, Action, Frame, MOVEMENT_SPEED, SPAWN_HALF_HEIGHT, SPAWN_HALF_WIDTH,
    UNIT,
};
use game_project::state::{GameState, SPAWN_PERIOD_NANOS};

const HALF_SECOND: u64 = 500_000_000;
const TENTH_SECOND: u64 = 100_000_000;

fn keys(pressed: &[KeyCode], just_pressed: &[KeyCode]) -> KeyboardState {
    KeyboardState { pressed: pressed.to_vec(), just_pressed: just_pressed.to_vec() }
}

fn event(state: CollisionState, first: &str, second: &str) -> CollisionEvent {
    CollisionEvent { state, pair: CollisionPair(first.to_string(), second.to_string()) }
}

fn begin(first: &str, second: &str) -> CollisionEvent {
    event(CollisionState::Begin, first, second)
}

fn end(first: &str, second: &str) -> CollisionEvent {
    event(CollisionState::End, first, second)
}

fn quiet(delta_nanos: u64) -> Frame {
    Frame { keyboard_state: KeyboardState::new(), collision_events: Vec::new(), delta_nanos }
}

fn still() -> Action {
    Action::MovePlayer { dx: 0, dy: 0 }
}

fn remove(label: &str) -> Action {
    Action::RemoveSprite { label: label.to_string() }
}

fn score_shows(value: &str) -> Action {
    Action::SetScoreText { value: value.to_string() }
}

fn high_score_shows(value: &str) -> Action {
    Action::SetHighScoreText { value: value.to_string() }
}

#[test]
fn default_state_starts_from_zero() {
    let state = GameState::default();
    assert_eq!(state.high_score, 0);
    assert_eq!(state.score, 0);
    assert_eq!(state.enemy_index, 0);
    assert_eq!(state.spawn_timer.period(), 2_000_000_000);
    assert_eq!(state.spawn_timer.period(), SPAWN_PERIOD_NANOS);
    assert_eq!(state.spawn_timer.elapsed(), 0);
    assert!(!state.spawn_timer.just_finished());
}

#[test]
fn quiet_frame_only_moves_by_nothing() {
    let mut state = GameState::default();
    let actions = game_logic(quiet(HALF_SECOND), &mut state);
    assert_eq!(actions, vec![still()]);
    assert_eq!(state.score, 0);
    assert_eq!(state.high_score, 0);
    assert_eq!(state.enemy_index, 0);
    assert_eq!(state.spawn_timer.elapsed(), HALF_SECOND);
}

#[test]
fn quit_key_asks_for_exit_first() {
    let mut state = GameState::default();
    let frame = Frame {
        keyboard_state: keys(&[KeyCode::Q], &[KeyCode::Q]),
        collision_events: vec![begin("player", "enemy0")],
        delta_nanos: TENTH_SECOND,
    };
    let actions = game_logic(frame, &mut state);
    assert_eq!(actions[0], Action::Exit);
    assert_eq!(actions.iter().filter(|a| **a == Action::Exit).count(), 1);
}

#[test]
fn quit_key_changes_nothing_else() {
    let mut with_quit = GameState::default();
    let mut without = GameState::default();
    let events = vec![begin("player", "enemy0"), end("player", "enemy0")];
    let loud = game_logic(
        Frame {
            keyboard_state: keys(&[KeyCode::Q, KeyCode::W], &[KeyCode::Q]),
            collision_events: events.clone(),
            delta_nanos: TENTH_SECOND,
        },
        &mut with_quit,
    );
    let quiet = game_logic(
        Frame {
            keyboard_state: keys(&[KeyCode::Q, KeyCode::W], &[]),
            collision_events: events,
            delta_nanos: TENTH_SECOND,
        },
        &mut without,
    );
    assert_eq!(loud[0], Action::Exit);
    assert_eq!(loud[1..].to_vec(), quiet);
    assert_eq!(with_quit.score, without.score);
    assert_eq!(with_quit.high_score, without.high_score);
    assert_eq!(with_quit.enemy_index, without.enemy_index);
    assert_eq!(with_quit.spawn_timer.elapsed(), without.spawn_timer.elapsed());
}

#[test]
fn held_quit_key_does_not_exit() {
    let mut state = GameState::default();
    let frame = Frame {
        keyboard_state: keys(&[KeyCode::Q], &[]),
        collision_events: Vec::new(),
        delta_nanos: 0,
    };
    assert_eq!(game_logic(frame, &mut state), vec![still()]);
}

#[test]
fn hit_removes_enemy_scores_and_plays_sound() {
    let mut state = GameState::default();
    let actions = resolve_collisions(&vec![begin("player", "enemy3")], &mut state);
    assert_eq!(
        actions,
        vec![
            remove("enemy3"),
            score_shows("Score: 1"),
            high_score_shows("High Score: 1"),
            Action::PlaySfx,
        ]
    );
    assert_eq!(state.score, 1);
    assert_eq!(state.high_score, 1);
}

#[test]
fn hit_with_player_second_removes_first() {
    let mut state = GameState::default();
    let actions = resolve_collisions(&vec![begin("enemy7", "player")], &mut state);
    assert_eq!(actions[0], remove("enemy7"));
    assert_eq!(actions.len(), 4);
    assert_eq!(state.score, 1);
}

#[test]
fn hit_below_high_score_leaves_high_score_line() {
    let mut state = GameState::default();
    state.high_score = 5;
    state.score = 2;
    let actions = resolve_collisions(&vec![begin("player", "enemy0")], &mut state);
    assert_eq!(actions, vec![remove("enemy0"), score_shows("Score: 3"), Action::PlaySfx]);
    assert_eq!(state.score, 3);
    assert_eq!(state.high_score, 5);
}

#[test]
fn hit_reaching_high_score_does_not_update_it() {
    let mut state = GameState::default();
    state.high_score = 3;
    state.score = 2;
    let actions = resolve_collisions(&vec![begin("player", "enemy0")], &mut state);
    assert_eq!(actions, vec![remove("enemy0"), score_shows("Score: 3"), Action::PlaySfx]);
    assert_eq!(state.high_score, 3);
}

#[test]
fn end_of_collision_scores_nothing() {
    let mut state = GameState::default();
    let actions = resolve_collisions(&vec![end("player", "enemy0")], &mut state);
    assert!(actions.is_empty());
    assert_eq!(state.score, 0);
}

#[test]
fn collision_without_player_scores_nothing() {
    let mut state = GameState::default();
    let actions = resolve_collisions(&vec![begin("enemy1", "enemy0")], &mut state);
    assert!(actions.is_empty());
    assert_eq!(state.score, 0);
    assert!(!earns_point(&begin("enemy1", "enemy0")));
}

#[test]
fn two_player_labels_score_nothing() {
    assert!(!earns_point(&begin("player", "player2")));
    assert!(earns_point(&begin("player", "enemy0")));
    assert!(earns_point(&begin("enemy0", "player")));
    assert!(!earns_point(&end("player", "enemy0")));
}

#[test]
fn label_that_only_starts_like_player_is_removed_too() {
    let mut state = GameState::default();
    let actions = resolve_collisions(&vec![begin("player2", "enemy0")], &mut state);
    assert_eq!(
        actions,
        vec![
            remove("player2"),
            remove("enemy0"),
            score_shows("Score: 1"),
            high_score_shows("High Score: 1"),
            Action::PlaySfx,
        ]
    );
}

#[test]
fn score_hit_appends_to_what_is_there() {
    let mut state = GameState::default();
    let mut actions = vec![Action::Exit];
    score_hit(&CollisionPair("enemy0".to_string(), "player".to_string()), &mut state, &mut actions);
    assert_eq!(
        actions,
        vec![
            Action::Exit,
            remove("enemy0"),
            score_shows("Score: 1"),
            high_score_shows("High Score: 1"),
            Action::PlaySfx,
        ]
    );
}

#[test]
fn every_hit_in_a_frame_counts() {
    let mut state = GameState::default();
    let events = vec![
        begin("player", "enemy0"),
        end("player", "enemy9"),
        begin("enemy1", "player"),
        begin("enemy4", "enemy5"),
        begin("player", "enemy0"),
    ];
    let actions = resolve_collisions(&events, &mut state);
    assert_eq!(state.score, 3);
    assert_eq!(state.high_score, 3);
    assert_eq!(
        actions,
        vec![
            remove("enemy0"),
            score_shows("Score: 1"),
            high_score_shows("High Score: 1"),
            Action::PlaySfx,
            remove("enemy1"),
            score_shows("Score: 2"),
            high_score_shows("High Score: 2"),
            Action::PlaySfx,
            remove("enemy0"),
            score_shows("Score: 3"),
            high_score_shows("High Score: 3"),
            Action::PlaySfx,
        ]
    );
}

#[test]
fn score_gain_does_not_depend_on_order() {
    let hits = [begin("player", "enemy0"), begin("enemy1", "player")];
    let others = [end("player", "enemy0"), begin("enemy2", "enemy3"), end("enemy2", "enemy3")];
    let orders: [[usize; 5]; 4] = [[0, 1, 2, 3, 4], [4, 3, 2, 1, 0], [2, 0, 3, 1, 4], [3, 4, 0, 2, 1]];
    for order in orders {
        let mut events = Vec::new();
        for i in order {
            if i < 2 {
                events.push(hits[i].clone());
            } else {
                events.push(others[i - 2].clone());
            }
        }
        let mut state = GameState::default();
        state.score = 10;
        state.high_score = 10;
        resolve_collisions(&events, &mut state);
        assert_eq!(state.score, 12);
        assert_eq!(state.high_score, 12);
    }
}

#[test]
fn high_score_survives_reset_and_later_hit() {
    let mut state = GameState::default();
    let hit = || Frame {
        keyboard_state: KeyboardState::new(),
        collision_events: vec![begin("player", "enemy0")],
        delta_nanos: 0,
    };
    game_logic(hit(), &mut state);
    assert_eq!((state.score, state.high_score), (1, 1));
    game_logic(hit(), &mut state);
    assert_eq!((state.score, state.high_score), (2, 2));
    let reset = Frame {
        keyboard_state: keys(&[KeyCode::R], &[KeyCode::R]),
        collision_events: Vec::new(),
        delta_nanos: 0,
    };
    game_logic(reset, &mut state);
    assert_eq!((state.score, state.high_score), (0, 2));
    let actions = game_logic(hit(), &mut state);
    assert_eq!((state.score, state.high_score), (1, 2));
    assert_eq!(actions, vec![remove("enemy0"), score_shows("Score: 1"), Action::PlaySfx, still()]);
}

#[test]
fn reset_zeroes_score_and_keeps_high_score() {
    let mut state = GameState::default();
    state.score = 4;
    state.high_score = 9;
    let frame = Frame {
        keyboard_state: keys(&[KeyCode::R], &[KeyCode::R]),
        collision_events: Vec::new(),
        delta_nanos: 0,
    };
    let actions = game_logic(frame, &mut state);
    assert_eq!(actions, vec![still(), score_shows("Score: 0")]);
    assert_eq!(state.score, 0);
    assert_eq!(state.high_score, 9);
}

#[test]
fn reset_score_returns_the_zero_line() {
    let mut state = GameState::default();
    state.score = 77;
    state.high_score = 80;
    state.enemy_index = 3;
    assert_eq!(reset_score(&mut state), score_shows("Score: 0"));
    assert_eq!((state.score, state.high_score, state.enemy_index), (0, 80, 3));
}

#[test]
fn reset_in_a_frame_with_a_hit_keeps_the_new_high_score() {
    let mut state = GameState::default();
    state.score = 2;
    state.high_score = 2;
    let frame = Frame {
        keyboard_state: keys(&[KeyCode::R], &[KeyCode::R]),
        collision_events: vec![begin("player", "enemy1")],
        delta_nanos: 0,
    };
    let actions = game_logic(frame, &mut state);
    assert_eq!(
        actions,
        vec![
            remove("enemy1"),
            score_shows("Score: 3"),
            high_score_shows("High Score: 3"),
            Action::PlaySfx,
            still(),
            score_shows("Score: 0"),
        ]
    );
    assert_eq!((state.score, state.high_score), (0, 3));
}

#[test]
fn held_reset_key_does_not_reset() {
    let mut state = GameState::default();
    state.score = 4;
    let frame = Frame {
        keyboard_state: keys(&[KeyCode::R], &[]),
        collision_events: Vec::new(),
        delta_nanos: 0,
    };
    assert_eq!(game_logic(frame, &mut state), vec![still()]);
    assert_eq!(state.score, 4);
}

#[test]
fn up_and_right_for_a_tenth_of_a_second() {
    let step = movement(&keys(&[KeyCode::Up, KeyCode::Right], &[]), TENTH_SECOND);
    assert_eq!(step, Action::MovePlayer { dx: 10 * UNIT, dy: 10 * UNIT });
    assert_eq!(MOVEMENT_SPEED, 100);
    assert_eq!(UNIT, 1_000_000_000);
}

#[test]
fn letters_move_like_arrows() {
    let arrows = movement(&keys(&[KeyCode::Down, KeyCode::Left], &[]), TENTH_SECOND);
    let letters = movement(&keys(&[KeyCode::S, KeyCode::A], &[]), TENTH_SECOND);
    assert_eq!(arrows, Action::MovePlayer { dx: -10 * UNIT, dy: -10 * UNIT });
    assert_eq!(letters, arrows);
    let w = movement(&keys(&[KeyCode::W], &[]), 1);
    assert_eq!(w, Action::MovePlayer { dx: 0, dy: 100 });
    let d = movement(&keys(&[KeyCode::D], &[]), 1);
    assert_eq!(d, Action::MovePlayer { dx: 100, dy: 0 });
}

#[test]
fn arrow_and_letter_of_one_direction_count_once() {
    let step = movement(&keys(&[KeyCode::Up, KeyCode::W], &[]), TENTH_SECOND);
    assert_eq!(step, Action::MovePlayer { dx: 0, dy: 10 * UNIT });
}

#[test]
fn opposite_directions_cancel() {
    let step = movement(
        &keys(&[KeyCode::Up, KeyCode::S, KeyCode::Left, KeyCode::D], &[]),
        TENTH_SECOND,
    );
    assert_eq!(step, still());
}

#[test]
fn movement_takes_the_longest_frame() {
    let step = movement(&keys(&[KeyCode::Right, KeyCode::Down], &[]), u64::MAX);
    let far = 100 * (u64::MAX as i128);
    assert_eq!(step, Action::MovePlayer { dx: far, dy: -far });
}

#[test]
fn two_frames_move_as_far_as_one_of_their_length() {
    let held = keys(&[KeyCode::W, KeyCode::Left], &[]);
    let whole = movement(&held, 350_000_000);
    let first = movement(&held, 100_000_000);
    let second = movement(&held, 250_000_000);
    match (whole, first, second) {
        (
            Action::MovePlayer { dx, dy },
            Action::MovePlayer { dx: dx1, dy: dy1 },
            Action::MovePlayer { dx: dx2, dy: dy2 },
        ) => {
            assert_eq!(dx, dx1 + dx2);
            assert_eq!(dy, dy1 + dy2);
            assert_eq!((dx, dy), (-35 * UNIT, 35 * UNIT));
        }
        _ => panic!("movement returns a step"),
    }
}

#[test]
fn four_half_seconds_spawn_one_enemy() {
    let mut state = GameState::default();
    let mut spawns = Vec::new();
    for _ in 0..4 {
        for action in game_logic(quiet(HALF_SECOND), &mut state) {
            if let Action::SpawnEnemy { label, x, y } = action {
                spawns.push((label, x, y));
            }
        }
    }
    assert_eq!(spawns.len(), 1);
    let (label, x, y) = spawns.pop().unwrap();
    assert_eq!(label, "enemy0");
    assert!(-550 * UNIT <= x && x < 550 * UNIT);
    assert!(-325 * UNIT <= y && y < 325 * UNIT);
    assert_eq!(state.enemy_index, 1);
    assert_eq!(state.spawn_timer.elapsed(), 0);
}

#[test]
fn spawn_happens_on_the_fourth_half_second() {
    let mut state = GameState::default();
    for _ in 0..3 {
        assert_eq!(game_logic(quiet(HALF_SECOND), &mut state), vec![still()]);
        assert_eq!(state.enemy_index, 0);
    }
    let actions = game_logic(quiet(HALF_SECOND), &mut state);
    assert_eq!(actions.len(), 2);
    assert_eq!(actions[0], still());
    assert!(matches!(&actions[1], Action::SpawnEnemy { label, .. } if label == "enemy0"));
}

#[test]
fn enemies_are_numbered_in_order() {
    let mut state = GameState::default();
    let mut labels = Vec::new();
    for _ in 0..3 {
        for action in game_logic(quiet(SPAWN_PERIOD_NANOS), &mut state) {
            if let Action::SpawnEnemy { label, .. } = action {
                labels.push(label);
            }
        }
    }
    assert_eq!(labels, vec!["enemy0", "enemy1", "enemy2"]);
    assert_eq!(state.enemy_index, 3);
}

#[test]
fn a_frame_of_two_periods_spawns_once() {
    let mut state = GameState::default();
    let actions = game_logic(quiet(2 * SPAWN_PERIOD_NANOS), &mut state);
    assert_eq!(actions.len(), 2);
    assert_eq!(state.enemy_index, 1);
    assert_eq!(state.spawn_timer.times_finished_this_tick(), 2);
}

#[test]
fn spawn_enemy_names_and_counts() {
    let mut state = GameState::default();
    state.enemy_index = 41;
    let spawn = spawn_enemy(&mut state, -7, 12);
    assert_eq!(spawn, Action::SpawnEnemy { label: "enemy41".to_string(), x: -7, y: 12 });
    assert_eq!(state.enemy_index, 42);
}

#[test]
fn spawn_points_stay_inside_and_vary() {
    assert_eq!(SPAWN_HALF_WIDTH, 550 * UNIT);
    assert_eq!(SPAWN_HALF_HEIGHT, 325 * UNIT);
    let mut points = Vec::new();
    for _ in 0..64 {
        let (x, y) = random_spawn_point();
        assert!(-SPAWN_HALF_WIDTH <= x && x < SPAWN_HALF_WIDTH);
        assert!(-SPAWN_HALF_HEIGHT <= y && y < SPAWN_HALF_HEIGHT);
        points.push((x, y));
    }
    assert!(points.iter().any(|p| p.0 != -SPAWN_HALF_WIDTH));
    assert!(points.iter().any(|p| p.1 != -SPAWN_HALF_HEIGHT));
    assert!(points.iter().any(|p| *p != points[0]));
}

#[test]
fn a_full_frame_keeps_its_order() {
    let mut state = GameState::default();
    state.score = 1;
    state.high_score = 4;
    state.enemy_index = 6;
    let frame = Frame {
        keyboard_state: keys(&[KeyCode::Q, KeyCode::R, KeyCode::Up], &[KeyCode::Q, KeyCode::R]),
        collision_events: vec![begin("enemy2", "player")],
        delta_nanos: SPAWN_PERIOD_NANOS,
    };
    let actions = game_logic(frame, &mut state);
    assert_eq!(actions.len(), 7);
    assert_eq!(actions[0], Action::Exit);
    assert_eq!(actions[1], remove("enemy2"));
    assert_eq!(actions[2], score_shows("Score: 2"));
    assert_eq!(actions[3], Action::PlaySfx);
    assert_eq!(actions[4], Action::MovePlayer { dx: 0, dy: 200 * UNIT });
    assert!(matches!(&actions[5], Action::SpawnEnemy { label, .. } if label == "enemy6"));
    assert_eq!(actions[6], score_shows("Score: 0"));
    assert_eq!((state.score, state.high_score, state.enemy_index), (0, 4, 7));
}

#[test]
fn count_hits_counts_what_scores() {
    assert_eq!(count_hits(&Vec::new()), 0);
    let events = vec![
        begin("player", "enemy0"),
        end("player", "enemy0"),
        begin("enemy1", "enemy2"),
        begin("enemy3", "player"),
        begin("player", "player"),
    ];
    assert_eq!(count_hits(&events), 2);
}

#[test]
fn a_frame_runs_while_the_counters_have_room() {
    let mut state = GameState::default();
    assert!(can_run(&quiet(SPAWN_PERIOD_NANOS), &state));
    state.score = u32::MAX - 1;
    state.enemy_index = i32::MAX - 1;
    let frame = Frame {
        keyboard_state: KeyboardState::new(),
        collision_events: vec![begin("player", "enemy0"), end("player", "enemy0")],
        delta_nanos: SPAWN_PERIOD_NANOS,
    };
    assert!(can_run(&frame, &state));
    game_logic(frame, &mut state);
    assert_eq!((state.score, state.high_score, state.enemy_index), (u32::MAX, u32::MAX, i32::MAX));
}

#[test]
fn a_frame_does_not_run_past_the_highest_score() {
    let mut state = GameState::default();
    state.score = u32::MAX;
    let hit = Frame {
        keyboard_state: KeyboardState::new(),
        collision_events: vec![begin("player", "enemy0")],
        delta_nanos: 0,
    };
    assert!(!can_run(&hit, &state));
    let miss = Frame {
        keyboard_state: KeyboardState::new(),
        collision_events: vec![end("player", "enemy0")],
        delta_nanos: 0,
    };
    assert!(can_run(&miss, &state));
}

#[test]
fn a_frame_does_not_spawn_past_the_highest_counter() {
    let mut state = GameState::default();
    state.enemy_index = i32::MAX;
    assert!(!can_run(&quiet(SPAWN_PERIOD_NANOS), &state));
    assert!(can_run(&quiet(SPAWN_PERIOD_NANOS - 1), &state));
}
