use game_project::collision::{starts_with, CollisionPair, CollisionState};
use game_project::keyboard::{KeyCode, KeyboardState};

fn pair(first: &str, second: &str) -> CollisionPair {
    CollisionPair(first.to_string(), second.to_string())
}

#[test]
fn empty_keyboard_holds_nothing() {
    let keyboard = KeyboardState::new();
    assert!(!keyboard.pressed(KeyCode::Q));
    assert!(!keyboard.just_pressed(KeyCode::Q));
    assert!(!keyboard.pressed_any(&[KeyCode::Up, KeyCode::W]));
    assert!(!keyboard.pressed_any(&[]));
}

#[test]
fn pressed_finds_held_keys() {
    let keyboard = KeyboardState {
        pressed: vec![KeyCode::W, KeyCode::Left, KeyCode::W],
        just_pressed: vec![KeyCode::Left],
    };
    assert!(keyboard.pressed(KeyCode::W));
    assert!(keyboard.pressed(KeyCode::Left));
    assert!(!keyboard.pressed(KeyCode::Up));
    assert!(!keyboard.pressed(KeyCode::A));
}

#[test]
fn just_pressed_reads_the_fresh_keys_only() {
    let keyboard = KeyboardState {
        pressed: vec![KeyCode::W, KeyCode::Left],
        just_pressed: vec![KeyCode::Left],
    };
    assert!(keyboard.just_pressed(KeyCode::Left));
    assert!(!keyboard.just_pressed(KeyCode::W));
    assert!(!keyboard.just_pressed(KeyCode::R));
}

#[test]
fn pressed_any_needs_one_of_the_keys() {
    let keyboard = KeyboardState { pressed: vec![KeyCode::W], just_pressed: vec![KeyCode::S] };
    assert!(keyboard.pressed_any(&[KeyCode::Up, KeyCode::W]));
    assert!(keyboard.pressed_any(&[KeyCode::W, KeyCode::Up]));
    assert!(keyboard.pressed_any(&[KeyCode::W]));
    assert!(!keyboard.pressed_any(&[KeyCode::Down, KeyCode::S]));
    assert!(!keyboard.pressed_any(&[]));
}

#[test]
fn collision_state_is_begin() {
    assert!(CollisionState::Begin.is_begin());
    assert!(!CollisionState::End.is_begin());
}

#[test]
fn starts_with_compares_leading_characters() {
    assert!(starts_with("player", "player"));
    assert!(starts_with("player2", "player"));
    assert!(starts_with("player", ""));
    assert!(starts_with("", ""));
    assert!(!starts_with("playe", "player"));
    assert!(!starts_with("", "player"));
    assert!(!starts_with("enemy0", "player"));
    assert!(!starts_with("xplayer", "player"));
    assert!(!starts_with("Player", "player"));
}

#[test]
fn starts_with_counts_characters_not_bytes() {
    assert!(starts_with("žába", "žá"));
    assert!(!starts_with("zába", "žá"));
    assert!(starts_with("日本語", "日本"));
    assert!(!starts_with("日", "日本"));
}

#[test]
fn one_starts_with_wants_exactly_one() {
    assert!(pair("player", "enemy0").one_starts_with("player"));
    assert!(pair("enemy0", "player").one_starts_with("player"));
    assert!(pair("player7", "enemy0").one_starts_with("player"));
    assert!(!pair("player", "player").one_starts_with("player"));
    assert!(!pair("player", "player2").one_starts_with("player"));
    assert!(!pair("enemy1", "enemy0").one_starts_with("player"));
    assert!(pair("enemy1", "enemy0").one_starts_with("enemy1"));
    assert!(!pair("enemy1", "enemy0").one_starts_with(""));
}
