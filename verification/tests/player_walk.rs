//! Tests for the player state: pressing and releasing direction keys,
//! the per-tick position update, and the animation frame.

use sprite_walk::input::{handle_event, press_direction, release_direction, InputEvent, Key};
use sprite_walk::player::{update_player, Direction, Player, PLAYER_MOVEMENT_SPEED};

#[test]
fn new_player_stands_still_at_origin() {
    let p = Player::new();
    assert_eq!(p.position.x, 0);
    assert_eq!(p.position.y, 0);
    assert_eq!(p.speed, 0);
    assert_eq!(p.current_frame, 0);
    assert!(p.direction.is_empty());
    assert_eq!(p.sprite.x, 0);
    assert_eq!(p.sprite.y, 0);
    assert_eq!(p.sprite.width, 26);
    assert_eq!(p.sprite.height, 36);
}

#[test]
fn pressing_a_direction_sets_speed_and_appends() {
    let mut p = Player::new();
    press_direction(&mut p, Direction::Left);
    assert_eq!(p.speed, PLAYER_MOVEMENT_SPEED);
    assert_ne!(p.speed, 0);
    assert_eq!(p.direction.len(), 1);
    assert_eq!(p.direction.back(), Some(&Direction::Left));

    press_direction(&mut p, Direction::Up);
    assert_eq!(p.speed, PLAYER_MOVEMENT_SPEED);
    assert_eq!(p.direction.len(), 2);
    assert_eq!(p.direction.back(), Some(&Direction::Up));
    assert_eq!(p.direction.front(), Some(&Direction::Left));
}

#[test]
fn releasing_restores_the_previous_direction() {
    let mut p = Player::new();
    press_direction(&mut p, Direction::Left);
    press_direction(&mut p, Direction::Up);
    release_direction(&mut p);
    assert_eq!(p.direction.back(), Some(&Direction::Left));
    assert_eq!(p.speed, PLAYER_MOVEMENT_SPEED);
}

#[test]
fn releasing_the_last_direction_stops_the_player() {
    let mut p = Player::new();
    press_direction(&mut p, Direction::Right);
    release_direction(&mut p);
    assert!(p.direction.is_empty());
    assert_eq!(p.speed, 0);
}

#[test]
fn releasing_with_nothing_held_changes_nothing() {
    let mut p = Player::new();
    release_direction(&mut p);
    assert!(p.direction.is_empty());
    assert_eq!(p.speed, 0);
    assert_eq!(p.position.x, 0);
    assert_eq!(p.position.y, 0);
}

#[test]
fn update_moves_exactly_one_speed_step_per_axis() {
    let mut p = Player::new();
    press_direction(&mut p, Direction::Left);
    update_player(&mut p);
    assert_eq!(p.position.x, -PLAYER_MOVEMENT_SPEED);
    assert_eq!(p.position.y, 0);

    let mut p = Player::new();
    press_direction(&mut p, Direction::Right);
    update_player(&mut p);
    assert_eq!(p.position.x, PLAYER_MOVEMENT_SPEED);
    assert_eq!(p.position.y, 0);

    let mut p = Player::new();
    press_direction(&mut p, Direction::Up);
    update_player(&mut p);
    assert_eq!(p.position.x, 0);
    assert_eq!(p.position.y, -PLAYER_MOVEMENT_SPEED);

    let mut p = Player::new();
    press_direction(&mut p, Direction::Down);
    update_player(&mut p);
    assert_eq!(p.position.x, 0);
    assert_eq!(p.position.y, PLAYER_MOVEMENT_SPEED);
}

#[test]
fn update_without_a_direction_stays_put() {
    let mut p = Player::new();
    update_player(&mut p);
    assert_eq!(p.position.x, 0);
    assert_eq!(p.position.y, 0);
    assert_eq!(p.current_frame, 0);
}

#[test]
fn frame_cycles_while_moving_and_freezes_when_stopped() {
    let mut p = Player::new();
    press_direction(&mut p, Direction::Down);
    assert_eq!(p.current_frame, 0);
    update_player(&mut p);
    assert_eq!(p.current_frame, 1);
    update_player(&mut p);
    assert_eq!(p.current_frame, 2);
    update_player(&mut p);
    assert_eq!(p.current_frame, 0);
    update_player(&mut p);
    assert_eq!(p.current_frame, 1);

    release_direction(&mut p);
    assert_eq!(p.speed, 0);
    update_player(&mut p);
    assert_eq!(p.current_frame, 1);
    update_player(&mut p);
    assert_eq!(p.current_frame, 1);
}

#[test]
fn quit_events_ask_to_stop_and_leave_the_player_alone() {
    let mut p = Player::new();
    assert!(handle_event(&mut p, InputEvent::Quit));
    assert!(handle_event(
        &mut p,
        InputEvent::KeyDown { key: Key::Escape, repeat: false }
    ));
    assert!(handle_event(
        &mut p,
        InputEvent::KeyDown { key: Key::Escape, repeat: true }
    ));
    assert_eq!(p.speed, 0);
    assert!(p.direction.is_empty());
    assert_eq!(p.position.x, 0);
}

#[test]
fn direction_key_events_drive_the_history() {
    let mut p = Player::new();
    assert!(!handle_event(
        &mut p,
        InputEvent::KeyDown { key: Key::Right, repeat: false }
    ));
    assert_eq!(p.speed, PLAYER_MOVEMENT_SPEED);
    assert_eq!(p.direction.back(), Some(&Direction::Right));

    assert!(!handle_event(
        &mut p,
        InputEvent::KeyDown { key: Key::Down, repeat: false }
    ));
    assert_eq!(p.direction.len(), 2);
    assert_eq!(p.direction.back(), Some(&Direction::Down));

    assert!(!handle_event(
        &mut p,
        InputEvent::KeyUp { key: Key::Down, repeat: false }
    ));
    assert_eq!(p.direction.len(), 1);
    assert_eq!(p.direction.back(), Some(&Direction::Right));
    assert_eq!(p.speed, PLAYER_MOVEMENT_SPEED);

    assert!(!handle_event(
        &mut p,
        InputEvent::KeyUp { key: Key::Right, repeat: false }
    ));
    assert!(p.direction.is_empty());
    assert_eq!(p.speed, 0);
}

#[test]
fn repeated_and_unknown_key_events_are_ignored() {
    let mut p = Player::new();
    assert!(!handle_event(
        &mut p,
        InputEvent::KeyDown { key: Key::Left, repeat: true }
    ));
    assert!(p.direction.is_empty());
    assert_eq!(p.speed, 0);

    press_direction(&mut p, Direction::Left);
    assert!(!handle_event(
        &mut p,
        InputEvent::KeyUp { key: Key::Left, repeat: true }
    ));
    assert_eq!(p.direction.len(), 1);

    assert!(!handle_event(
        &mut p,
        InputEvent::KeyDown { key: Key::Other, repeat: false }
    ));
    assert!(!handle_event(
        &mut p,
        InputEvent::KeyUp { key: Key::Other, repeat: false }
    ));
    assert!(!handle_event(&mut p, InputEvent::Other));
    assert_eq!(p.direction.len(), 1);
    assert_eq!(p.speed, PLAYER_MOVEMENT_SPEED);
}
