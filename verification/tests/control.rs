use bevy::input::keyboard::KeyCode;
use bevy::input::Input;
use player_ship::control::{command_from_keys, steer, Velocity};
use player_ship::ship::PlayerShip;
use player_ship::vector::Vector3;

fn keys_with(codes: &[KeyCode]) -> Input<KeyCode> {
    let mut keys = Input::default();
    for code in codes {
        keys.press(*code);
    }
    keys
}

fn along_y(y: i32) -> Option<Velocity> {
    Some(Velocity { linear: Vector3 { x: 0, y, z: 0 } })
}

#[test]
fn up_arrow_alone_climbs() {
    let ship = PlayerShip::default();
    assert_eq!(command_from_keys(&keys_with(&[KeyCode::Up]), &ship), along_y(128));
}

#[test]
fn w_alone_climbs() {
    let ship = PlayerShip::default();
    assert_eq!(command_from_keys(&keys_with(&[KeyCode::W]), &ship), along_y(128));
}

#[test]
fn down_arrow_alone_descends() {
    let ship = PlayerShip::default();
    assert_eq!(command_from_keys(&keys_with(&[KeyCode::Down]), &ship), along_y(-128));
}

#[test]
fn s_alone_descends() {
    let ship = PlayerShip::default();
    assert_eq!(command_from_keys(&keys_with(&[KeyCode::S]), &ship), along_y(-128));
}

#[test]
fn up_wins_over_down() {
    let ship = PlayerShip::default();
    assert_eq!(command_from_keys(&keys_with(&[KeyCode::Up, KeyCode::Down]), &ship), along_y(128));
    assert_eq!(command_from_keys(&keys_with(&[KeyCode::S, KeyCode::W]), &ship), along_y(128));
    assert_eq!(command_from_keys(&keys_with(&[KeyCode::Down, KeyCode::W]), &ship), along_y(128));
    assert_eq!(
        command_from_keys(&keys_with(&[KeyCode::Up, KeyCode::W, KeyCode::Down, KeyCode::S]), &ship),
        along_y(128)
    );
}

#[test]
fn no_key_commands_nothing() {
    let ship = PlayerShip::default();
    assert_eq!(command_from_keys(&keys_with(&[]), &ship), None);
}

#[test]
fn other_keys_command_nothing() {
    let ship = PlayerShip::default();
    let keys = keys_with(&[KeyCode::Left, KeyCode::Right, KeyCode::A, KeyCode::D, KeyCode::Space]);
    assert_eq!(command_from_keys(&keys, &ship), None);
}

#[test]
fn released_key_commands_nothing() {
    let ship = PlayerShip::default();
    let mut keys = keys_with(&[KeyCode::W]);
    assert_eq!(command_from_keys(&keys, &ship), along_y(128));
    keys.release(KeyCode::W);
    assert_eq!(command_from_keys(&keys, &ship), None);
}

#[test]
fn held_key_still_counts_after_update() {
    let ship = PlayerShip::default();
    let mut keys = keys_with(&[KeyCode::S]);
    keys.update();
    assert_eq!(command_from_keys(&keys, &ship), along_y(-128));
}

#[test]
fn only_the_vertical_speed_counts() {
    let ship = PlayerShip { speed: Vector3 { x: 7, y: 40, z: -3 } };
    assert_eq!(command_from_keys(&keys_with(&[KeyCode::Up]), &ship), along_y(40));
    assert_eq!(command_from_keys(&keys_with(&[KeyCode::Down]), &ship), along_y(-40));
}

#[test]
fn steer_follows_the_rule() {
    let ship = PlayerShip::default();
    assert_eq!(steer(true, false, &ship), along_y(128));
    assert_eq!(steer(false, true, &ship), along_y(-128));
    assert_eq!(steer(true, true, &ship), along_y(128));
    assert_eq!(steer(false, false, &ship), None);
}

#[test]
fn steer_with_a_negative_speed() {
    let ship = PlayerShip { speed: Vector3 { x: 0, y: -5, z: 0 } };
    assert_eq!(steer(true, false, &ship), along_y(-5));
    assert_eq!(steer(false, true, &ship), along_y(5));
}

#[test]
fn steer_at_the_ends_of_the_range() {
    let fastest = PlayerShip { speed: Vector3 { x: 0, y: i32::MAX, z: 0 } };
    assert_eq!(steer(true, false, &fastest), along_y(i32::MAX));
    assert_eq!(steer(false, true, &fastest), along_y(-i32::MAX));
    let lowest = PlayerShip { speed: Vector3 { x: 0, y: i32::MIN + 1, z: 0 } };
    assert_eq!(steer(false, true, &lowest), along_y(i32::MAX));
    let beyond = PlayerShip { speed: Vector3 { x: 0, y: i32::MIN, z: 0 } };
    assert_eq!(steer(true, false, &beyond), along_y(i32::MIN));
    assert_eq!(steer(true, true, &beyond), along_y(i32::MIN));
    assert_eq!(steer(false, false, &beyond), None);
}

#[test]
fn steer_with_no_speed() {
    let ship = PlayerShip { speed: Vector3 { x: 0, y: 0, z: 0 } };
    assert_eq!(steer(true, false, &ship), along_y(0));
    assert_eq!(steer(false, true, &ship), along_y(0));
}

#[test]
fn velocity_from_linear_keeps_the_vector() {
    let v = Velocity::from_linear(Vector3::new(1, -2, 3));
    assert_eq!(v.linear, Vector3 { x: 1, y: -2, z: 3 });
}
