use platformer::controller::{
    Command, ContactPair, Player, DEFAULT_HORIZONTAL_SPEED, DEFAULT_JUMP_IMPULSE,
};
use platformer::input::{InputState, Key};

const OWN: u64 = 1;
const FLOOR: u64 = 7;
const CRATE_BOX: u64 = 9;

fn floor_contact() -> Vec<ContactPair> {
    vec![ContactPair { body_a: FLOOR, body_b: OWN }]
}

fn box_contact() -> Vec<ContactPair> {
    vec![ContactPair { body_a: OWN, body_b: CRATE_BOX }]
}

fn grounds() -> Vec<u64> {
    vec![FLOOR]
}

#[test]
fn input_starts_released() {
    let s = InputState::new();
    assert!(!s.move_left && !s.move_right && !s.jump_held);
}

#[test]
fn input_last_event_wins() {
    let mut s = InputState::new();
    s.on_key_event(Key::KeyA, true);
    s.on_key_event(Key::KeyD, true);
    s.on_key_event(Key::KeyA, false);
    s.on_key_event(Key::Space, true);
    assert_eq!(s, InputState { move_left: false, move_right: true, jump_held: true });
    s.on_key_event(Key::Space, false);
    assert!(!s.jump_held);
}

#[test]
fn input_repeat_is_idempotent() {
    let mut s = InputState::new();
    s.on_key_event(Key::KeyD, true);
    let once = s;
    s.on_key_event(Key::KeyD, true);
    s.on_key_event(Key::KeyD, true);
    assert_eq!(s, once);
}

#[test]
fn input_unbound_key_ignored() {
    let mut s = InputState::new();
    s.on_key_event(Key::KeyA, true);
    let before = s;
    s.on_key_event(Key::Other, true);
    s.on_key_event(Key::Other, false);
    assert_eq!(s, before);
}

#[test]
fn new_player_defaults() {
    let p = Player::new();
    assert!(p.is_grounded);
    assert_eq!(p.horizontal_speed, 3000);
    assert_eq!(p.jump_impulse, 10150);
    assert_eq!(DEFAULT_HORIZONTAL_SPEED, 3000);
    assert_eq!(DEFAULT_JUMP_IMPULSE, 10150);
    assert_eq!(p.input, InputState::new());
}

#[test]
fn speed_law_values() {
    let mut p = Player::new();
    p.on_key_event(Key::KeyA, true);
    assert_eq!(p.on_update(OWN, &vec![], &grounds()), Command::SetHorizontalVelocity { x: 3000 });
    p.on_key_event(Key::KeyA, false);
    p.on_key_event(Key::KeyD, true);
    assert_eq!(p.on_update(OWN, &vec![], &grounds()), Command::SetHorizontalVelocity { x: -3000 });
    assert!(p.is_grounded);
}

#[test]
fn left_and_right_resolve_to_left() {
    let mut p = Player::new();
    p.on_key_event(Key::KeyD, true);
    p.on_key_event(Key::KeyA, true);
    for _ in 0..3 {
        assert_eq!(p.on_update(OWN, &vec![], &grounds()), Command::SetHorizontalVelocity { x: 3000 });
    }
}

#[test]
fn jump_once_then_no_repeat_while_airborne() {
    let mut p = Player::new();
    p.on_key_event(Key::Space, true);
    assert_eq!(p.on_update(OWN, &vec![], &grounds()), Command::ApplyImpulse { y: 10150 });
    assert!(!p.is_grounded);
    for _ in 0..5 {
        let c = p.on_update(OWN, &vec![], &grounds());
        assert_eq!(c, Command::SetHorizontalVelocity { x: 0 });
        assert!(!p.is_grounded);
    }
}

#[test]
fn jump_keeps_horizontal_velocity_unset() {
    let mut p = Player::new();
    p.on_key_event(Key::KeyA, true);
    p.on_key_event(Key::Space, true);
    assert_eq!(p.on_update(OWN, &floor_contact(), &grounds()), Command::ApplyImpulse { y: 10150 });
}

#[test]
fn lands_only_on_ground_contact() {
    let mut p = Player::new();
    p.on_key_event(Key::Space, true);
    p.on_update(OWN, &vec![], &grounds());
    p.on_key_event(Key::Space, false);
    assert!(!p.is_grounded);
    p.on_update(OWN, &box_contact(), &grounds());
    assert!(!p.is_grounded);
    p.on_update(OWN, &vec![], &grounds());
    assert!(!p.is_grounded);
    assert_eq!(p.on_update(OWN, &floor_contact(), &grounds()), Command::SetHorizontalVelocity { x: 0 });
    assert!(p.is_grounded);
}

#[test]
fn grounded_stays_grounded_without_contacts() {
    let mut p = Player::new();
    for _ in 0..4 {
        assert_eq!(p.on_update(OWN, &vec![], &grounds()), Command::SetHorizontalVelocity { x: 0 });
        assert!(p.is_grounded);
    }
}

#[test]
fn landing_and_jump_in_same_tick() {
    let mut p = Player::new();
    p.on_key_event(Key::Space, true);
    p.on_update(OWN, &vec![], &grounds());
    assert_eq!(p.on_update(OWN, &floor_contact(), &grounds()), Command::ApplyImpulse { y: 10150 });
    assert!(!p.is_grounded);
}

#[test]
fn ground_check_uses_other_party() {
    let mut p = Player::new();
    p.is_grounded = false;
    p.check_ground_collision(FLOOR, &floor_contact(), &grounds());
    assert!(!p.is_grounded);
    p.check_ground_collision(OWN, &vec![ContactPair { body_a: OWN, body_b: FLOOR }], &grounds());
    assert!(p.is_grounded);
}

#[test]
fn ground_check_finds_later_pair() {
    let mut p = Player::new();
    p.is_grounded = false;
    let contacts = vec![
        ContactPair { body_a: OWN, body_b: CRATE_BOX },
        ContactPair { body_a: 3, body_b: OWN },
        ContactPair { body_a: FLOOR, body_b: OWN },
    ];
    p.check_ground_collision(OWN, &contacts, &vec![4, FLOOR]);
    assert!(p.is_grounded);
}

#[test]
fn ground_check_empty_ground_set() {
    let mut p = Player::new();
    p.is_grounded = false;
    p.check_ground_collision(OWN, &floor_contact(), &vec![]);
    assert!(!p.is_grounded);
}
