use game_logic::player::{Direction, MoveInput, Player, MAX_HEALTH, SPEED, START_HEALTH};

fn input(right: bool, left: bool, down: bool, up: bool, attack: bool) -> MoveInput {
    MoveInput { right, left, down, up, attack }
}

fn still() -> MoveInput {
    input(false, false, false, false, false)
}

#[test]
fn new_player_state() {
    let p = Player::new();
    assert_eq!(p.get_health(), START_HEALTH);
    assert_eq!(p.get_health(), 5);
    assert!(!p.is_loading());
    assert!(!p.is_in_iframes());
    assert_eq!(p.sprite_management(), "down");
    assert_eq!(p.motion(), (0, 0));
}

#[test]
fn damage_lowers_health_and_starts_iframes() {
    let mut p = Player::new();
    p.damage(2);
    assert_eq!(p.get_health(), 3);
    assert!(p.is_in_iframes());
}

#[test]
fn damage_to_zero() {
    let mut p = Player::new();
    p.damage(5);
    assert_eq!(p.get_health(), 0);
}

#[test]
fn heal_caps_at_max_health() {
    let mut p = Player::new();
    p.damage(3);
    p.heal(10);
    assert_eq!(p.get_health(), MAX_HEALTH);
}

#[test]
fn heal_below_cap() {
    let mut p = Player::new();
    p.damage(4);
    p.heal(2);
    assert_eq!(p.get_health(), 3);
}

#[test]
fn heal_zero_keeps_health() {
    let mut p = Player::new();
    p.damage(1);
    p.heal(0);
    assert_eq!(p.get_health(), 4);
}

#[test]
fn damage_then_heal_restores() {
    let mut p = Player::new();
    p.damage(1);
    p.heal(1);
    assert_eq!(p.get_health(), 5);
    p.damage(3);
    p.damage(1);
    p.heal(1);
    assert_eq!(p.get_health(), 2);
}

#[test]
fn walking_right_turns_right_and_moves() {
    let mut p = Player::new();
    let out = p.process(input(true, false, false, false, false));
    assert_eq!(out.animation, Some("right_walk"));
    assert!(!out.throw_bullet);
    assert_eq!(p.motion(), (SPEED, 0));
    assert_eq!(p.motion(), (100, 0));
}

#[test]
fn each_axis_turns_the_player() {
    let mut p = Player::new();
    assert_eq!(p.process(input(false, false, false, true, false)).animation, Some("up_walk"));
    assert_eq!(p.motion(), (0, -100));
    assert_eq!(p.process(input(false, false, true, false, false)).animation, Some("down_walk"));
    assert_eq!(p.motion(), (0, 100));
    assert_eq!(p.process(input(false, true, false, false, false)).animation, Some("left_walk"));
    assert_eq!(p.motion(), (-100, 0));
}

#[test]
fn stopping_keeps_facing() {
    let mut p = Player::new();
    p.process(input(false, true, false, false, false));
    let out = p.process(still());
    assert_eq!(out.animation, Some("left"));
    assert_eq!(p.sprite_management(), "left");
    assert_eq!(p.motion(), (0, 0));
}

#[test]
fn diagonal_keeps_facing_but_walks() {
    let mut p = Player::new();
    p.process(input(false, false, false, true, false));
    let out = p.process(input(true, false, false, true, false));
    assert_eq!(out.animation, Some("up_walk"));
    assert_eq!(p.motion(), (100, -100));
}

#[test]
fn opposite_directions_cancel() {
    let mut p = Player::new();
    let out = p.process(input(true, true, false, false, false));
    assert_eq!(out.animation, Some("down"));
    assert_eq!(p.motion(), (0, 0));
    let out = p.process(input(true, true, false, true, false));
    assert_eq!(out.animation, Some("up_walk"));
    assert_eq!(p.motion(), (0, -100));
}

#[test]
fn one_throw_per_bullet() {
    let mut p = Player::new();
    assert!(p.process(input(false, false, false, false, true)).throw_bullet);
    assert!(!p.process(input(false, false, false, false, true)).throw_bullet);
    assert!(!p.process(input(false, false, false, false, true)).throw_bullet);
    p.set_bullet_available(true);
    assert!(p.process(input(false, false, false, false, true)).throw_bullet);
}

#[test]
fn no_throw_without_attack() {
    let mut p = Player::new();
    assert!(!p.process(still()).throw_bullet);
    assert!(p.process(input(false, false, false, false, true)).throw_bullet);
}

#[test]
fn no_bullet_no_throw() {
    let mut p = Player::new();
    p.set_bullet_available(false);
    assert!(!p.process(input(false, false, false, false, true)).throw_bullet);
}

#[test]
fn locked_player_stands_still() {
    let mut p = Player::new();
    p.process(input(true, false, false, false, false));
    assert_eq!(p.motion(), (100, 0));
    p.set_lock_movement(true);
    let out = p.process(input(false, true, false, false, true));
    assert_eq!(out.animation, None);
    assert!(!out.throw_bullet);
    assert_eq!(p.motion(), (0, 0));
    assert_eq!(p.sprite_management(), "right");
    p.set_lock_movement(false);
    assert!(p.process(input(false, false, false, false, true)).throw_bullet);
}

#[test]
fn set_face_changes_animation() {
    let mut p = Player::new();
    p.set_face(Direction::Left);
    assert_eq!(p.sprite_management(), "left");
    p.set_face(Direction::Right);
    assert_eq!(p.sprite_management(), "right");
    p.set_face(Direction::Up);
    assert_eq!(p.sprite_management(), "up");
}

#[test]
fn direction_management_on_standing_player_keeps_face() {
    let mut p = Player::new();
    p.set_face(Direction::Left);
    p.direction_management();
    assert_eq!(p.sprite_management(), "left");
}

#[test]
fn never_loading() {
    let mut p = Player::new();
    assert!(!p.is_loading());
    p.process(input(true, false, true, false, true));
    p.damage(2);
    p.heal(1);
    p.set_lock_movement(true);
    p.process(still());
    p.set_face(Direction::Up);
    p.set_bullet_available(true);
    assert!(!p.is_loading());
}

#[test]
fn one_throw_over_many_frames() {
    let mut p = Player::new();
    let mut throws = 0;
    for i in 0..20 {
        let attack = i % 3 == 0;
        if p.process(input(i % 2 == 0, false, false, i % 5 == 0, attack)).throw_bullet {
            throws += 1;
        }
        if i == 7 {
            p.set_lock_movement(true);
        }
        if i == 11 {
            p.set_lock_movement(false);
            p.set_face(Direction::Left);
        }
    }
    assert_eq!(throws, 1);
}
