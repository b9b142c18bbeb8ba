use sprite_animation::animation::{Action, PlayerAnimation};
use sprite_animation::controller::{keyboard_input, Direction, KeyState, Player};
use sprite_animation::frame::{animate_sprite, flip_for, SpriteFrame};

const NONE: KeyState = KeyState { attack: false, right: false, left: false };
const ATTACK: KeyState = KeyState { attack: true, right: false, left: false };
const RIGHT: KeyState = KeyState { attack: false, right: true, left: false };
const LEFT: KeyState = KeyState { attack: false, right: false, left: true };

#[test]
fn player_starts_facing_right() {
    assert_eq!(Player::new().direction, Direction::Right);
}

#[test]
fn attack_from_idle_locks_until_finished() {
    let mut anim = PlayerAnimation::new();
    let mut player = Player::new();
    keyboard_input(&mut anim, &mut player, ATTACK);
    assert_eq!(anim.current_action, Action::Attack);
    assert!(anim.animation_locked);

    let mut shown = anim.current_index;
    for (step, keys) in [ATTACK, LEFT].iter().enumerate() {
        let frame = animate_sprite(&mut anim, &player, shown);
        shown = frame.index;
        assert_eq!(shown, step as u32 + 1);
        keyboard_input(&mut anim, &mut player, *keys);
        assert_eq!(anim.current_action, Action::Attack);
        assert!(anim.animation_locked);
        assert_eq!(player.direction, Direction::Right);
    }
    let frame = animate_sprite(&mut anim, &player, shown);
    assert_eq!(frame.index, 3);
    assert!(anim.animation_finished());
    assert!(anim.animation_locked);

    keyboard_input(&mut anim, &mut player, LEFT);
    assert!(!anim.animation_locked);
    assert_eq!(anim.current_action, Action::Attack);
    assert_eq!(player.direction, Direction::Right);

    keyboard_input(&mut anim, &mut player, LEFT);
    assert_eq!(anim.current_action, Action::Run);
    assert_eq!(player.direction, Direction::Left);
}

#[test]
fn right_wins_over_left() {
    let mut anim = PlayerAnimation::new();
    let mut player = Player { direction: Direction::Left };
    let both = KeyState { attack: false, right: true, left: true };
    keyboard_input(&mut anim, &mut player, both);
    assert_eq!(player.direction, Direction::Right);
    assert_eq!(anim.current_action, Action::Run);
    assert!(!anim.animation_locked);
}

#[test]
fn attack_wins_over_movement() {
    let mut anim = PlayerAnimation::new();
    let mut player = Player::new();
    let all = KeyState { attack: true, right: true, left: true };
    keyboard_input(&mut anim, &mut player, all);
    assert_eq!(anim.current_action, Action::Attack);
    assert!(anim.animation_locked);
    assert_eq!(player.direction, Direction::Right);
}

#[test]
fn left_turns_and_runs() {
    let mut anim = PlayerAnimation::new();
    let mut player = Player::new();
    keyboard_input(&mut anim, &mut player, LEFT);
    assert_eq!(player.direction, Direction::Left);
    assert_eq!(anim.current_action, Action::Run);
}

#[test]
fn no_key_idles_and_keeps_facing() {
    let mut anim = PlayerAnimation::new();
    let mut player = Player { direction: Direction::Left };
    keyboard_input(&mut anim, &mut player, RIGHT);
    keyboard_input(&mut anim, &mut player, NONE);
    assert_eq!(anim.current_action, Action::Idle);
    assert_eq!(player.direction, Direction::Right);
}

#[test]
fn locked_samples_never_change_action() {
    let mut anim = PlayerAnimation::new();
    let mut player = Player::new();
    keyboard_input(&mut anim, &mut player, ATTACK);
    anim.current_index = 1;
    let before = anim;
    for keys in [NONE, ATTACK, RIGHT, LEFT] {
        keyboard_input(&mut anim, &mut player, keys);
        assert_eq!(anim, before);
        assert_eq!(player.direction, Direction::Right);
    }
}

#[test]
fn input_keeps_frame_index() {
    let mut anim = PlayerAnimation::new();
    let mut player = Player::new();
    anim.current_index = 5;
    keyboard_input(&mut anim, &mut player, RIGHT);
    assert_eq!(anim.current_index, 5);
}

#[test]
fn flip_follows_facing() {
    assert!(!flip_for(Direction::Right));
    assert!(flip_for(Direction::Left));
}

#[test]
fn animate_sprite_records_frame_and_flip() {
    let mut anim = PlayerAnimation::new();
    anim.set_action(Action::Run);
    let player = Player { direction: Direction::Left };
    let frame = animate_sprite(&mut anim, &player, 0);
    assert_eq!(frame, SpriteFrame { index: 7, flip_x: true });
    assert_eq!(anim.current_index, 7);
    let frame = animate_sprite(&mut anim, &Player::new(), 7);
    assert_eq!(frame, SpriteFrame { index: 8, flip_x: false });
}
