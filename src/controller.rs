//! Facing direction and the decision, once per input sample, of the
//! character's action and direction, subject to the animation lock.
use vstd::prelude::*;
use crate::animation::{Action, PlayerAnimation};

verus! {

/// Which way the character faces.
#[derive(Clone, Copy, Debug, PartialEq, Eq, Structural)]
pub enum Direction {
    Right,
    Left,
}

/// The facing of one character.
#[derive(Clone, Copy, Debug, PartialEq, Eq, Structural)]
pub struct Player {
    pub direction: Direction,
}

impl Player {
    /// The facing at spawn: right.
    pub fn new() -> (r: Player)
        ensures
            r.direction == Direction::Right,
    {
        Player { direction: Direction::Right }
    }
}

/// The keys held in one input sample.
#[derive(Clone, Copy, Debug, PartialEq, Eq, Structural)]
pub struct KeyState {
    pub attack: bool,
    pub right: bool,
    pub left: bool,
}

/// The animation state after one input sample. While locked, only the lock
/// changes: it is released once the animation has finished. Unlocked, the
/// attack key starts a locked attack; else the right key, then the left key,
/// selects running; with none of them held the character idles.
pub open spec fn input_animation(anim: PlayerAnimation, keys: KeyState) -> PlayerAnimation {
    if anim.animation_locked {
        if anim.finished() {
            anim.with_lock(false)
        } else {
            anim
        }
    } else if keys.attack {
        anim.with_action(Action::Attack).with_lock(true)
    } else if keys.right || keys.left {
        anim.with_action(Action::Run)
    } else {
        anim.with_action(Action::Idle)
    }
}

/// The facing after one input sample: it turns only while unlocked, with the
/// attack key not held, toward the right key if held, else the left key.
pub open spec fn input_facing(anim: PlayerAnimation, player: Player, keys: KeyState) -> Player {
    if anim.animation_locked || keys.attack {
        player
    } else if keys.right {
        Player { direction: Direction::Right }
    } else if keys.left {
        Player { direction: Direction::Left }
    } else {
        player
    }
}

/// Applies one input sample to the animation state and the facing.
pub fn keyboard_input(anim: &mut PlayerAnimation, player: &mut Player, keys: KeyState)
    ensures
        *final(anim) == input_animation(*old(anim), keys),
        *final(player) == input_facing(*old(anim), *old(player), keys),
        final(anim).current_index == old(anim).current_index,
        old(anim).animation_locked ==> {
            &&& final(anim).current_action == old(anim).current_action
            &&& final(anim).animation_locked == !old(anim).finished()
            &&& *final(player) == *old(player)
        },
        !old(anim).animation_locked && keys.attack ==> {
            &&& final(anim).current_action == Action::Attack
            &&& final(anim).animation_locked
            &&& *final(player) == *old(player)
        },
        !old(anim).animation_locked && !keys.attack && keys.right ==> {
            &&& final(anim).current_action == Action::Run
            &&& !final(anim).animation_locked
            &&& final(player).direction == Direction::Right
        },
        !old(anim).animation_locked && !keys.attack && !keys.right && keys.left ==> {
            &&& final(anim).current_action == Action::Run
            &&& !final(anim).animation_locked
            &&& final(player).direction == Direction::Left
        },
        !old(anim).animation_locked && !keys.attack && !keys.right && !keys.left ==> {
            &&& final(anim).current_action == Action::Idle
            &&& !final(anim).animation_locked
            &&& *final(player) == *old(player)
        },
{
    if !anim.is_locked() {
        if keys.attack {
            anim.set_action(Action::Attack);
            anim.lock();
        } else if keys.right {
            player.direction = Direction::Right;
            anim.set_action(Action::Run);
        } else if keys.left {
            player.direction = Direction::Left;
            anim.set_action(Action::Run);
        } else {
            anim.set_action(Action::Idle);
        }
    } else if anim.animation_finished() {
        anim.unlock();
    }
}

} // verus!
