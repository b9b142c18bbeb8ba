//! The frame-advance step run each time the animation timer fires: the next
//! frame index and whether the sprite is drawn mirrored.
use vstd::prelude::*;
use crate::animation::{next_frame, PlayerAnimation};
use crate::controller::{Direction, Player};

verus! {

/// What the renderer is told after a frame advance.
#[derive(Clone, Copy, Debug, PartialEq, Eq, Structural)]
pub struct SpriteFrame {
    /// The sprite-sheet cell to show.
    pub index: u32,
    /// Whether the cell is mirrored horizontally.
    pub flip_x: bool,
}

/// The sheet faces right: a character facing left is drawn mirrored.
pub fn flip_for(direction: Direction) -> (r: bool)
    ensures
        r == (direction == Direction::Left),
{
    match direction {
        Direction::Right => false,
        Direction::Left => true,
    }
}

/// Advances the animation by one frame from `shown`, the cell on screen, and
/// returns the cell to show next with its mirroring.
pub fn animate_sprite(anim: &mut PlayerAnimation, player: &Player, shown: u32) -> (r: SpriteFrame)
    ensures
        *final(anim) == old(anim).advanced(shown as int),
        r.index == next_frame(old(anim).active_range(), shown as int),
        r.index == final(anim).current_index,
        r.flip_x == (player.direction == Direction::Left),
        old(anim).wf() ==> final(anim).active_range().contains(r.index as int),
{
    let index = anim.advance(shown);
    SpriteFrame { index, flip_x: flip_for(player.direction) }
}

} // verus!
