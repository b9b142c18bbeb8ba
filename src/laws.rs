//! Properties of the state machine over several operations and over runs of
//! input samples and frame advances.
use vstd::prelude::*;
use crate::animation::{next_frame, Action, Animation, PlayerAnimation};
use crate::controller::{input_animation, input_facing, KeyState, Player};

verus! {

/// One thing that happens to a character in the game loop.
#[derive(Clone, Copy, Debug, PartialEq, Eq, Structural)]
pub enum Event {
    /// An input sample with the keys held.
    Input(KeyState),
    /// The animation timer fired while the given cell was on screen.
    Tick(u32),
}

/// The animation state and facing after `event`.
pub open spec fn step(anim: PlayerAnimation, player: Player, event: Event) -> (PlayerAnimation, Player) {
    match event {
        Event::Input(keys) => (input_animation(anim, keys), input_facing(anim, player, keys)),
        Event::Tick(shown) => (anim.advanced(shown as int), player),
    }
}

/// The animation state and facing after the events of `events`, in order.
pub open spec fn run(anim: PlayerAnimation, player: Player, events: Seq<Event>) -> (PlayerAnimation, Player)
    decreases events.len(),
{
    if events.len() == 0 {
        (anim, player)
    } else {
        let before = run(anim, player, events.drop_last());
        step(before.0, before.1, events.last())
    }
}

/// Setting the same action twice in a row is the same as setting it once,
/// and neither changes the frame index.
pub proof fn lemma_set_action_idempotent(anim: PlayerAnimation, action: Action)
    ensures
        anim.with_action(action).with_action(action) == anim.with_action(action),
        anim.with_action(action).with_action(action).current_index == anim.current_index,
{
}

/// No single event changes the action of a locked state.
pub proof fn lemma_locked_step_keeps_action(anim: PlayerAnimation, player: Player, event: Event)
    requires
        anim.animation_locked,
    ensures
        step(anim, player, event).0.current_action == anim.current_action,
        step(anim, player, event).1 == player,
{
}

/// Once locked, the action stays what it was for as long as the lock is held:
/// if every state before the last event of `events` is locked, the state
/// after it still has the action that the run started with.
pub proof fn lemma_lock_holds_action(anim: PlayerAnimation, player: Player, events: Seq<Event>)
    requires
        forall|k: int|
            0 <= k < events.len() ==> (#[trigger] run(anim, player, events.take(k))).0.animation_locked,
    ensures
        events.len() > 0 ==> run(anim, player, events).0.current_action == anim.current_action,
        events.len() > 0 ==> run(anim, player, events).1 == player,
    decreases events.len(),
{
    if events.len() > 0 {
        let prefix = events.drop_last();
        assert(events.take(prefix.len() as int) == prefix);
        assert forall|k: int| 0 <= k < prefix.len() implies (#[trigger] run(anim, player, prefix.take(k))).0.animation_locked by {
            assert(prefix.take(k) == events.take(k));
        }
        lemma_lock_holds_action(anim, player, prefix);
        if prefix.len() == 0 {
            assert(events.take(0) == prefix);
        }
        let before = run(anim, player, prefix);
        lemma_locked_step_keeps_action(before.0, before.1, events.last());
    }
}

/// The frame reached from `i` after `n` frame advances while `range` plays.
pub open spec fn frames_after(range: Animation, i: int, n: nat) -> int
    decreases n,
{
    if n == 0 {
        i
    } else {
        next_frame(range, frames_after(range, i, (n - 1) as nat))
    }
}

/// A finished animation restarts from the start of its range at the next
/// frame advance.
pub proof fn lemma_finished_restarts(anim: PlayerAnimation)
    requires
        anim.finished(),
    ensures
        anim.advanced(anim.current_index as int).current_index == anim.active_range().start,
{
}

/// Played from its start, a well-formed range reaches `start + k` after `k`
/// frame advances, for every `k` up to `end - start`.
proof fn lemma_cycle_prefix(range: Animation, k: nat)
    requires
        range.wf(),
        k <= range.end - range.start,
    ensures
        frames_after(range, range.start as int, k) == range.start + k,
    decreases k,
{
    if k > 0 {
        lemma_cycle_prefix(range, (k - 1) as nat);
    }
}

/// Played from its start, a well-formed range shows `start, start + 1, ...,
/// end` in turn, each frame once, and the advance after `end` returns to
/// `start`.
pub proof fn lemma_cycle(range: Animation, k: nat)
    requires
        range.wf(),
        k <= range.end - range.start,
    ensures
        frames_after(range, range.start as int, k) == range.start + k,
        frames_after(range, range.start as int, (range.end - range.start + 1) as nat)
            == range.start,
{
    lemma_cycle_prefix(range, k);
    lemma_cycle_prefix(range, (range.end - range.start) as nat);
}

} // verus!
