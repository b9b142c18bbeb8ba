//! The animation state machine: which frame range each action plays, how a
//! frame index advances, and when an action's animation has finished.
use vstd::prelude::*;

verus! {

/// What the character is doing; selects the frame range that plays.
#[derive(Clone, Copy, Debug, PartialEq, Eq, Structural)]
pub enum Action {
    Attack,
    Run,
    Idle,
}

/// A range of sprite-sheet frame indices, `start` and `end` both included.
#[derive(Clone, Copy, Debug, PartialEq, Eq, Structural)]
pub struct Animation {
    pub start: u32,
    pub end: u32,
}

/// Why a frame range was refused at setup.
#[derive(Clone, Copy, Debug, PartialEq, Eq, Structural)]
pub enum RangeError {
    /// The start lies after the end.
    Reversed,
    /// The end is not a frame of the sprite sheet.
    BeyondSheet,
}

/// The grid of a sprite sheet, in cells.
#[derive(Clone, Copy, Debug, PartialEq, Eq, Structural)]
pub struct SheetGrid {
    pub columns: u32,
    pub rows: u32,
}

impl SheetGrid {
    /// The number of frames on the sheet.
    pub open spec fn frames(self) -> int {
        self.columns * self.rows
    }

    /// The number of frames on the sheet.
    pub fn frame_count(&self) -> (r: u64)
        ensures
            r == self.frames(),
    {
        assert(self.columns * self.rows <= u32::MAX * u32::MAX) by (nonlinear_arith);
        self.columns as u64 * self.rows as u64
    }
}

impl Animation {
    /// A range is well formed when it is not reversed.
    pub open spec fn wf(self) -> bool {
        self.start <= self.end
    }

    /// Whether `i` lies in the range, both ends included.
    pub open spec fn contains(self, i: int) -> bool {
        self.start <= i <= self.end
    }

    /// A range checked against a sheet of `frame_count` frames: refused when
    /// reversed, or when its end is not an index of the sheet.
    pub fn new(start: u32, end: u32, frame_count: u64) -> (r: Result<Animation, RangeError>)
        ensures
            start > end ==> r == Err::<Animation, RangeError>(RangeError::Reversed),
            start <= end && end >= frame_count ==> r == Err::<Animation, RangeError>(
                RangeError::BeyondSheet,
            ),
            start <= end && end < frame_count ==> r == Ok::<Animation, RangeError>(
                Animation { start, end },
            ),
    {
        if start > end {
            Err(RangeError::Reversed)
        } else if end as u64 >= frame_count {
            Err(RangeError::BeyondSheet)
        } else {
            Ok(Animation { start, end })
        }
    }
}

/// The frame shown after `i` while `range` plays: the start again when `i` is
/// below the start or at or past the end, the next index otherwise.
pub open spec fn next_frame(range: Animation, i: int) -> int {
    if i < range.start || i >= range.end {
        range.start as int
    } else {
        i + 1
    }
}

/// Frames of the idle animation.
pub const IDLE_START: u32 = 4;
pub const IDLE_END: u32 = 6;
/// Frames of the run animation.
pub const RUN_START: u32 = 7;
pub const RUN_END: u32 = 12;
/// Frames of the attack animation.
pub const ATTACK_START: u32 = 0;
pub const ATTACK_END: u32 = 3;

/// The animation state of one character: the current action, the range of
/// each action, the lock that keeps an attack from being cut short, and the
/// frame index last shown.
#[derive(Clone, Copy, Debug, PartialEq, Eq, Structural)]
pub struct PlayerAnimation {
    pub current_action: Action,
    pub idle_animation: Animation,
    pub run_animation: Animation,
    pub attack_animation: Animation,
    pub animation_locked: bool,
    pub current_index: u32,
}

impl PlayerAnimation {
    /// The frame range that `action` plays.
    pub open spec fn range_of(self, action: Action) -> Animation {
        match action {
            Action::Idle => self.idle_animation,
            Action::Run => self.run_animation,
            Action::Attack => self.attack_animation,
        }
    }

    /// The frame range of the current action.
    pub open spec fn active_range(self) -> Animation {
        self.range_of(self.current_action)
    }

    /// Every range is well formed.
    pub open spec fn wf(self) -> bool {
        &&& self.idle_animation.wf()
        &&& self.run_animation.wf()
        &&& self.attack_animation.wf()
    }

    /// The active animation has reached the last frame of its range.
    pub open spec fn finished(self) -> bool {
        self.current_index == self.active_range().end
    }

    /// The state at spawn: idle, unlocked, at frame 0, with the standard ranges.
    pub fn new() -> (r: PlayerAnimation)
        ensures
            r.current_action == Action::Idle,
            r.idle_animation == (Animation { start: IDLE_START, end: IDLE_END }),
            r.run_animation == (Animation { start: RUN_START, end: RUN_END }),
            r.attack_animation == (Animation { start: ATTACK_START, end: ATTACK_END }),
            !r.animation_locked,
            r.current_index == 0,
            r == PlayerAnimation::new_spec(),
            r.wf(),
    {
        PlayerAnimation {
            current_action: Action::Idle,
            idle_animation: Animation { start: IDLE_START, end: IDLE_END },
            run_animation: Animation { start: RUN_START, end: RUN_END },
            attack_animation: Animation { start: ATTACK_START, end: ATTACK_END },
            animation_locked: false,
            current_index: 0,
        }
    }

    /// The frame range that `action` plays.
    pub fn range(&self, action: Action) -> (r: Animation)
        ensures
            r == self.range_of(action),
    {
        match action {
            Action::Idle => self.idle_animation,
            Action::Run => self.run_animation,
            Action::Attack => self.attack_animation,
        }
    }

    /// The frame to show after `current_index` under the current action.
    pub fn next_sprite(&self, current_index: u32) -> (r: u32)
        ensures
            r == next_frame(self.active_range(), current_index as int),
            current_index < self.active_range().start ==> r == self.active_range().start,
            current_index >= self.active_range().end ==> r == self.active_range().start,
            self.active_range().start <= current_index < self.active_range().end ==> r
                == current_index + 1,
    {
        let range = self.range(self.current_action);
        if current_index >= range.end || current_index < range.start {
            range.start
        } else {
            current_index + 1
        }
    }

    /// Whether the frame last shown is the end of the current action's range.
    pub fn animation_finished(&self) -> (r: bool)
        ensures
            r == self.finished(),
            r <==> self.current_index == self.active_range().end,
    {
        self.current_index == self.range(self.current_action).end
    }

    /// The state at spawn with the given ranges: idle, unlocked, at frame 0.
    pub fn from_ranges(idle: Animation, run: Animation, attack: Animation) -> (r: PlayerAnimation)
        ensures
            r.current_action == Action::Idle,
            r.idle_animation == idle,
            r.run_animation == run,
            r.attack_animation == attack,
            !r.animation_locked,
            r.current_index == 0,
    {
        PlayerAnimation {
            current_action: Action::Idle,
            idle_animation: idle,
            run_animation: run,
            attack_animation: attack,
            animation_locked: false,
            current_index: 0,
        }
    }

    /// The state at spawn with the standard ranges, each checked against
    /// `grid`. None of them is reversed, so the sheet is refused only when it
    /// has no cell for the last run frame, the highest of all.
    pub fn for_sheet(grid: &SheetGrid) -> (r: Result<PlayerAnimation, RangeError>)
        ensures
            grid.frames() > RUN_END ==> r == Ok::<PlayerAnimation, RangeError>(
                PlayerAnimation::new_spec(),
            ),
            grid.frames() <= RUN_END ==> r == Err::<PlayerAnimation, RangeError>(
                RangeError::BeyondSheet,
            ),
    {
        let frames = grid.frame_count();
        let idle = match Animation::new(IDLE_START, IDLE_END, frames) {
            Ok(a) => a,
            Err(e) => return Err(e),
        };
        let run = match Animation::new(RUN_START, RUN_END, frames) {
            Ok(a) => a,
            Err(e) => return Err(e),
        };
        let attack = match Animation::new(ATTACK_START, ATTACK_END, frames) {
            Ok(a) => a,
            Err(e) => return Err(e),
        };
        Ok(PlayerAnimation::from_ranges(idle, run, attack))
    }

    /// The value that `new` returns.
    pub open spec fn new_spec() -> PlayerAnimation {
        PlayerAnimation {
            current_action: Action::Idle,
            idle_animation: Animation { start: IDLE_START, end: IDLE_END },
            run_animation: Animation { start: RUN_START, end: RUN_END },
            attack_animation: Animation { start: ATTACK_START, end: ATTACK_END },
            animation_locked: false,
            current_index: 0,
        }
    }

    /// This state with the current action switched to `action`; the frame
    /// index is kept, and the next frame advance snaps it into the new range.
    pub open spec fn with_action(self, action: Action) -> PlayerAnimation {
        PlayerAnimation { current_action: action, ..self }
    }

    /// This state with the lock set to `locked`.
    pub open spec fn with_lock(self, locked: bool) -> PlayerAnimation {
        PlayerAnimation { animation_locked: locked, ..self }
    }

    /// This state after a frame advance from `shown`, the frame on screen.
    pub open spec fn advanced(self, shown: int) -> PlayerAnimation {
        PlayerAnimation { current_index: next_frame(self.active_range(), shown) as u32, ..self }
    }

    /// Switches the current action, keeping the frame index.
    pub fn set_action(&mut self, action: Action)
        ensures
            *final(self) == old(self).with_action(action),
            final(self).current_index == old(self).current_index,
    {
        self.current_action = action;
    }

    /// Locks the current action against changes from input.
    pub fn lock(&mut self)
        ensures
            *final(self) == old(self).with_lock(true),
    {
        self.animation_locked = true;
    }

    /// Releases the lock.
    pub fn unlock(&mut self)
        ensures
            *final(self) == old(self).with_lock(false),
    {
        self.animation_locked = false;
    }

    /// Whether input is kept from changing the current action.
    pub fn is_locked(&self) -> (r: bool)
        ensures
            r == self.animation_locked,
    {
        self.animation_locked
    }

    /// Advances one frame from `shown`, the frame on screen, records the new
    /// frame as the one last shown, and returns it.
    pub fn advance(&mut self, shown: u32) -> (r: u32)
        ensures
            *final(self) == old(self).advanced(shown as int),
            r == next_frame(old(self).active_range(), shown as int),
            r == final(self).current_index,
            old(self).wf() ==> final(self).active_range().contains(r as int),
    {
        let next = self.next_sprite(shown);
        self.current_index = next;
        next
    }
}

} // verus!
