//! Frame stepping of sprite-sheet animations.
//!
//! An animation plays one state (a row of a sprite sheet) through that row's
//! non-empty frames. How many frame steps elapse is decided by the caller's
//! clock; this module decides where each step lands: forward to the next
//! frame, back to the first when looping, or holding the last and reporting
//! that a one-shot animation has finished.

use vstd::prelude::*;

verus! {

/// Where an animation is in its current state.
#[derive(Clone, Copy, Debug, PartialEq, Eq, Structural)]
pub struct Playback {
    /// The current state (sprite-sheet row).
    pub row: u32,
    /// Index into the row's frame list of the frame shown.
    pub current: usize,
    /// Restart from the first frame at the end (else hold the last frame).
    pub looping: bool,
    /// `true` once a one-shot animation has shown its last frame.
    pub finished: bool,
}

/// The playback after one frame step through a row of `count` frames.
pub open spec fn stepped(p: Playback, count: int) -> Playback {
    if p.current + 1 < count {
        Playback { current: (p.current + 1) as usize, ..p }
    } else if p.looping {
        Playback { current: 0, ..p }
    } else {
        Playback { finished: true, ..p }
    }
}

impl Playback {
    /// Playback of `row` from its first frame.
    pub fn new(row: u32, looping: bool) -> (p: Self)
        ensures
            p == (Playback { row, current: 0, looping, finished: false }),
    {
        Playback { row, current: 0, looping, finished: false }
    }

    /// Restarts the current state from its first frame.
    pub fn reset(&mut self)
        ensures
            *final(self) == (Playback { current: 0, finished: false, ..*old(self) }),
    {
        self.current = 0;
        self.finished = false;
    }

    /// Switches to state `row`; a no-op if already in that state, so it is
    /// safe to call every frame. Changing rows restarts playback.
    pub fn set_state(&mut self, row: u32)
        ensures
            *final(self) == if row != old(self).row {
                Playback { row, current: 0, finished: false, ..*old(self) }
            } else {
                *old(self)
            },
    {
        if row != self.row {
            self.row = row;
            self.reset();
        }
    }

    /// Whether time can move this animation in a row of `count` frames: not
    /// once it has finished, and not when the row has at most one frame.
    pub fn can_advance(&self, count: usize) -> (b: bool)
        ensures
            b == (!self.finished && count > 1),
    {
        !self.finished && count > 1
    }

    /// One frame step through a row of `count` frames.
    pub fn advance(&mut self, count: usize)
        ensures
            *final(self) == stepped(*old(self), count as int),
    {
        if count > 0 && self.current < count - 1 {
            self.current = self.current + 1;
        } else if self.looping {
            self.current = 0;
        } else {
            self.finished = true;
        }
    }

    /// `true` once a one-shot animation has reached its last frame.
    pub fn is_finished(&self) -> (b: bool)
        ensures
            b == self.finished,
    {
        self.finished
    }

    /// Index of the frame currently shown in the active row.
    pub fn current_frame(&self) -> (i: usize)
        ensures
            i == self.current,
    {
        self.current
    }
}

/// A frame step keeps the shown frame inside the row, a looping animation
/// never finishes, and a finished one-shot stays on its last frame.
pub proof fn lemma_step_stays_in_row(p: Playback, count: int)
    requires
        p.current < count,
    ensures
        stepped(p, count).current < count,
        p.looping ==> !stepped(p, count).finished || p.finished,
        !p.looping && stepped(p, count).finished && !p.finished ==> p.current == count - 1
            && stepped(p, count).current == p.current,
        stepped(p, count).row == p.row,
{
}

} // verus!
