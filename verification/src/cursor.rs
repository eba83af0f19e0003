//! The mathematical model of a playback position and of one frame step.

use vstd::prelude::*;

verus! {

/// Where a playback stands: how many frames the strip has, which one is
/// shown, and in which direction the next step goes.
pub struct Cursor {
    /// Number of cells in the strip.
    pub frame_count: nat,
    /// Index of the cell that is shown.
    pub current_frame: nat,
    /// `false` while moving towards higher indices, `true` while moving back.
    pub is_reversed: bool,
}

impl Cursor {
    /// The shown frame is one of the strip's cells. In particular the strip
    /// has at least one cell.
    pub open spec fn wf(self) -> bool {
        self.current_frame < self.frame_count
    }

    /// The position every playback starts from: first frame, moving forwards.
    pub open spec fn start(frame_count: nat) -> Cursor {
        Cursor { frame_count, current_frame: 0, is_reversed: false }
    }

    /// One frame step.
    ///
    /// Moving forwards, the index goes up by one; when that would leave the
    /// strip, the index stays on the last cell and the direction turns.
    /// Moving backwards, the index goes down by one, never below zero; when
    /// it arrives at zero the direction turns forwards again.
    pub open spec fn step(self) -> Cursor {
        if !self.is_reversed {
            if self.current_frame + 1 >= self.frame_count {
                Cursor {
                    frame_count: self.frame_count,
                    current_frame: (self.frame_count - 1) as nat,
                    is_reversed: true,
                }
            } else {
                Cursor {
                    frame_count: self.frame_count,
                    current_frame: self.current_frame + 1,
                    is_reversed: false,
                }
            }
        } else {
            if self.current_frame <= 1 {
                Cursor { frame_count: self.frame_count, current_frame: 0, is_reversed: false }
            } else {
                Cursor {
                    frame_count: self.frame_count,
                    current_frame: (self.current_frame - 1) as nat,
                    is_reversed: true,
                }
            }
        }
    }

    /// One tick of the animation clock: a frame step if the time for one
    /// frame has run out, and no change if it has not. A tick never takes
    /// more than one step, however much time it stands for.
    pub open spec fn tick(self, period_elapsed: bool) -> Cursor {
        if period_elapsed {
            self.step()
        } else {
            self
        }
    }

    /// `n` frame steps, one after another.
    pub open spec fn steps(self, n: nat) -> Cursor
        decreases n,
    {
        if n == 0 {
            self
        } else {
            self.steps((n - 1) as nat).step()
        }
    }
}

} // verus!
