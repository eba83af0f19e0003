//! The executable playback state and its frame-advance operation.

use vstd::prelude::*;
use crate::cursor::Cursor;

verus! {

/// Why a playback could not be set up.
#[derive(Debug, Clone, Copy, PartialEq, Eq, Structural)]
pub enum ConfigError {
    /// The strip was said to have no frames at all.
    ZeroFrameCount,
}

/// The frame state of one animated sprite: which cell of the strip is shown
/// and in which direction playback is moving.
///
/// The shown frame always lies inside the strip. The fields are private so
/// that nothing but the operations below can change them.
#[derive(Debug, Clone, Copy, PartialEq, Eq, Structural)]
pub struct Playback {
    frame_count: usize,
    current_frame: usize,
    is_reversed: bool,
}

impl View for Playback {
    type V = Cursor;

    closed spec fn view(&self) -> Cursor {
        Cursor {
            frame_count: self.frame_count as nat,
            current_frame: self.current_frame as nat,
            is_reversed: self.is_reversed,
        }
    }
}

impl Playback {
    #[verifier::type_invariant]
    spec fn in_range(self) -> bool {
        self.current_frame < self.frame_count
    }

    /// A playback over a strip of `frame_count` cells, standing on the first
    /// cell and moving forwards. A strip without cells is rejected.
    pub fn new(frame_count: usize) -> (made: Result<Playback, ConfigError>)
        ensures
            match made {
                Ok(playback) => frame_count > 0 && playback@ == Cursor::start(frame_count as nat),
                Err(error) => frame_count == 0 && error == ConfigError::ZeroFrameCount,
            },
    {
        if frame_count == 0 {
            Err(ConfigError::ZeroFrameCount)
        } else {
            Ok(Playback { frame_count, current_frame: 0, is_reversed: false })
        }
    }

    /// Number of cells in the strip; at least one.
    pub fn frame_count(&self) -> (count: usize)
        ensures
            count == self@.frame_count,
            count >= 1,
    {
        proof {
            use_type_invariant(self);
        }
        self.frame_count
    }

    /// Index of the cell that is shown; always inside the strip.
    pub fn current_frame(&self) -> (frame: usize)
        ensures
            frame == self@.current_frame,
            frame < self@.frame_count,
    {
        proof {
            use_type_invariant(self);
        }
        self.current_frame
    }

    /// Whether playback is moving back towards the first cell.
    pub fn is_reversed(&self) -> (reversed: bool)
        ensures
            reversed == self@.is_reversed,
    {
        self.is_reversed
    }

    /// Takes one frame step: up while moving forwards, down while moving
    /// backwards, turning round at either end of the strip.
    pub fn advance(&mut self)
        ensures
            final(self)@ == old(self)@.step(),
            final(self)@.wf(),
    {
        proof {
            use_type_invariant(&*self);
        }
        if !self.is_reversed {
            let next: usize = self.current_frame + 1;
            if next >= self.frame_count {
                self.is_reversed = true;
            } else {
                self.current_frame = next;
            }
        } else {
            let previous: usize = if self.current_frame > 0 {
                self.current_frame - 1
            } else {
                0
            };
            self.current_frame = previous;
            if previous == 0 {
                self.is_reversed = false;
            }
        }
    }

    /// One tick of the animation clock. `period_elapsed` says whether the
    /// time for one frame has run out since the last step. If it has, exactly
    /// one frame step is taken, however long the tick was, and the result
    /// tells the caller to start timing the next frame from zero. If it has
    /// not, nothing changes.
    pub fn update(&mut self, period_elapsed: bool) -> (stepped: bool)
        ensures
            stepped == period_elapsed,
            final(self)@ == old(self)@.tick(period_elapsed),
            final(self)@.wf(),
    {
        if period_elapsed {
            self.advance();
        } else {
            proof {
                use_type_invariant(&*self);
            }
        }
        period_elapsed
    }
}

} // verus!
