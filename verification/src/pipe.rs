//! A pipe: an upper and a lower box with a gap between them, scrolling to
//! the left.

use vstd::prelude::*;
use crate::geometry::Box;
use crate::heights::HeightSource;
use crate::tuning::{
    FLY_AREA, MAX_UPPER_HEIGHT, MIN_UPPER_HEIGHT, PIPE_HEIGHT, PIPE_SHIFT, PIPE_WIDTH, REMOVE_X,
    SCALE, SPAWN_X,
};

verus! {

/// One obstacle. The bird has to fly through the gap between the two boxes.
#[derive(Clone, Copy, Debug, PartialEq, Eq, Structural)]
pub struct Pipe {
    pub upper_pipe: Box,
    pub lower_pipe: Box,
    pub passed: bool,
}

/// The heights of an upper box that leave room for the gap and for a lower
/// box.
pub open spec fn fits_fly_area(h: int) -> bool {
    0 < h < FLY_AREA - PIPE_HEIGHT
}

/// The heights from which the upper box of a randomly placed pipe is drawn.
pub open spec fn valid_upper_height(h: int) -> bool {
    MIN_UPPER_HEIGHT <= h <= MAX_UPPER_HEIGHT
}

impl Pipe {
    /// Both boxes have a positive height, the width of a pipe and the same
    /// horizontal position; the upper one hangs from the ceiling, the lower
    /// one stands on the floor, and the gap between them has the fixed height.
    pub open spec fn wf(&self) -> bool {
        &&& self.upper_pipe.wf()
        &&& self.lower_pipe.wf()
        &&& self.upper_pipe.x == self.lower_pipe.x
        &&& self.upper_pipe.w == PIPE_WIDTH
        &&& self.lower_pipe.w == PIPE_WIDTH
        &&& self.upper_pipe.y == 0
        &&& self.lower_pipe.spec_top() - self.upper_pipe.spec_bot() == PIPE_HEIGHT
        &&& self.lower_pipe.spec_bot() == FLY_AREA
    }

    /// The pipe that appears with an upper box of height `upper_h`: at the
    /// spawn position, not yet passed.
    pub open spec fn spawned(upper_h: i64) -> Pipe {
        Pipe {
            upper_pipe: Box { w: PIPE_WIDTH, h: upper_h, x: SPAWN_X, y: 0 },
            lower_pipe: Box {
                w: PIPE_WIDTH,
                h: (FLY_AREA - PIPE_HEIGHT - upper_h) as i64,
                x: SPAWN_X,
                y: (upper_h + PIPE_HEIGHT) as i64,
            },
            passed: false,
        }
    }

    /// The pipe one scroll step further to the left.
    pub open spec fn spec_shift(&self) -> Pipe {
        Pipe {
            upper_pipe: Box { x: (self.upper_pipe.x - PIPE_SHIFT) as i64, ..self.upper_pipe },
            lower_pipe: Box { x: (self.lower_pipe.x - PIPE_SHIFT) as i64, ..self.lower_pipe },
            passed: self.passed,
        }
    }

    /// Whether a box touches either half of the pipe.
    pub open spec fn spec_intersects(&self, other: &Box) -> bool {
        self.lower_pipe.spec_intersects(other) || self.upper_pipe.spec_intersects(other)
    }

    /// Whether the pipe has scrolled far enough beyond the left edge of the
    /// screen to be retired: its left edge has come to the retirement line,
    /// so that all of it is out of sight with some room to spare.
    pub open spec fn spec_removable(&self) -> bool {
        self.lower_pipe.spec_left() <= REMOVE_X
    }

    /// A new pipe whose gap is placed at random: the height of its upper box
    /// is the next one of the source, a whole number of units from the range
    /// of such heights.
    pub fn new(source: &mut HeightSource) -> (r: Pipe)
        ensures
            r.wf(),
            valid_upper_height(r.upper_pipe.h as int),
            r.upper_pipe.h % SCALE == 0,
            r == Pipe::spawned(r.upper_pipe.h),
    {
        let upper_h: i64 = source.next_height();
        Pipe::with_upper_height(upper_h)
    }

    /// A new pipe whose upper box has the given height.
    pub fn with_upper_height(upper_h: i64) -> (r: Pipe)
        requires
            fits_fly_area(upper_h as int),
        ensures
            r == Pipe::spawned(upper_h),
            r.wf(),
    {
        let lower_h: i64 = FLY_AREA - PIPE_HEIGHT - upper_h;
        let lower_y: i64 = upper_h + PIPE_HEIGHT;
        Pipe {
            upper_pipe: Box::new(PIPE_WIDTH, upper_h, SPAWN_X, 0),
            lower_pipe: Box::new(PIPE_WIDTH, lower_h, SPAWN_X, lower_y),
            passed: false,
        }
    }

    /// Scrolls both boxes one step to the left.
    pub fn shift(&mut self)
        requires
            old(self).upper_pipe.x - PIPE_SHIFT >= i64::MIN,
            old(self).lower_pipe.x - PIPE_SHIFT >= i64::MIN,
        ensures
            *final(self) == old(self).spec_shift(),
            final(self).upper_pipe.x == old(self).upper_pipe.x - PIPE_SHIFT,
            final(self).lower_pipe.x == old(self).lower_pipe.x - PIPE_SHIFT,
            old(self).wf() ==> final(self).wf(),
    {
        self.upper_pipe.x = self.upper_pipe.x - PIPE_SHIFT;
        self.lower_pipe.x = self.lower_pipe.x - PIPE_SHIFT;
    }

    /// Whether a box touches either half of the pipe.
    #[verifier::when_used_as_spec(spec_intersects)]
    pub fn intersects(&self, other: &Box) -> (r: bool)
        ensures
            r == self.spec_intersects(other),
    {
        self.lower_pipe.intersects(other) || self.upper_pipe.intersects(other)
    }

    /// Whether the pipe is to be retired.
    #[verifier::when_used_as_spec(spec_removable)]
    pub fn removable(&self) -> (r: bool)
        ensures
            r == self.spec_removable(),
    {
        self.lower_pipe.left() <= REMOVE_X
    }
}

/// A height that leaves room for the gap and for a lower box makes a well
/// formed pipe, and every height from which random pipes are drawn is such a
/// height.
pub proof fn lemma_valid_heights_fit(upper_h: i64)
    ensures
        valid_upper_height(upper_h as int) ==> fits_fly_area(upper_h as int),
        fits_fly_area(upper_h as int) ==> {
            &&& Pipe::spawned(upper_h).wf()
            &&& Pipe::spawned(upper_h).upper_pipe.h > 0
            &&& Pipe::spawned(upper_h).lower_pipe.h > 0
            &&& Pipe::spawned(upper_h).upper_pipe.h + PIPE_HEIGHT + Pipe::spawned(
                upper_h,
            ).lower_pipe.h == FLY_AREA
        },
{
}

} // verus!
