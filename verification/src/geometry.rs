//! Axis-aligned boxes. `x` grows to the right and `y` grows downwards, so the
//! top edge of a box is `y` and its bottom edge is `y + h`.

use vstd::prelude::*;

verus! {

/// An axis-aligned rectangle.
#[derive(Clone, Copy, Debug, PartialEq, Eq, Structural)]
pub struct Box {
    pub w: i64,
    pub h: i64,
    pub x: i64,
    pub y: i64,
}

impl Box {
    /// A box has a positive width and a positive height.
    pub open spec fn wf(&self) -> bool {
        self.w > 0 && self.h > 0
    }

    /// The left edge.
    pub open spec fn spec_left(&self) -> int {
        self.x as int
    }

    /// The right edge.
    pub open spec fn spec_right(&self) -> int {
        self.x + self.w
    }

    /// The top edge.
    pub open spec fn spec_top(&self) -> int {
        self.y as int
    }

    /// The bottom edge.
    pub open spec fn spec_bot(&self) -> int {
        self.y + self.h
    }

    /// Two boxes intersect when their projections overlap on both axes,
    /// touching edges included.
    pub open spec fn spec_intersects(&self, other: &Box) -> bool {
        &&& self.spec_right() >= other.spec_left()
        &&& other.spec_right() >= self.spec_left()
        &&& self.spec_bot() >= other.spec_top()
        &&& other.spec_bot() >= self.spec_top()
    }

    /// A box of the given size at the given place.
    pub fn new(w: i64, h: i64, x: i64, y: i64) -> (r: Box)
        ensures
            r == (Box { w, h, x, y }),
    {
        Box { w, h, x, y }
    }

    /// The left edge.
    pub fn left(&self) -> (r: i64)
        ensures
            r == self.spec_left(),
    {
        self.x
    }

    /// The right edge, where it can be represented.
    pub fn right(&self) -> (r: i64)
        requires
            i64::MIN <= self.spec_right() <= i64::MAX,
        ensures
            r == self.spec_right(),
    {
        self.x + self.w
    }

    /// The bottom edge, where it can be represented.
    pub fn bot(&self) -> (r: i64)
        requires
            i64::MIN <= self.spec_bot() <= i64::MAX,
        ensures
            r == self.spec_bot(),
    {
        self.y + self.h
    }

    /// The top edge.
    pub fn top(&self) -> (r: i64)
        ensures
            r == self.spec_top(),
    {
        self.y
    }

    /// Whether the two boxes intersect. The edges are compared in a wider
    /// type, so the answer is right for all boxes.
    #[verifier::when_used_as_spec(spec_intersects)]
    pub fn intersects(&self, other: &Box) -> (r: bool)
        ensures
            r == self.spec_intersects(other),
    {
        let self_right: i128 = self.x as i128 + self.w as i128;
        let other_right: i128 = other.x as i128 + other.w as i128;
        let self_bot: i128 = self.y as i128 + self.h as i128;
        let other_bot: i128 = other.y as i128 + other.h as i128;
        self_right >= other.x as i128 && other_right >= self.x as i128
            && self_bot >= other.y as i128 && other_bot >= self.y as i128
    }
}

/// Intersection does not depend on which of the two boxes is asked.
pub proof fn lemma_intersects_symmetric(a: Box, b: Box)
    ensures
        a.spec_intersects(&b) == b.spec_intersects(&a),
{
}

} // verus!
