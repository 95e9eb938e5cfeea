use vstd::prelude::*;

verus! {

/// A vector of two unbounded integers: what a [`Vec2`] denotes in contracts.
pub struct IntVec2 {
    pub x: int,
    pub y: int,
}

impl IntVec2 {
    /// The vector with both components zero.
    pub open spec fn zero() -> IntVec2 {
        IntVec2 { x: 0, y: 0 }
    }

    /// Componentwise sum.
    pub open spec fn plus(self, rhs: IntVec2) -> IntVec2 {
        IntVec2 { x: self.x + rhs.x, y: self.y + rhs.y }
    }

    /// Componentwise difference.
    pub open spec fn minus(self, rhs: IntVec2) -> IntVec2 {
        IntVec2 { x: self.x - rhs.x, y: self.y - rhs.y }
    }

    /// The vector of the same length that points the opposite way.
    pub open spec fn negated(self) -> IntVec2 {
        IntVec2 { x: -self.x, y: -self.y }
    }
}

/// A vector of two machine integers.
#[derive(Clone, Copy, Debug, PartialEq, Eq, Hash, Structural)]
pub struct Vec2 {
    pub x: i64,
    pub y: i64,
}

impl View for Vec2 {
    type V = IntVec2;

    open spec fn view(&self) -> IntVec2 {
        IntVec2 { x: self.x as int, y: self.y as int }
    }
}

impl Vec2 {
    /// Builds the vector `(x, y)`.
    pub fn new(x: i64, y: i64) -> (v: Vec2)
        ensures
            v.x == x,
            v.y == y,
    {
        Vec2 { x, y }
    }
}

} // verus!
