use crate::rng::gen_range_inclusive;
use crate::torus::axis::{magnitude, shortest, shortest_between, wrap, wrap_coord};
use crate::vector::{IntVec2, Vec2};
use rand::rngs::StdRng;
use vstd::prelude::*;

verus! {

/// A point of a torus world over unbounded integers: what a
/// [`PositionTorus`] denotes in contracts.
pub struct TorusPoint {
    /// The coordinate of the point.
    pub pos: IntVec2,
    /// The period of the world along each axis.
    pub world_size: IntVec2,
}

impl TorusPoint {
    /// The world has a positive extent along both axes and the coordinate is
    /// canonical: it lies in `[0, world_size]` along both.
    pub open spec fn wf(self) -> bool {
        &&& self.world_size.x > 0
        &&& self.world_size.y > 0
        &&& 0 <= self.pos.x <= self.world_size.x
        &&& 0 <= self.pos.y <= self.world_size.y
    }

    /// The canonical point for the raw coordinate `pos`: each axis is wrapped
    /// on its own.
    pub open spec fn from_world(pos: IntVec2, world_size: IntVec2) -> TorusPoint {
        TorusPoint {
            pos: IntVec2 { x: wrap(pos.x, world_size.x), y: wrap(pos.y, world_size.y) },
            world_size,
        }
    }

    /// The point at the raw coordinate `(0, 0)`.
    pub open spec fn zero(world_size: IntVec2) -> TorusPoint {
        TorusPoint::from_world(IntVec2::zero(), world_size)
    }

    /// Whether two points belong to worlds of the same extent. Only such
    /// points can be compared or combined.
    pub open spec fn same_world(self, other: TorusPoint) -> bool {
        self.world_size == other.world_size
    }

    /// The shortest displacement from `self` to `towards`: along each axis
    /// the raw difference, taken the other way round the torus where that
    /// way is strictly shorter.
    pub open spec fn delta_to(self, towards: TorusPoint) -> IntVec2 {
        IntVec2 {
            x: shortest(towards.pos.x - self.pos.x, self.world_size.x),
            y: shortest(towards.pos.y - self.pos.y, self.world_size.y),
        }
    }

    /// The shortest displacement from the zero point of the world to `self`.
    pub open spec fn as_dir(self) -> IntVec2 {
        TorusPoint::zero(self.world_size).delta_to(self)
    }

    /// The canonical point reached by moving `self` by `delta`.
    pub open spec fn shifted(self, delta: IntVec2) -> TorusPoint {
        TorusPoint::from_world(self.pos.plus(delta), self.world_size)
    }
}

/// A position on a torus.
///
/// The stored coordinate is always canonical for the stored world size.
#[derive(Clone, Copy, Debug, PartialEq, Eq, Structural)]
pub struct PositionTorus {
    pos: Vec2,
    world_size: Vec2,
}

impl View for PositionTorus {
    type V = TorusPoint;

    closed spec fn view(&self) -> TorusPoint {
        TorusPoint { pos: self.pos@, world_size: self.world_size@ }
    }
}

impl PositionTorus {
    /// Holds of every position that executable code can get hold of.
    #[verifier::type_invariant]
    pub open spec fn inv(self) -> bool {
        self@.wf()
    }

    /// Normalizes a position in the world to a torus.
    pub fn from_world(pos: Vec2, world_size: Vec2) -> (r: PositionTorus)
        requires
            world_size.x > 0,
            world_size.y > 0,
        ensures
            r@ == TorusPoint::from_world(pos@, world_size@),
            r@.wf(),
    {
        PositionTorus {
            pos: Vec2 {
                x: wrap_coord(pos.x as i128, world_size.x),
                y: wrap_coord(pos.y as i128, world_size.y),
            },
            world_size,
        }
    }

    /// The zero position.
    pub fn zero(world_size: Vec2) -> (r: PositionTorus)
        requires
            world_size.x > 0,
            world_size.y > 0,
        ensures
            r@ == TorusPoint::zero(world_size@),
            r@.pos == IntVec2::zero(),
            r@.wf(),
    {
        PositionTorus::from_world(Vec2 { x: 0, y: 0 }, world_size)
    }

    /// Get a random position on a torus of a given size: each coordinate is
    /// drawn from `0..=world_size` along its axis.
    pub fn random(rng: &mut StdRng, world_size: Vec2) -> (r: PositionTorus)
        requires
            world_size.x > 0,
            world_size.y > 0,
        ensures
            r@.world_size == world_size@,
            r@.wf(),
    {
        let x = gen_range_inclusive(rng, 0, world_size.x);
        let y = gen_range_inclusive(rng, 0, world_size.y);
        PositionTorus::from_world(Vec2 { x, y }, world_size)
    }

    /// The stored coordinate, which is canonical.
    pub fn to_world(self) -> (pos: Vec2)
        ensures
            pos@ == self@.pos,
            self@.wf(),
    {
        proof {
            use_type_invariant(&self);
        }
        self.pos
    }

    /// The extent of the world that the position belongs to.
    pub fn world_size(self) -> (size: Vec2)
        ensures
            size@ == self@.world_size,
            self@.wf(),
    {
        proof {
            use_type_invariant(&self);
        }
        self.world_size
    }

    /// Returns a delta from zero to `self`.
    pub fn as_dir(self) -> (d: Vec2)
        ensures
            d@ == self@.as_dir(),
    {
        proof {
            use_type_invariant(&self);
        }
        PositionTorus::zero(self.world_size).delta_to(self)
    }

    /// Shift a position in-place by the given delta.
    pub fn shift(&mut self, delta: Vec2)
        ensures
            final(self)@ == old(self)@.shifted(delta@),
            final(self)@.wf(),
    {
        *self = self.shifted(delta);
    }

    /// Return a position shifted by the given delta.
    pub fn shifted(self, delta: Vec2) -> (r: PositionTorus)
        ensures
            r@ == self@.shifted(delta@),
            r@.wf(),
    {
        proof {
            use_type_invariant(&self);
        }
        PositionTorus {
            pos: Vec2 {
                x: wrap_coord(self.pos.x as i128 + delta.x as i128, self.world_size.x),
                y: wrap_coord(self.pos.y as i128 + delta.y as i128, self.world_size.y),
            },
            world_size: self.world_size,
        }
    }

    /// Calculate the delta from `self` to `towards`.
    /// Practically a subtraction operator.
    ///
    /// The two positions must have the same `world_size`.
    pub fn delta_to(self, towards: PositionTorus) -> (d: Vec2)
        requires
            self@.same_world(towards@),
        ensures
            d@ == self@.delta_to(towards@),
            2 * magnitude(d@.x) <= self@.world_size.x,
            2 * magnitude(d@.y) <= self@.world_size.y,
    {
        proof {
            use_type_invariant(&self);
            use_type_invariant(&towards);
        }
        Vec2 {
            x: shortest_between(self.pos.x, towards.pos.x, self.world_size.x),
            y: shortest_between(self.pos.y, towards.pos.y, self.world_size.y),
        }
    }
}

} // verus!
