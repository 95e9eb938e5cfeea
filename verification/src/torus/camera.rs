use crate::torus::position::{PositionTorus, TorusPoint};
use crate::vector::{IntVec2, Vec2};
use vstd::prelude::*;

verus! {

/// A torus camera over unbounded integers: what a [`CameraTorus`] denotes in
/// contracts.
pub struct CameraView {
    /// The point that the camera looks at.
    pub center: TorusPoint,
    /// The vertical extent of the visible area.
    pub fov: int,
    /// The stored rotation.
    pub rotation: int,
}

impl CameraView {
    /// The coordinate of `position` in the unwrapped frame around the
    /// camera: the center's coordinate plus the shortest displacement from
    /// the center to `position`.
    pub open spec fn project(self, position: TorusPoint) -> IntVec2 {
        self.center.pos.plus(self.center.delta_to(position))
    }
}

/// A camera that exists on a torus space.
///
/// Use the [project](CameraTorus::project) method to get the position of an
/// object in a continuous frame around the camera.
#[derive(Clone, Copy, Debug, PartialEq, Eq, Structural)]
pub struct CameraTorus {
    /// The focal point of the camera.
    pub center: PositionTorus,
    /// The vertical extent of the visible area.
    pub fov: i64,
    /// The rotation of the camera. It is stored, and plays no part in
    /// projecting positions.
    pub rotation: i64,
}

impl View for CameraTorus {
    type V = CameraView;

    open spec fn view(&self) -> CameraView {
        CameraView {
            center: self.center@,
            fov: self.fov as int,
            rotation: self.rotation as int,
        }
    }
}

impl CameraTorus {
    /// Construct a new camera on a torus with the given size.
    pub fn new(fov: i64, world_size: Vec2) -> (camera: CameraTorus)
        requires
            world_size.x > 0,
            world_size.y > 0,
        ensures
            camera@.center == TorusPoint::zero(world_size@),
            camera@.fov == fov,
            camera@.rotation == 0,
    {
        CameraTorus { center: PositionTorus::zero(world_size), fov, rotation: 0 }
    }

    /// Project a world position to a position relative to the camera.
    /// The resulting position can be used to render the object.
    ///
    /// The position must belong to the world of the camera's center, and the
    /// projected coordinate must fit the integer type.
    pub fn project(&self, position: PositionTorus) -> (p: Vec2)
        requires
            self@.center.same_world(position@),
            self@.project(position@).x <= i64::MAX,
            self@.project(position@).y <= i64::MAX,
        ensures
            p@ == self@.project(position@),
    {
        let center = self.center.to_world();
        let delta = self.center.delta_to(position);
        proof {
            use_type_invariant(&position);
        }
        Vec2 { x: center.x + delta.x, y: center.y + delta.y }
    }
}

} // verus!
