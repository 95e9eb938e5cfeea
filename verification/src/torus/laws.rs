use crate::torus::axis::{
    lemma_shortest_bound, lemma_shortest_is_minimal, lemma_shortest_negation, lemma_wrap_in_range,
    magnitude,
};
use crate::torus::camera::CameraView;
use crate::torus::position::TorusPoint;
use crate::vector::IntVec2;
use vstd::prelude::*;

verus! {

/// Canonical range: normalizing any raw coordinate on a world of positive
/// extent gives a coordinate within `[0, world_size]` along both axes.
pub proof fn lemma_from_world_in_range(pos: IntVec2, world_size: IntVec2)
    requires
        world_size.x > 0,
        world_size.y > 0,
    ensures
        TorusPoint::from_world(pos, world_size).wf(),
        TorusPoint::from_world(pos, world_size).world_size == world_size,
{
    lemma_wrap_in_range(pos.x, world_size.x);
    lemma_wrap_in_range(pos.y, world_size.y);
}

/// A canonical coordinate is left as it is by normalizing.
pub proof fn lemma_from_world_keeps_canonical(p: TorusPoint)
    requires
        p.wf(),
    ensures
        TorusPoint::from_world(p.pos, p.world_size) == p,
{
}

/// Idempotence: normalizing the coordinate of a normalized position gives
/// the same position again.
pub proof fn lemma_from_world_idempotent(pos: IntVec2, world_size: IntVec2)
    requires
        world_size.x > 0,
        world_size.y > 0,
    ensures
        TorusPoint::from_world(TorusPoint::from_world(pos, world_size).pos, world_size)
            == TorusPoint::from_world(pos, world_size),
{
    lemma_from_world_in_range(pos, world_size);
    lemma_from_world_keeps_canonical(TorusPoint::from_world(pos, world_size));
}

/// Antisymmetry: the delta from `a` to `b` is the negated delta from `b` to
/// `a`, for any two positions of the same world.
pub proof fn lemma_delta_antisymmetric(a: TorusPoint, b: TorusPoint)
    requires
        a.same_world(b),
    ensures
        a.delta_to(b) == b.delta_to(a).negated(),
{
    lemma_shortest_negation(a.pos.x - b.pos.x, a.world_size.x);
    lemma_shortest_negation(a.pos.y - b.pos.y, a.world_size.y);
}

/// Shortest-path bound: along each axis the delta between two positions of
/// the same world covers at most half the world size.
pub proof fn lemma_delta_within_half_world(a: TorusPoint, b: TorusPoint)
    requires
        a.wf(),
        b.wf(),
        a.same_world(b),
    ensures
        2 * magnitude(a.delta_to(b).x) <= a.world_size.x,
        2 * magnitude(a.delta_to(b).y) <= a.world_size.y,
        magnitude(a.delta_to(b).x) <= a.world_size.x / 2,
        magnitude(a.delta_to(b).y) <= a.world_size.y / 2,
{
    lemma_shortest_bound(b.pos.x - a.pos.x, a.world_size.x);
    lemma_shortest_bound(b.pos.y - a.pos.y, a.world_size.y);
}

/// The delta is a shortest path: no displacement that leads from `a` to a
/// copy of `b`, `kx` and `ky` periods away, is shorter along either axis.
pub proof fn lemma_delta_is_shortest(a: TorusPoint, b: TorusPoint, kx: int, ky: int)
    requires
        a.wf(),
        b.wf(),
        a.same_world(b),
    ensures
        magnitude(a.delta_to(b).x) <= magnitude(b.pos.x - a.pos.x + kx * a.world_size.x),
        magnitude(a.delta_to(b).y) <= magnitude(b.pos.y - a.pos.y + ky * a.world_size.y),
{
    lemma_shortest_is_minimal(b.pos.x - a.pos.x, a.world_size.x, kx);
    lemma_shortest_is_minimal(b.pos.y - a.pos.y, a.world_size.y, ky);
}

/// The delta from a position to itself is zero.
pub proof fn lemma_delta_to_self(a: TorusPoint)
    requires
        a.wf(),
    ensures
        a.delta_to(a) == IntVec2::zero(),
{
}

/// Shift consistency: shifting a position by `delta` is normalizing its
/// coordinate plus `delta` on the same world, and gives a canonical position.
pub proof fn lemma_shifted_is_from_world(p: TorusPoint, delta: IntVec2)
    requires
        p.wf(),
    ensures
        p.shifted(delta) == TorusPoint::from_world(p.pos.plus(delta), p.world_size),
        p.shifted(delta).wf(),
        p.shifted(delta).same_world(p),
{
    lemma_from_world_in_range(p.pos.plus(delta), p.world_size);
}

/// A projected position lies within half a world of the camera's center and
/// is the position itself or its copy one period away.
pub proof fn lemma_project_near_center(camera: CameraView, position: TorusPoint)
    requires
        camera.center.wf(),
        position.wf(),
        camera.center.same_world(position),
    ensures
        2 * magnitude(camera.project(position).x - camera.center.pos.x) <= position.world_size.x,
        2 * magnitude(camera.project(position).y - camera.center.pos.y) <= position.world_size.y,
        camera.project(position).x == position.pos.x
            || camera.project(position).x == position.pos.x - position.world_size.x
            || camera.project(position).x == position.pos.x + position.world_size.x,
        camera.project(position).y == position.pos.y
            || camera.project(position).y == position.pos.y - position.world_size.y
            || camera.project(position).y == position.pos.y + position.world_size.y,
{
    lemma_delta_within_half_world(camera.center, position);
}

} // verus!
