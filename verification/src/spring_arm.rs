//! The spring arm: a camera that follows a pivot at a set distance and is
//! pulled closer when something stands in between.
//!
//! Each frame runs three steps in this order. The cast is configured from the
//! arm whenever the arm changed. The cast is aimed from the camera's
//! transform whenever the transform changed. Then the hits that the caster
//! reported are read and the camera is placed. The caster answers a request
//! with the hits of the cast it was asked for before, so an obstruction shows
//! in the placement one frame after the cast that met it.

use crate::scalar::{Scalar, Vec3};
use vstd::prelude::*;

verus! {

/// The configuration of a spring arm. `F` is the filter that says which
/// colliders a cast may hit; it is handed on to the caster and never looked
/// into.
pub struct CameraSpringArm<F> {
    /// The distance at which the camera follows when nothing is in the way.
    pub distance: Scalar,
    /// Reserved; no step reads it.
    pub yaw: Scalar,
    /// Reserved; no step reads it.
    pub pitch: Scalar,
    /// Reserved; no step reads it.
    pub camera_yaw: Scalar,
    /// Reserved; no step reads it.
    pub camera_pitch: Scalar,
    /// Reserved; no step reads it.
    pub camera_roll: Scalar,
    /// The radius of the ball that probes for obstructions.
    pub camera_radius: Scalar,
    pub query_filter: F,
}

/// A request to the caster: sweep a ball from `origin` along `direction`.
pub struct ShapeCaster<F> {
    /// The radius of the ball that is swept.
    pub shape_radius: Scalar,
    pub origin: Vec3,
    pub direction: Vec3,
    /// How far the ball travels at most.
    pub max_time_of_impact: Scalar,
    /// How many hits the caster reports at most.
    pub max_hits: u32,
    pub query_filter: F,
}

/// Where the camera goes: `time_of_impact` along `direction`.
#[derive(Clone, Copy, Debug, PartialEq, Eq, Structural)]
pub struct Placement {
    pub direction: Vec3,
    pub time_of_impact: Scalar,
}

/// The distance of the nearest hit, which the caster reports first, or the
/// unobstructed distance when it reports none.
pub open spec fn follow_distance(hits: Seq<Scalar>, distance: Scalar) -> Scalar {
    if hits.len() > 0 {
        hits[0]
    } else {
        distance
    }
}

/// Configures the cast from the arm: the ball gets the probe radius, travels
/// no farther than the arm is long, reports one hit at most and uses a copy
/// of the arm's filter. Where the cast starts and where it points stays.
pub fn update_camera_spring_arm_shape_raycaster<F: Clone>(
    shape_caster: &mut ShapeCaster<F>,
    camera: &CameraSpringArm<F>,
)
    ensures
        final(shape_caster).max_time_of_impact == camera.distance,
        final(shape_caster).shape_radius == camera.camera_radius,
        final(shape_caster).max_hits == 1,
        cloned(camera.query_filter, final(shape_caster).query_filter),
        final(shape_caster).origin == old(shape_caster).origin,
        final(shape_caster).direction == old(shape_caster).direction,
{
    shape_caster.query_filter = camera.query_filter.clone();
    shape_caster.max_time_of_impact = camera.distance;
    shape_caster.shape_radius = camera.camera_radius;
    shape_caster.max_hits = 1;
}

/// Aims the cast from the camera's transform: it starts at the negated
/// position and points against the camera's forward direction. Nothing else
/// of the cast changes.
pub fn update_camera_spring_arm_shape_caster_transform<F>(
    shape_caster: &mut ShapeCaster<F>,
    position: Vec3,
    forward: Vec3,
)
    ensures
        final(shape_caster).origin == position.negated(),
        final(shape_caster).direction == forward.negated(),
        final(shape_caster).shape_radius == old(shape_caster).shape_radius,
        final(shape_caster).max_time_of_impact == old(shape_caster).max_time_of_impact,
        final(shape_caster).max_hits == old(shape_caster).max_hits,
        final(shape_caster).query_filter == old(shape_caster).query_filter,
{
    shape_caster.origin = position.negated();
    shape_caster.direction = forward.negated();
}

/// Places the camera from the reported hits, which come nearest first: along
/// the direction of the cast, at the distance of the first hit, or at the
/// arm's own distance when nothing was hit.
pub fn update_camera_spring_arm<F>(
    camera: &CameraSpringArm<F>,
    shape_caster: &ShapeCaster<F>,
    hits: &Vec<Scalar>,
) -> (placement: Placement)
    ensures
        placement.direction == shape_caster.direction,
        placement.time_of_impact == follow_distance(hits@, camera.distance),
{
    let time_of_impact = if hits.len() > 0 {
        hits[0]
    } else {
        camera.distance
    };
    Placement { direction: shape_caster.direction, time_of_impact }
}

} // verus!
