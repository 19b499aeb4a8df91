//! The look-transform value type and its conversion into a renderable
//! scene transform.

use vstd::prelude::*;

use crate::bevy_api::facing;
use crate::bevy_api::facing_transform;
use crate::bevy_api::is_unit_y;
use crate::bevy_api::try_unit_toward;
use crate::bevy_api::unit_toward;
use crate::bevy_api::unit_toward_or_fallback;
use crate::bevy_api::unit_toward_or_fallback_dir;
use crate::bevy_api::unit_y;

verus! {

/// An eye and the target it's looking at. Controllers mutate this value in
/// place of the scene's own transform, and the per-frame update keeps the
/// two in sync while `enabled` is set.
#[derive(Clone, Copy, Debug, PartialEq)]
pub struct LookTransform {
    /// World-space camera position.
    pub eye: bevy::math::Vec3,
    /// World-space point the camera faces.
    pub target: bevy::math::Vec3,
    /// Reference up vector; roll is resolved against it during conversion.
    pub up: bevy::math::Vec3,
    /// While false, the per-frame update leaves the scene transform alone.
    pub enabled: bool,
}

/// The renderable pose of a look transform: positioned at `eye` and facing
/// along the unit vector toward `target` -- or along the fixed fallback
/// direction when eye and target coincide -- with roll resolved against
/// `up`.
pub open spec fn converted(
    eye: bevy::math::Vec3,
    target: bevy::math::Vec3,
    up: bevy::math::Vec3,
) -> bevy::transform::components::Transform {
    facing_transform(eye, unit_toward_or_fallback(target, eye), up)
}

impl LookTransform {
    /// A look transform from `eye` to `target`, with the world up axis as
    /// the reference up vector, enabled from the start.
    pub fn new(eye: bevy::math::Vec3, target: bevy::math::Vec3) -> (r: Self)
        ensures
            r.eye == eye,
            r.target == target,
            is_unit_y(r.up),
            r.enabled,
    {
        Self { eye, target, up: unit_y(), enabled: true }
    }

    /// The unit vector from the eye toward the target, or `None` when the
    /// two coincide and no direction exists.
    pub fn look_direction(&self) -> (r: Option<bevy::math::Vec3>)
        ensures
            r == unit_toward(self.target, self.eye),
            self.target == self.eye ==> r is None,
    {
        try_unit_toward(self.target, self.eye)
    }
}

/// Builds the renderable pose for an eye looking at a target. The look
/// vector is kept a unit vector; when `eye` and `target` coincide the fixed
/// fallback direction is used in its place, so a degenerate input still
/// yields a well-defined pose.
pub fn eye_look_at_target_transform(
    eye: bevy::math::Vec3,
    target: bevy::math::Vec3,
    up: bevy::math::Vec3,
) -> (r: bevy::transform::components::Transform)
    ensures
        r == converted(eye, target, up),
{
    let look_vector = unit_toward_or_fallback_dir(target, eye);
    facing(eye, look_vector, up)
}

} // verus!
