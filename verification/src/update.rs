//! The per-entity step of the per-frame update: smooth if a smoother is
//! attached, then publish into the scene transform -- but only while the
//! source look transform is enabled.

use vstd::prelude::*;

use crate::look_transform::LookTransform;
use crate::look_transform::converted;
use crate::look_transform::eye_look_at_target_transform;
use crate::smoother::Smoother;
use crate::smoother::smoothed;

verus! {

/// One frame's update for an entity that carries a smoother. The new look
/// transform is routed through the filter every frame -- the filter's state
/// advances even on a frame whose result is not published -- and only while
/// the source `look` is enabled is the smoothed pose written into
/// `scene_transform`. A disabled source leaves the scene transform exactly
/// as it was, freezing the rendered pose.
pub fn update_with_smoother(
    look: &LookTransform,
    smoother: &mut Smoother,
    scene_transform: &mut bevy::transform::components::Transform,
)
    ensures
        final(smoother).last_smoothed == Some(smoothed(*old(smoother), *look)),
        final(smoother).lag_weight == old(smoother).lag_weight,
        look.enabled ==> ({
            let eff = smoothed(*old(smoother), *look);
            *final(scene_transform) == converted(eff.eye, eff.target, eff.up)
        }),
        !look.enabled ==> *final(scene_transform) == *old(scene_transform),
{
    let effective_look_transform = smoother.smooth_transform(look);
    if look.enabled {
        *scene_transform = eye_look_at_target_transform(
            effective_look_transform.eye,
            effective_look_transform.target,
            effective_look_transform.up,
        );
    }
}

/// One frame's update for an entity without a smoother: while `look` is
/// enabled its pose is written into `scene_transform` verbatim; while it is
/// disabled the scene transform is left exactly as it was.
pub fn update_unsmoothed(
    look: &LookTransform,
    scene_transform: &mut bevy::transform::components::Transform,
)
    ensures
        look.enabled ==> *final(scene_transform) == converted(look.eye, look.target, look.up),
        !look.enabled ==> *final(scene_transform) == *old(scene_transform),
{
    if look.enabled {
        *scene_transform = eye_look_at_target_transform(look.eye, look.target, look.up);
    }
}

} // verus!
