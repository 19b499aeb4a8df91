//! The trusted boundary to `bevy`'s vector math.
//!
//! Verified code treats `Vec3` and `Transform` as opaque values: it carries
//! them, stores them, and compares them only in specifications. Every piece
//! of floating-point arithmetic lives behind one of the wrappers below, and
//! each wrapper's contract names its result with an uninterpreted spec
//! function, so the contracts of the verified callers can be exact without
//! restating floating-point behaviour.

use vstd::prelude::*;

verus! {

/// Declares `bevy::math::Vec3` so that vector values can flow through
/// verified code. The type is opaque here: verified code never looks inside
/// one.
#[verifier::external_type_specification]
#[verifier::external_body]
pub struct ExVec3(bevy::math::Vec3);

/// Declares `bevy::transform::components::Transform`, the renderable
/// position-plus-orientation representation that the per-frame update writes.
/// Opaque to verified code, which only ever stores whole values of it.
#[verifier::external_type_specification]
#[verifier::external_body]
pub struct ExTransform(bevy::transform::components::Transform);

/// Holds of the world-space up axis `(0, 1, 0)` and of no other value this
/// crate learns anything about.
pub uninterp spec fn is_unit_y(v: bevy::math::Vec3) -> bool;

/// Relies on the constant `bevy::math::Vec3::Y`: the world-space up axis
/// `(0, 1, 0)`, the default `up` for a newly built look transform.
#[verifier::external_body]
pub(crate) fn unit_y() -> (r: bevy::math::Vec3)
    ensures
        is_unit_y(r),
{
    bevy::math::Vec3::Y
}

/// The unit vector from `eye` toward `target`, or `None` when no finite unit
/// vector in that direction exists.
pub uninterp spec fn unit_toward(target: bevy::math::Vec3, eye: bevy::math::Vec3) -> Option<
    bevy::math::Vec3,
>;

/// Relies on `glam`'s `Vec3::try_normalize` applied to `target - eye`: the
/// result is the difference scaled to length one where that is possible, and
/// `None` where it is not -- in particular, a zero difference (coincident
/// points) has no direction and yields `None`. A pure function of its
/// arguments.
#[verifier::external_body]
pub(crate) fn try_unit_toward(target: bevy::math::Vec3, eye: bevy::math::Vec3) -> (r: Option<
    bevy::math::Vec3,
>)
    ensures
        r == unit_toward(target, eye),
        target == eye ==> r is None,
{
    (target - eye).try_normalize()
}

/// The unit vector from `eye` toward `target` where one exists, else the
/// fixed fallback direction `(0, 0, -1)`.
pub uninterp spec fn unit_toward_or_fallback(
    target: bevy::math::Vec3,
    eye: bevy::math::Vec3,
) -> bevy::math::Vec3;

/// Relies on `glam`'s `Vec3::normalize_or` applied to `target - eye`, with
/// `Vec3::NEG_Z` (the conventional camera forward axis) as the fallback: it
/// computes the same scaled difference as `try_normalize` and hands back the
/// fallback exactly where `try_normalize` yields `None`, so the two agree
/// whenever a unit direction exists. A pure function of its arguments.
#[verifier::external_body]
pub(crate) fn unit_toward_or_fallback_dir(
    target: bevy::math::Vec3,
    eye: bevy::math::Vec3,
) -> (r: bevy::math::Vec3)
    ensures
        r == unit_toward_or_fallback(target, eye),
        unit_toward(target, eye) matches Some(d) ==> r == d,
{
    (target - eye).normalize_or(bevy::math::Vec3::NEG_Z)
}

/// The transform positioned at `eye` whose forward axis points along `dir`,
/// with roll resolved against `up`.
pub uninterp spec fn facing_transform(
    eye: bevy::math::Vec3,
    dir: bevy::math::Vec3,
    up: bevy::math::Vec3,
) -> bevy::transform::components::Transform;

/// Relies on `bevy`'s `Transform::from_translation` and
/// `Transform::looking_at`: a transform placed at `eye` and rotated so that
/// its forward axis points toward the point one unit along `dir`, with roll
/// resolved against `up` (and an orthonormal basis guaranteed by
/// `looking_at`'s own degenerate-input fallbacks). A pure function of its
/// arguments.
#[verifier::external_body]
pub(crate) fn facing(
    eye: bevy::math::Vec3,
    dir: bevy::math::Vec3,
    up: bevy::math::Vec3,
) -> (r: bevy::transform::components::Transform)
    ensures
        r == facing_transform(eye, dir, up),
{
    let look_at = eye + dir;
    bevy::transform::components::Transform::from_translation(eye).looking_at(look_at, up)
}

/// The componentwise blend `prev * lag + toward * (1 - lag)`.
pub uninterp spec fn blended(
    prev: bevy::math::Vec3,
    toward: bevy::math::Vec3,
    lag: bevy::math::Vec3,
) -> bevy::math::Vec3;

/// Relies on `glam`'s componentwise `Mul`, `Sub` and `Add` on `Vec3` and on
/// the constant `Vec3::ONE`: the componentwise convex blend that keeps the
/// fraction `lag` of `prev` and takes the rest from `toward`. A pure
/// function of its arguments.
#[verifier::external_body]
pub(crate) fn blend(
    prev: bevy::math::Vec3,
    toward: bevy::math::Vec3,
    lag: bevy::math::Vec3,
) -> (r: bevy::math::Vec3)
    ensures
        r == blended(prev, toward, lag),
{
    prev * lag + toward * (bevy::math::Vec3::ONE - lag)
}

} // verus!
