//! Exponential smoothing of a look transform across frames.

use vstd::prelude::*;

use crate::bevy_api::blend;
use crate::bevy_api::blended;
use crate::look_transform::LookTransform;

verus! {

/// Performs exponential smoothing on a `LookTransform`. Set the lag weight
/// between `0.0` and `1.0`, where higher is smoother.
///
/// Verified code treats vector values as opaque, so the lag weight is
/// carried as a splat vector -- the same weight in each lane -- and the
/// blend is computed componentwise.
pub struct Smoother {
    /// Fraction of the previous smoothed state retained each frame, as a
    /// splat vector. Meaningful smoothing needs every lane in `[0.0, 1.0)`;
    /// a weight outside that range is a caller error.
    pub lag_weight: bevy::math::Vec3,
    /// The previously emitted smoothed value; `None` before the first call.
    pub last_smoothed: Option<LookTransform>,
}

/// What one smoothing step emits: the new value verbatim on the first call
/// and whenever either side is disabled; otherwise the componentwise blend
/// of the previous eye and target toward the new ones, with `up` and
/// `enabled` taken verbatim from the new value.
pub open spec fn smoothed(s: Smoother, new_tfm: LookTransform) -> LookTransform {
    match s.last_smoothed {
        None => new_tfm,
        Some(prev) => if new_tfm.enabled && prev.enabled {
            LookTransform {
                eye: blended(prev.eye, new_tfm.eye, s.lag_weight),
                target: blended(prev.target, new_tfm.target, s.lag_weight),
                up: new_tfm.up,
                enabled: new_tfm.enabled,
            }
        } else {
            new_tfm
        },
    }
}

impl Smoother {
    /// A smoother with no previous state; its first call passes the input
    /// through unchanged.
    pub fn new(lag_weight: bevy::math::Vec3) -> (r: Self)
        ensures
            r.lag_weight == lag_weight,
            r.last_smoothed is None,
    {
        Self { lag_weight, last_smoothed: None }
    }

    /// Reconfigures the lag weight; the retained state is untouched.
    pub fn set_lag_weight(&mut self, lag_weight: bevy::math::Vec3)
        ensures
            final(self).lag_weight == lag_weight,
            final(self).last_smoothed == old(self).last_smoothed,
    {
        self.lag_weight = lag_weight;
    }

    /// One smoothing step: emits [`smoothed`] of the retained state and the
    /// new value, and stores the emitted value as the next step's baseline
    /// whichever branch was taken -- after a bypass the next blend starts
    /// from the bypassed value, so a jump made while disabled is not
    /// animated after re-enabling.
    pub fn smooth_transform(&mut self, new_tfm: &LookTransform) -> (r: LookTransform)
        ensures
            r == smoothed(*old(self), *new_tfm),
            final(self).last_smoothed == Some(r),
            final(self).lag_weight == old(self).lag_weight,
    {
        let lerp_tfm = match &self.last_smoothed {
            None => *new_tfm,
            Some(prev) => {
                if new_tfm.enabled && prev.enabled {
                    LookTransform {
                        eye: blend(prev.eye, new_tfm.eye, self.lag_weight),
                        target: blend(prev.target, new_tfm.target, self.lag_weight),
                        up: new_tfm.up,
                        enabled: new_tfm.enabled,
                    }
                } else {
                    *new_tfm
                }
            },
        };
        self.last_smoothed = Some(lerp_tfm);
        lerp_tfm
    }
}

/// Bypass on disable: when a previous smoothed value exists and either it or
/// the new value is disabled, a smoothing step returns the new value
/// unchanged -- every field, not only the positions.
pub proof fn lemma_bypass_on_disable(s: Smoother, prev: LookTransform, new_tfm: LookTransform)
    requires
        s.last_smoothed == Some(prev),
        !(prev.enabled && new_tfm.enabled),
    ensures
        smoothed(s, new_tfm) == new_tfm,
{
}

/// First-call pass-through: a freshly created smoother holds no previous
/// state, so its first smoothing step returns the new value unchanged.
pub proof fn lemma_first_call_pass_through(s: Smoother, new_tfm: LookTransform)
    requires
        s.last_smoothed is None,
    ensures
        smoothed(s, new_tfm) == new_tfm,
{
}

/// Blend formula: when a previous smoothed value exists and both sides are
/// enabled, a smoothing step blends eye and target componentwise by the lag
/// weight and takes `up` and `enabled` verbatim from the new value.
pub proof fn lemma_blend_when_enabled(s: Smoother, prev: LookTransform, new_tfm: LookTransform)
    requires
        s.last_smoothed == Some(prev),
        prev.enabled,
        new_tfm.enabled,
    ensures
        smoothed(s, new_tfm) == (LookTransform {
            eye: blended(prev.eye, new_tfm.eye, s.lag_weight),
            target: blended(prev.target, new_tfm.target, s.lag_weight),
            up: new_tfm.up,
            enabled: new_tfm.enabled,
        }),
{
}

} // verus!
