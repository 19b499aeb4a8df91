//! A camera-rig "look transform": an eye position, a target point and an up
//! vector, smoothed across frames and converted into a renderable scene
//! transform once per frame.
//!
//! The decision logic -- when the smoothing filter blends and when it passes
//! a value through, what state it keeps, and when the per-frame update is
//! allowed to touch the scene transform -- is verified. The floating-point
//! vector arithmetic itself is `bevy`'s and stands behind the trusted
//! wrappers in [`bevy_api`].

mod bevy_api;
mod look_transform;
mod smoother;
mod update;

pub use update::update_unsmoothed;
pub use update::update_with_smoother;

pub use smoother::Smoother;
pub use smoother::lemma_blend_when_enabled;
pub use smoother::lemma_bypass_on_disable;
pub use smoother::lemma_first_call_pass_through;
pub use smoother::smoothed;

pub use look_transform::LookTransform;
pub use look_transform::converted;
pub use look_transform::eye_look_at_target_transform;

pub use bevy_api::blended;
pub use bevy_api::facing_transform;
pub use bevy_api::is_unit_y;
pub use bevy_api::unit_toward;
pub use bevy_api::unit_toward_or_fallback;
