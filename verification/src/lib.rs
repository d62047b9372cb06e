//! Core logic of a small 3D model viewer: an orbit camera circling a fixed
//! target, a spotlight that is re-aimed at that target every frame, and a
//! loading gate that moves the application from its loading screen into the
//! game screen exactly once.
//!
//! All quantities are fixed-point integers so that the arithmetic can be
//! verified exactly; the scales are defined in [`units`]. The host engine
//! (windowing, rendering, asset loading, trigonometry on the final angles)
//! lives outside this crate and exchanges plain scaled integers with it.
//!
//! Per-tick order, mirrored by the host loop: loading gate first (spawning the
//! rig on the one Loading -> Game transition), then the orbit update, then the
//! light aiming step, which reads the camera transform that the orbit update
//! just produced.

pub mod gate;
pub mod light;
pub mod orbit;
pub mod units;
pub mod vec3;
pub mod viewer;
