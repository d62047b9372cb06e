//! Fixed-point scales and the bounds that keep every computation inside
//! `i128`.
//!
//! - Lengths, coordinates, speeds and seconds are scaled by [`UNIT`]:
//!   one world unit (or one radian per second, or one second) is `UNIT`.
//! - Angles are scaled by [`ANGLE_UNIT`] (= `UNIT * UNIT`): one radian is
//!   `ANGLE_UNIT`. Advancing an angle by `speed * dt` then needs no division.
//! - Cosines and sines handed in by the host are scaled by [`UNIT`].

use vstd::prelude::*;

verus! {

/// Fixed-point one for coordinates, radii, trigonometric values, angular
/// speeds (radians per second) and time deltas (seconds).
pub const UNIT: i128 = 1_000_000;

/// Fixed-point one radian for stored angles: `UNIT * UNIT`, so that the
/// product of a `UNIT`-scaled speed and a `UNIT`-scaled time delta is already
/// an `ANGLE_UNIT`-scaled angle.
pub const ANGLE_UNIT: i128 = 1_000_000_000_000;

/// Lower clamp bound for the pitch angle, 0.05 radians: keeps the camera away
/// from the poles where the look-at orientation would flip.
pub const PITCH_MIN: i128 = 50_000_000_000;

/// Upper clamp bound for the pitch angle, 1.2 radians.
pub const PITCH_MAX: i128 = 1_200_000_000_000;

/// Largest magnitude accepted for a world coordinate or a radius
/// (a billion world units): a machine limit so that products with two
/// trigonometric factors stay far inside `i128`.
pub const COORD_LIMIT: i128 = 1_000_000_000_000_000;

/// Largest magnitude accepted for a stored angle (about 10^18 radians,
/// unreachable in practice): a machine limit so that one more yaw step
/// cannot overflow.
pub const ANGLE_LIMIT: i128 = 1_000_000_000_000_000_000_000_000_000_000;

/// Largest accepted angular speed (a million radians per second).
pub const SPEED_LIMIT: i128 = 1_000_000_000_000;

/// Largest accepted time delta for one tick (a thousand seconds).
pub const DT_LIMIT: i128 = 1_000_000_000;

} // verus!
