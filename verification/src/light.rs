//! The spotlight aiming step: once per tick the light is re-pointed from its
//! current world position toward the orbit target.
//!
//! The orientation is modelled by the world-space direction the light points
//! along; turning that direction into a local rotation relative to the camera
//! is the host's quaternion arithmetic and happens outside this crate.
//! Normalizing a near-zero vector is undefined, so a degenerate step keeps
//! the previous orientation instead of producing one: that is the guard
//! below.

use vstd::prelude::*;
use crate::units::COORD_LIMIT;
use crate::vec3::{Vec3, dist_sq, sub_spec};

verus! {

/// Squared-distance threshold under which the aiming step is skipped:
/// `1e-4` square world units at the `UNIT` coordinate scale.
pub const AIM_EPS_SQ: i128 = 100_000_000;

/// The spotlight's aiming state: the world-space direction it points along,
/// or `None` while it still has its spawn-time orientation.
#[derive(Clone, Copy, Debug, PartialEq, Eq)]
pub struct SpotAim {
    /// Last valid world-space aim direction (not normalized).
    pub aim: Option<Vec3>,
}

/// One aiming step: the new aim direction, or the old one when the light
/// sits at the target (squared distance at most [`AIM_EPS_SQ`]).
pub open spec fn aim_step(current: Option<Vec3>, light_world_pos: Vec3, target: Vec3) -> Option<
    Vec3,
> {
    if sub_spec(target, light_world_pos).norm_sq() > AIM_EPS_SQ {
        Some(sub_spec(target, light_world_pos))
    } else {
        current
    }
}

/// The world direction in which to aim the light, or `None` when the light
/// already sits at the target and the previous orientation must be kept.
pub fn aim_direction(light_world_pos: Vec3, target: Vec3) -> (dir: Option<Vec3>)
    requires
        light_world_pos.in_range(COORD_LIMIT as int),
        target.in_range(COORD_LIMIT as int),
    ensures
        sub_spec(target, light_world_pos).norm_sq() > AIM_EPS_SQ ==> dir == Some(
            sub_spec(target, light_world_pos),
        ),
        sub_spec(target, light_world_pos).norm_sq() <= AIM_EPS_SQ ==> dir is None,
{
    let d = dist_sq(target, light_world_pos);
    if d > AIM_EPS_SQ {
        Some(target.sub(light_world_pos))
    } else {
        None
    }
}

impl SpotAim {
    /// A light that still has its spawn-time orientation.
    pub fn unaimed() -> (s: SpotAim)
        ensures
            s.aim is None,
    {
        SpotAim { aim: None }
    }

    /// One per-tick aiming step. When the light sits at the target (squared
    /// distance at most [`AIM_EPS_SQ`]) the state is left unchanged — the
    /// orientation after the tick equals the orientation before it; otherwise
    /// the light points exactly along `target - light_world_pos` afterwards.
    pub fn update(&mut self, light_world_pos: Vec3, target: Vec3)
        requires
            light_world_pos.in_range(COORD_LIMIT as int),
            target.in_range(COORD_LIMIT as int),
        ensures
            final(self).aim == aim_step(old(self).aim, light_world_pos, target),
            sub_spec(target, light_world_pos).norm_sq() <= AIM_EPS_SQ ==> *final(self) == *old(
                self,
            ),
    {
        match aim_direction(light_world_pos, target) {
            Some(dir) => {
                self.aim = Some(dir);
            },
            None => {},
        }
    }
}

/// Light-aiming guard: whenever the light's world position coincides with the
/// target up to the threshold, one aiming step changes nothing, whatever the
/// current orientation is.
pub proof fn lemma_aim_guard(current: Option<Vec3>, light_world_pos: Vec3, target: Vec3)
    requires
        sub_spec(target, light_world_pos).norm_sq() <= AIM_EPS_SQ,
    ensures
        aim_step(current, light_world_pos, target) == current,
{
}

} // verus!
