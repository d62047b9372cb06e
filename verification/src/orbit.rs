//! The orbit rig: the camera's orbital parameters, the per-tick input update,
//! and the spherical-to-Cartesian transform that places the camera on a sphere
//! around its target.
//!
//! Trigonometric values of the stored angles cannot be computed here; the host
//! evaluates cosine and sine of `yaw` and `pitch` (as `UNIT`-scaled integers)
//! and hands them to [`camera_offset`] / [`OrbitCamera::camera_position`],
//! whose contracts are exact in those values.

use vstd::prelude::*;
use crate::units::{UNIT, PITCH_MIN, PITCH_MAX, COORD_LIMIT, ANGLE_LIMIT, SPEED_LIMIT, DT_LIMIT};
use crate::vec3::Vec3;

verus! {

/// Distance of the viewer's camera from its target: 900 world units.
pub const INITIAL_RADIUS: i128 = 900_000_000;

/// Azimuth the camera starts at: 0.7 radians.
pub const INITIAL_YAW: i128 = 700_000_000_000;

/// Polar angle the camera starts at: 0.4 radians.
pub const INITIAL_PITCH: i128 = 400_000_000_000;

/// Angular speed of the orbit: 1.5 radians per second.
pub const INITIAL_SPEED: i128 = 1_500_000;

/// Height of the look-at point: 200 world units up the Y axis.
pub const INITIAL_TARGET_Y: i128 = 200_000_000;

/// Orbital camera parameters: a camera on a sphere of radius `radius` around
/// `target`, at azimuth `yaw` and polar angle `pitch`, turning at `speed`.
#[derive(Clone, Copy, Debug, PartialEq, Eq, Structural)]
pub struct OrbitCamera {
    /// Distance from the target, `UNIT`-scaled world units. Fixed after creation.
    pub radius: i128,
    /// Azimuthal angle, `ANGLE_UNIT`-scaled radians. Drifts freely under input;
    /// no wraparound is needed since only its cosine and sine are consumed.
    pub yaw: i128,
    /// Polar angle, `ANGLE_UNIT`-scaled radians, clamped to
    /// `[PITCH_MIN, PITCH_MAX]` on every update to avoid gimbal flip.
    pub pitch: i128,
    /// Angular speed, `UNIT`-scaled radians per second. Fixed after creation.
    pub speed: i128,
    /// Look-at point in world space, `UNIT`-scaled. Fixed after creation.
    pub target: Vec3,
}

/// The signed yaw direction two held keys map to: the "increase" key
/// contributes `+1`, the "decrease" key `-1`, both held cancel to `0`.
pub open spec fn direction_of(increase_held: bool, decrease_held: bool) -> int {
    if increase_held && !decrease_held {
        1
    } else if decrease_held && !increase_held {
        -1
    } else {
        0
    }
}

/// An angle clamped into the pitch range.
pub open spec fn clamp_pitch_spec(pitch: int) -> int {
    if pitch < PITCH_MIN {
        PITCH_MIN as int
    } else if pitch > PITCH_MAX {
        PITCH_MAX as int
    } else {
        pitch
    }
}

/// Both values of a cosine/sine pair lie in `[-UNIT, UNIT]`.
pub open spec fn trig_ok(cos_v: int, sin_v: int) -> bool {
    &&& -UNIT <= cos_v <= UNIT
    &&& -UNIT <= sin_v <= UNIT
}

/// X offset of the camera from the target, in fine units (the coordinate
/// scale times `UNIT * UNIT`): `radius * cos(yaw) * cos(pitch)`.
pub open spec fn offset_x_spec(radius: int, cos_yaw: int, cos_pitch: int) -> int {
    radius * cos_yaw * cos_pitch
}

/// Y offset of the camera from the target, in fine units:
/// `radius * sin(pitch)`, widened by `UNIT` to match the other components.
pub open spec fn offset_y_spec(radius: int, sin_pitch: int) -> int {
    radius * sin_pitch * UNIT
}

/// Z offset of the camera from the target, in fine units:
/// `radius * sin(yaw) * cos(pitch)`.
pub open spec fn offset_z_spec(radius: int, sin_yaw: int, cos_pitch: int) -> int {
    radius * sin_yaw * cos_pitch
}

/// The signed yaw direction for the two held keys, exactly [`direction_of`].
pub fn direction_from_keys(increase_held: bool, decrease_held: bool) -> (d: i128)
    ensures
        d == direction_of(increase_held, decrease_held),
{
    if increase_held && !decrease_held {
        1
    } else if decrease_held && !increase_held {
        -1
    } else {
        0
    }
}

/// Clamps an angle into `[PITCH_MIN, PITCH_MAX]`: every pitch lies in that
/// range after the clamp step.
pub fn clamp_pitch(pitch: i128) -> (clamped: i128)
    ensures
        clamped == clamp_pitch_spec(pitch as int),
        PITCH_MIN <= clamped <= PITCH_MAX,
{
    if pitch < PITCH_MIN {
        PITCH_MIN
    } else if pitch > PITCH_MAX {
        PITCH_MAX
    } else {
        pitch
    }
}

/// Clamping is idempotent: a second clamp of an already clamped pitch changes
/// nothing.
pub proof fn lemma_clamp_idempotent(pitch: int)
    ensures
        clamp_pitch_spec(clamp_pitch_spec(pitch)) == clamp_pitch_spec(pitch),
{
}

impl OrbitCamera {
    /// Creation-time bounds: a positive, bounded radius, a bounded speed and
    /// target, and a yaw the machine can still represent.
    pub open spec fn params_ok(self) -> bool {
        &&& 0 < self.radius <= COORD_LIMIT
        &&& 0 <= self.speed <= SPEED_LIMIT
        &&& self.target.in_range(COORD_LIMIT as int)
        &&& -ANGLE_LIMIT <= self.yaw <= ANGLE_LIMIT
    }

    /// Well-formed: creation-time bounds plus the pitch invariant, which every
    /// update re-establishes.
    pub open spec fn wf(self) -> bool {
        &&& self.params_ok()
        &&& PITCH_MIN <= self.pitch <= PITCH_MAX
    }

    /// The rig the viewer creates when the game screen is entered.
    pub open spec fn initial_spec() -> OrbitCamera {
        OrbitCamera {
            radius: INITIAL_RADIUS,
            yaw: INITIAL_YAW,
            pitch: INITIAL_PITCH,
            speed: INITIAL_SPEED,
            target: Vec3 { x: 0, y: INITIAL_TARGET_Y, z: 0 },
        }
    }

    /// Builds the viewer's starting rig, well-formed and with exactly the
    /// documented parameters.
    pub fn initial() -> (rig: OrbitCamera)
        ensures
            rig == OrbitCamera::initial_spec(),
            rig.wf(),
    {
        OrbitCamera {
            radius: INITIAL_RADIUS,
            yaw: INITIAL_YAW,
            pitch: INITIAL_PITCH,
            speed: INITIAL_SPEED,
            target: Vec3 { x: 0, y: INITIAL_TARGET_Y, z: 0 },
        }
    }

    /// One per-tick parameter update: integrates the keyed yaw direction over
    /// `dt` seconds and re-clamps the pitch. Holding only the "increase" key
    /// moves `yaw` by exactly `speed * dt`, only the "decrease" key by exactly
    /// `-speed * dt`, both or neither leave it unchanged; `radius`, `speed`
    /// and `target` never change.
    pub fn apply_input(&mut self, increase_held: bool, decrease_held: bool, dt: i128)
        requires
            old(self).params_ok(),
            0 <= dt <= DT_LIMIT,
            old(self).yaw + old(self).speed * dt <= ANGLE_LIMIT,
            old(self).yaw - old(self).speed * dt >= -ANGLE_LIMIT,
        ensures
            increase_held && !decrease_held
                ==> final(self).yaw == old(self).yaw + old(self).speed * dt,
            decrease_held && !increase_held
                ==> final(self).yaw == old(self).yaw - old(self).speed * dt,
            increase_held == decrease_held ==> final(self).yaw == old(self).yaw,
            final(self).pitch == clamp_pitch_spec(old(self).pitch as int),
            final(self).radius == old(self).radius,
            final(self).speed == old(self).speed,
            final(self).target == old(self).target,
            final(self).wf(),
    {
        proof {
            assert(0 <= self.speed * dt <= SPEED_LIMIT * DT_LIMIT) by (nonlinear_arith)
                requires
                    0 <= self.speed <= SPEED_LIMIT,
                    0 <= dt <= DT_LIMIT,
            ;
        }
        let step: i128 = self.speed * dt;
        if increase_held && !decrease_held {
            self.yaw = self.yaw + step;
        } else if decrease_held && !increase_held {
            self.yaw = self.yaw - step;
        }
        self.pitch = clamp_pitch(self.pitch);
    }

    /// The camera's world position for the current parameters, in fine units
    /// (the coordinate scale of `target` times `UNIT * UNIT`): the target
    /// plus the spherical offset. `cos_yaw`/`sin_yaw` and
    /// `cos_pitch`/`sin_pitch` are the host-evaluated cosine and sine of
    /// `self.yaw` and `self.pitch`; the contract is exact in those values.
    pub fn camera_position(&self, cos_yaw: i128, sin_yaw: i128, cos_pitch: i128, sin_pitch: i128) -> (pos: Vec3)
        requires
            self.wf(),
            trig_ok(cos_yaw as int, sin_yaw as int),
            trig_ok(cos_pitch as int, sin_pitch as int),
        ensures
            pos.x == self.target.x * UNIT * UNIT
                + offset_x_spec(self.radius as int, cos_yaw as int, cos_pitch as int),
            pos.y == self.target.y * UNIT * UNIT
                + offset_y_spec(self.radius as int, sin_pitch as int),
            pos.z == self.target.z * UNIT * UNIT
                + offset_z_spec(self.radius as int, sin_yaw as int, cos_pitch as int),
    {
        let off = camera_offset(self.radius, cos_yaw, sin_yaw, cos_pitch, sin_pitch);
        proof {
            assert(-COORD_LIMIT * UNIT <= self.target.x * UNIT <= COORD_LIMIT * UNIT
                && -COORD_LIMIT * UNIT <= self.target.y * UNIT <= COORD_LIMIT * UNIT
                && -COORD_LIMIT * UNIT <= self.target.z * UNIT <= COORD_LIMIT * UNIT)
                by (nonlinear_arith)
                requires
                    -COORD_LIMIT <= self.target.x <= COORD_LIMIT,
                    -COORD_LIMIT <= self.target.y <= COORD_LIMIT,
                    -COORD_LIMIT <= self.target.z <= COORD_LIMIT,
                    0 <= UNIT,
            ;
            assert(-COORD_LIMIT * UNIT * UNIT <= (self.target.x * UNIT) * UNIT <= COORD_LIMIT
                * UNIT * UNIT && -COORD_LIMIT * UNIT * UNIT <= (self.target.y * UNIT) * UNIT
                <= COORD_LIMIT * UNIT * UNIT && -COORD_LIMIT * UNIT * UNIT <= (self.target.z
                * UNIT) * UNIT <= COORD_LIMIT * UNIT * UNIT) by (nonlinear_arith)
                requires
                    -COORD_LIMIT * UNIT <= self.target.x * UNIT <= COORD_LIMIT * UNIT,
                    -COORD_LIMIT * UNIT <= self.target.y * UNIT <= COORD_LIMIT * UNIT,
                    -COORD_LIMIT * UNIT <= self.target.z * UNIT <= COORD_LIMIT * UNIT,
                    0 <= UNIT,
            ;
        }
        Vec3 {
            x: self.target.x * UNIT * UNIT + off.x,
            y: self.target.y * UNIT * UNIT + off.y,
            z: self.target.z * UNIT * UNIT + off.z,
        }
    }
}

/// The camera's offset from its target for the given trigonometric values,
/// in fine units: the exact spherical-to-Cartesian conversion
/// `(radius * cos_yaw * cos_pitch, radius * sin_pitch * UNIT,
/// radius * sin_yaw * cos_pitch)` (right-handed, Y-up).
pub fn camera_offset(radius: i128, cos_yaw: i128, sin_yaw: i128, cos_pitch: i128, sin_pitch: i128) -> (off: Vec3)
    requires
        0 <= radius <= COORD_LIMIT,
        trig_ok(cos_yaw as int, sin_yaw as int),
        trig_ok(cos_pitch as int, sin_pitch as int),
    ensures
        off.x == offset_x_spec(radius as int, cos_yaw as int, cos_pitch as int),
        off.y == offset_y_spec(radius as int, sin_pitch as int),
        off.z == offset_z_spec(radius as int, sin_yaw as int, cos_pitch as int),
        off.in_range(COORD_LIMIT * UNIT * UNIT),
{
    proof {
        assert(-COORD_LIMIT * UNIT <= radius * cos_yaw <= COORD_LIMIT * UNIT) by (nonlinear_arith)
            requires
                0 <= radius <= COORD_LIMIT,
                -UNIT <= cos_yaw <= UNIT,
        ;
        assert(-COORD_LIMIT * UNIT <= radius * sin_yaw <= COORD_LIMIT * UNIT) by (nonlinear_arith)
            requires
                0 <= radius <= COORD_LIMIT,
                -UNIT <= sin_yaw <= UNIT,
        ;
        assert(-COORD_LIMIT * UNIT <= radius * sin_pitch <= COORD_LIMIT * UNIT) by (nonlinear_arith)
            requires
                0 <= radius <= COORD_LIMIT,
                -UNIT <= sin_pitch <= UNIT,
        ;
        assert(-COORD_LIMIT * UNIT * UNIT <= (radius * cos_yaw) * cos_pitch <= COORD_LIMIT * UNIT
            * UNIT) by (nonlinear_arith)
            requires
                -COORD_LIMIT * UNIT <= radius * cos_yaw <= COORD_LIMIT * UNIT,
                -UNIT <= cos_pitch <= UNIT,
        ;
        assert(-COORD_LIMIT * UNIT * UNIT <= (radius * sin_yaw) * cos_pitch <= COORD_LIMIT * UNIT
            * UNIT) by (nonlinear_arith)
            requires
                -COORD_LIMIT * UNIT <= radius * sin_yaw <= COORD_LIMIT * UNIT,
                -UNIT <= cos_pitch <= UNIT,
        ;
        assert(-COORD_LIMIT * UNIT * UNIT <= (radius * sin_pitch) * UNIT <= COORD_LIMIT * UNIT
            * UNIT) by (nonlinear_arith)
            requires
                -COORD_LIMIT * UNIT <= radius * sin_pitch <= COORD_LIMIT * UNIT,
                0 <= UNIT,
        ;
    }
    Vec3 {
        x: radius * cos_yaw * cos_pitch,
        y: radius * sin_pitch * UNIT,
        z: radius * sin_yaw * cos_pitch,
    }
}

/// The camera always lies on the sphere of radius `radius` around the target:
/// whenever the yaw and pitch cosine/sine pairs lie exactly on the
/// `UNIT`-scaled unit circle, the squared norm of the spherical offset is
/// exactly the square of the fine-unit radius.
pub proof fn lemma_offset_on_sphere(radius: int, cos_yaw: int, sin_yaw: int, cos_pitch: int, sin_pitch: int, off: Vec3)
    requires
        cos_yaw * cos_yaw + sin_yaw * sin_yaw == UNIT * UNIT,
        cos_pitch * cos_pitch + sin_pitch * sin_pitch == UNIT * UNIT,
        off.x == offset_x_spec(radius, cos_yaw, cos_pitch),
        off.y == offset_y_spec(radius, sin_pitch),
        off.z == offset_z_spec(radius, sin_yaw, cos_pitch),
    ensures
        off.norm_sq() == (radius * UNIT * UNIT) * (radius * UNIT * UNIT),
{
    let x: int = offset_x_spec(radius, cos_yaw, cos_pitch);
    let y: int = offset_y_spec(radius, sin_pitch);
    let z: int = offset_z_spec(radius, sin_yaw, cos_pitch);
    assert(x * x == (radius * radius) * ((cos_yaw * cos_yaw) * (cos_pitch * cos_pitch)))
        by (nonlinear_arith)
        requires
            x == radius * cos_yaw * cos_pitch,
    ;
    assert(y * y == (radius * radius) * ((sin_pitch * sin_pitch) * (UNIT * UNIT)))
        by (nonlinear_arith)
        requires
            y == radius * sin_pitch * UNIT,
    ;
    assert(z * z == (radius * radius) * ((sin_yaw * sin_yaw) * (cos_pitch * cos_pitch)))
        by (nonlinear_arith)
        requires
            z == radius * sin_yaw * cos_pitch,
    ;
    assert((radius * radius) * ((cos_yaw * cos_yaw) * (cos_pitch * cos_pitch)) + (radius * radius)
        * ((sin_yaw * sin_yaw) * (cos_pitch * cos_pitch)) + (radius * radius) * ((sin_pitch
        * sin_pitch) * (UNIT * UNIT)) == (radius * radius) * (((cos_yaw * cos_yaw) + (sin_yaw
        * sin_yaw)) * (cos_pitch * cos_pitch) + (sin_pitch * sin_pitch) * (UNIT * UNIT)))
        by (nonlinear_arith);
    assert(((cos_yaw * cos_yaw) + (sin_yaw * sin_yaw)) * (cos_pitch * cos_pitch) + (sin_pitch
        * sin_pitch) * (UNIT * UNIT) == (UNIT * UNIT) * (UNIT * UNIT)) by (nonlinear_arith)
        requires
            cos_yaw * cos_yaw + sin_yaw * sin_yaw == UNIT * UNIT,
            cos_pitch * cos_pitch + sin_pitch * sin_pitch == UNIT * UNIT,
    ;
    assert((radius * radius) * ((UNIT * UNIT) * (UNIT * UNIT)) == (radius * UNIT * UNIT) * (radius
        * UNIT * UNIT)) by (nonlinear_arith);
}

/// The tolerance form of the sphere law: when the yaw and pitch cosine/sine
/// pairs lie within `d1` and `d2` of the `UNIT`-scaled unit circle (as every
/// rounded pair handed in by the host does), the squared norm of the
/// spherical offset is within `radius^2 * (UNIT^2 * (d1 + d2) + d1 * d2)` of
/// the squared fine-unit radius.
pub proof fn lemma_offset_near_sphere(radius: int, cos_yaw: int, sin_yaw: int, cos_pitch: int, sin_pitch: int, d1: int, d2: int, off: Vec3)
    requires
        0 <= radius,
        0 <= d1,
        0 <= d2,
        -d1 <= cos_yaw * cos_yaw + sin_yaw * sin_yaw - UNIT * UNIT <= d1,
        -d2 <= cos_pitch * cos_pitch + sin_pitch * sin_pitch - UNIT * UNIT <= d2,
        off.x == offset_x_spec(radius, cos_yaw, cos_pitch),
        off.y == offset_y_spec(radius, sin_pitch),
        off.z == offset_z_spec(radius, sin_yaw, cos_pitch),
    ensures
        (radius * UNIT * UNIT) * (radius * UNIT * UNIT) - (radius * radius) * (UNIT * UNIT * (d1
            + d2) + d1 * d2) <= off.norm_sq(),
        off.norm_sq() <= (radius * UNIT * UNIT) * (radius * UNIT * UNIT) + (radius * radius)
            * (UNIT * UNIT * (d1 + d2) + d1 * d2),
{
    let x: int = offset_x_spec(radius, cos_yaw, cos_pitch);
    let y: int = offset_y_spec(radius, sin_pitch);
    let z: int = offset_z_spec(radius, sin_yaw, cos_pitch);
    let s1: int = cos_yaw * cos_yaw + sin_yaw * sin_yaw;
    let s2: int = cos_pitch * cos_pitch + sin_pitch * sin_pitch;
    let a: int = s1 * (cos_pitch * cos_pitch) + (sin_pitch * sin_pitch) * (UNIT * UNIT);
    // The squared norm factors as radius^2 times a, one component at a time.
    assert(x * x == (radius * radius) * ((cos_yaw * cos_yaw) * (cos_pitch * cos_pitch)))
        by (nonlinear_arith)
        requires
            x == radius * cos_yaw * cos_pitch,
    ;
    assert(y * y == (radius * radius) * ((sin_pitch * sin_pitch) * (UNIT * UNIT)))
        by (nonlinear_arith)
        requires
            y == radius * sin_pitch * UNIT,
    ;
    assert(z * z == (radius * radius) * ((sin_yaw * sin_yaw) * (cos_pitch * cos_pitch)))
        by (nonlinear_arith)
        requires
            z == radius * sin_yaw * cos_pitch,
    ;
    assert((radius * radius) * ((cos_yaw * cos_yaw) * (cos_pitch * cos_pitch)) + (radius * radius)
        * ((sin_pitch * sin_pitch) * (UNIT * UNIT)) + (radius * radius) * ((sin_yaw * sin_yaw)
        * (cos_pitch * cos_pitch)) == (radius * radius) * a) by (nonlinear_arith)
        requires
            s1 == cos_yaw * cos_yaw + sin_yaw * sin_yaw,
            a == s1 * (cos_pitch * cos_pitch) + (sin_pitch * sin_pitch) * (UNIT * UNIT),
    ;
    // The deviation of a from UNIT^4 splits along the two unit-circle errors.
    assert(a - (UNIT * UNIT) * (UNIT * UNIT) == (cos_pitch * cos_pitch) * (s1 - UNIT * UNIT)
        + (UNIT * UNIT) * (s2 - UNIT * UNIT)) by (nonlinear_arith)
        requires
            a == s1 * (cos_pitch * cos_pitch) + (sin_pitch * sin_pitch) * (UNIT * UNIT),
            s2 == cos_pitch * cos_pitch + sin_pitch * sin_pitch,
    ;
    assert(0 <= cos_pitch * cos_pitch && 0 <= sin_pitch * sin_pitch) by (nonlinear_arith);
    assert(cos_pitch * cos_pitch <= UNIT * UNIT + d2);
    assert(-((UNIT * UNIT + d2) * d1) <= (cos_pitch * cos_pitch) * (s1 - UNIT * UNIT) <= (UNIT
        * UNIT + d2) * d1) by (nonlinear_arith)
        requires
            0 <= cos_pitch * cos_pitch <= UNIT * UNIT + d2,
            -d1 <= s1 - UNIT * UNIT <= d1,
    ;
    assert(-((UNIT * UNIT) * d2) <= (UNIT * UNIT) * (s2 - UNIT * UNIT) <= (UNIT * UNIT) * d2)
        by (nonlinear_arith)
        requires
            -d2 <= s2 - UNIT * UNIT <= d2,
    ;
    assert((UNIT * UNIT + d2) * d1 + (UNIT * UNIT) * d2 == UNIT * UNIT * (d1 + d2) + d1 * d2)
        by (nonlinear_arith);
    // Multiply the bound on a through by the nonnegative radius^2.
    assert((radius * radius) * ((UNIT * UNIT) * (UNIT * UNIT) - (UNIT * UNIT * (d1 + d2) + d1
        * d2)) <= (radius * radius) * a <= (radius * radius) * ((UNIT * UNIT) * (UNIT * UNIT)
        + (UNIT * UNIT * (d1 + d2) + d1 * d2))) by (nonlinear_arith)
        requires
            0 <= radius,
            (UNIT * UNIT) * (UNIT * UNIT) - (UNIT * UNIT * (d1 + d2) + d1 * d2) <= a <= (UNIT
                * UNIT) * (UNIT * UNIT) + (UNIT * UNIT * (d1 + d2) + d1 * d2),
    ;
    assert((radius * radius) * ((UNIT * UNIT) * (UNIT * UNIT) - (UNIT * UNIT * (d1 + d2) + d1
        * d2)) == (radius * UNIT * UNIT) * (radius * UNIT * UNIT) - (radius * radius) * (UNIT
        * UNIT * (d1 + d2) + d1 * d2)) by (nonlinear_arith);
    assert((radius * radius) * ((UNIT * UNIT) * (UNIT * UNIT) + (UNIT * UNIT * (d1 + d2) + d1
        * d2)) == (radius * UNIT * UNIT) * (radius * UNIT * UNIT) + (radius * radius) * (UNIT
        * UNIT * (d1 + d2) + d1 * d2)) by (nonlinear_arith);
}

/// The camera transform is a pure function of `(yaw, pitch, radius, target)`:
/// recomputing it from unchanged parameters — and hence unchanged
/// trigonometric values — yields an identical transform.
pub proof fn lemma_transform_pure(a: OrbitCamera, b: OrbitCamera, cos_yaw: int, sin_yaw: int, cos_pitch: int, sin_pitch: int)
    requires
        a == b,
    ensures
        a.target.x * UNIT * UNIT + offset_x_spec(a.radius as int, cos_yaw, cos_pitch)
            == b.target.x * UNIT * UNIT + offset_x_spec(b.radius as int, cos_yaw, cos_pitch),
        a.target.y * UNIT * UNIT + offset_y_spec(a.radius as int, sin_pitch)
            == b.target.y * UNIT * UNIT + offset_y_spec(b.radius as int, sin_pitch),
        a.target.z * UNIT * UNIT + offset_z_spec(a.radius as int, sin_yaw, cos_pitch)
            == b.target.z * UNIT * UNIT + offset_z_spec(b.radius as int, sin_yaw, cos_pitch),
{
}

} // verus!
