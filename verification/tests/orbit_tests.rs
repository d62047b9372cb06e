//! Tests for the orbit rig: pitch clamping, key-direction mapping, the
//! spherical-to-Cartesian transform and its sphere property.

use orbit_viewer::orbit::{
    camera_offset, clamp_pitch, direction_from_keys, OrbitCamera, INITIAL_PITCH, INITIAL_RADIUS,
    INITIAL_SPEED, INITIAL_TARGET_Y, INITIAL_YAW,
};
use orbit_viewer::units::{ANGLE_UNIT, PITCH_MAX, PITCH_MIN, UNIT};
use orbit_viewer::vec3::Vec3;

/// `UNIT`-scaled cosine and sine of an `ANGLE_UNIT`-scaled angle, rounded to
/// the nearest fixed-point value, as the host hands them to the library.
fn trig_of(angle: i128) -> (i128, i128) {
    let radians = angle as f64 / ANGLE_UNIT as f64;
    let c = (radians.cos() * UNIT as f64).round() as i128;
    let s = (radians.sin() * UNIT as f64).round() as i128;
    (c, s)
}

#[test]
fn clamp_keeps_pitch_in_range() {
    assert_eq!(clamp_pitch(0), PITCH_MIN);
    assert_eq!(clamp_pitch(-3 * ANGLE_UNIT), PITCH_MIN);
    assert_eq!(clamp_pitch(PITCH_MIN), PITCH_MIN);
    assert_eq!(clamp_pitch(400_000_000_000), 400_000_000_000);
    assert_eq!(clamp_pitch(PITCH_MAX), PITCH_MAX);
    assert_eq!(clamp_pitch(2 * ANGLE_UNIT), PITCH_MAX);
}

#[test]
fn direction_mapping() {
    assert_eq!(direction_from_keys(true, false), 1);
    assert_eq!(direction_from_keys(false, true), -1);
    assert_eq!(direction_from_keys(true, true), 0);
    assert_eq!(direction_from_keys(false, false), 0);
}

#[test]
fn initial_rig_parameters() {
    let rig = OrbitCamera::initial();
    assert_eq!(rig.radius, 900 * UNIT);
    assert_eq!(rig.yaw, 700_000_000_000);
    assert_eq!(rig.pitch, 400_000_000_000);
    assert_eq!(rig.speed, 1_500_000);
    assert_eq!(rig.target, Vec3 { x: 0, y: 200 * UNIT, z: 0 });
}

#[test]
fn increase_key_adds_exactly_speed_dt() {
    let mut rig = OrbitCamera::initial();
    let dt = 250_000; // 0.25 s
    rig.apply_input(true, false, dt);
    assert_eq!(rig.yaw, INITIAL_YAW + INITIAL_SPEED * dt);
    assert_eq!(rig.pitch, INITIAL_PITCH);
    assert_eq!(rig.radius, INITIAL_RADIUS);
}

#[test]
fn decrease_key_subtracts_exactly_speed_dt() {
    let mut rig = OrbitCamera::initial();
    let dt = 1_000_000; // one second
    rig.apply_input(false, true, dt);
    assert_eq!(rig.yaw, INITIAL_YAW - INITIAL_SPEED * dt);
}

#[test]
fn both_or_neither_key_leaves_yaw_unchanged() {
    let mut rig = OrbitCamera::initial();
    rig.apply_input(true, true, 1_000_000);
    assert_eq!(rig.yaw, INITIAL_YAW);
    rig.apply_input(false, false, 1_000_000);
    assert_eq!(rig.yaw, INITIAL_YAW);
}

#[test]
fn out_of_range_pitch_is_clamped_by_the_update() {
    let mut rig = OrbitCamera::initial();
    rig.pitch = 0;
    rig.apply_input(false, false, 0);
    assert_eq!(rig.pitch, PITCH_MIN);
    rig.pitch = 3 * ANGLE_UNIT;
    rig.apply_input(false, false, 0);
    assert_eq!(rig.pitch, PITCH_MAX);
}

#[test]
fn offset_is_exact_spherical_to_cartesian() {
    // A 3-4-5 triple scaled to the unit circle: cos^2 + sin^2 == UNIT^2
    // exactly, so the offset must lie exactly on the sphere.
    let r = 5;
    let off = camera_offset(r, 600_000, 800_000, UNIT, 0);
    assert_eq!(off.x, 3_000_000_000_000);
    assert_eq!(off.y, 0);
    assert_eq!(off.z, 4_000_000_000_000);
    let norm_sq = off.x * off.x + off.y * off.y + off.z * off.z;
    let fine_r = r * UNIT * UNIT;
    assert_eq!(norm_sq, fine_r * fine_r);
}

#[test]
fn camera_stays_on_sphere_within_tolerance() {
    // Host-style rounded trig values: the distance from the target must match
    // the radius to well under the rounding error of one trig step.
    let rig = OrbitCamera::initial();
    let (cy, sy) = trig_of(rig.yaw);
    let (cp, sp) = trig_of(rig.pitch);
    let pos = rig.camera_position(cy, sy, cp, sp);
    let fine = UNIT as f64 * UNIT as f64 * UNIT as f64;
    let dx = pos.x as f64 / fine;
    let dy = pos.y as f64 / fine - 200.0;
    let dz = pos.z as f64 / fine;
    let dist = (dx * dx + dy * dy + dz * dz).sqrt();
    assert!((dist - 900.0).abs() < 1e-2, "distance {dist}");
}

#[test]
fn transform_is_pure() {
    let rig = OrbitCamera::initial();
    let (cy, sy) = trig_of(rig.yaw);
    let (cp, sp) = trig_of(rig.pitch);
    let first = rig.camera_position(cy, sy, cp, sp);
    let second = rig.camera_position(cy, sy, cp, sp);
    assert_eq!(first, second);
}

#[test]
fn scenario_yaw_zero_pitch_04_radius_900() {
    let rig = OrbitCamera {
        radius: 900 * UNIT,
        yaw: 0,
        pitch: 400_000_000_000,
        speed: INITIAL_SPEED,
        target: Vec3 { x: 0, y: 200 * UNIT, z: 0 },
    };
    let (cy, sy) = trig_of(rig.yaw);
    let (cp, sp) = trig_of(rig.pitch);
    let pos = rig.camera_position(cy, sy, cp, sp);
    let fine = UNIT as f64 * UNIT as f64 * UNIT as f64;
    let x = pos.x as f64 / fine;
    let y = pos.y as f64 / fine;
    let z = pos.z as f64 / fine;
    let expect_x = 900.0 * 0.4f64.cos();
    let expect_y = 200.0 + 900.0 * 0.4f64.sin();
    assert!((x - expect_x).abs() < 1e-2, "x {x} vs {expect_x}");
    assert!((y - expect_y).abs() < 1e-2, "y {y} vs {expect_y}");
    assert!(z.abs() < 1e-2, "z {z}");
}
