//! Tests for the loading gate, the light-aiming guard, and the integrated
//! per-tick pipeline of the viewer.

use orbit_viewer::gate::Screen;
use orbit_viewer::light::{aim_direction, SpotAim, AIM_EPS_SQ};
use orbit_viewer::orbit::OrbitCamera;
use orbit_viewer::units::UNIT;
use orbit_viewer::vec3::{dist_sq, Vec3};
use orbit_viewer::viewer::Viewer;

#[test]
fn loading_persists_while_assets_are_pending() {
    let mut v = Viewer::new();
    assert_eq!(v.screen, Screen::Loading);
    for _ in 0..100 {
        let spawned = v.tick_gate(false);
        assert!(!spawned);
        assert_eq!(v.screen, Screen::Loading);
        assert!(v.rig.is_none());
    }
}

#[test]
fn first_true_reading_transitions_and_spawns_once() {
    let mut v = Viewer::new();
    for _ in 0..5 {
        assert!(!v.tick_gate(false));
    }
    let spawned = v.tick_gate(true);
    assert!(spawned);
    assert_eq!(v.screen, Screen::Game);
    assert_eq!(v.rig, Some(OrbitCamera::initial()));
    // A second true reading neither re-spawns nor leaves the game screen.
    let again = v.tick_gate(true);
    assert!(!again);
    assert_eq!(v.screen, Screen::Game);
    assert_eq!(v.rig, Some(OrbitCamera::initial()));
}

#[test]
fn aim_direction_points_at_target() {
    let light = Vec3 { x: 0, y: 50 * UNIT, z: 0 };
    let target = Vec3 { x: 0, y: 200 * UNIT, z: 0 };
    let dir = aim_direction(light, target);
    assert_eq!(dir, Some(Vec3 { x: 0, y: 150 * UNIT, z: 0 }));
}

#[test]
fn aim_guard_skips_degenerate_directions() {
    // Exactly at the target.
    assert_eq!(aim_direction(Vec3 { x: 7, y: 8, z: 9 }, Vec3 { x: 7, y: 8, z: 9 }), None);
    // On the threshold: squared distance == AIM_EPS_SQ still skips.
    let light = Vec3 { x: 0, y: 0, z: 0 };
    let target = Vec3 { x: 10_000, y: 0, z: 0 };
    assert_eq!(dist_sq(light, target), AIM_EPS_SQ);
    assert_eq!(aim_direction(light, target), None);
    // Just past the threshold the direction is produced.
    let target_past = Vec3 { x: 10_001, y: 0, z: 0 };
    assert!(dist_sq(light, target_past) > AIM_EPS_SQ);
    assert_eq!(aim_direction(light, target_past), Some(target_past));
}

#[test]
fn degenerate_aim_keeps_previous_orientation() {
    let mut s = SpotAim::unaimed();
    let target = Vec3 { x: 0, y: 200 * UNIT, z: 0 };
    // First a valid aim from below the target.
    s.update(Vec3 { x: 0, y: 50 * UNIT, z: 0 }, target);
    let before = s.aim;
    assert_eq!(before, Some(Vec3 { x: 0, y: 150 * UNIT, z: 0 }));
    // Then a tick with the light sitting at the target: unchanged.
    s.update(target, target);
    assert_eq!(s.aim, before);
}

#[test]
fn full_tick_pipeline() {
    let mut v = Viewer::new();
    // Orbit and aim run only after the loading gate has opened.
    assert!(v.tick_gate(true));
    let rig_before = v.rig.unwrap();
    v.tick_orbit(true, false, 500_000); // 0.5 s of the increase key
    let rig_after = v.rig.unwrap();
    assert_eq!(rig_after.yaw, rig_before.yaw + rig_before.speed * 500_000);
    assert_eq!(rig_after.target, rig_before.target);
    // The light, a child of the camera 50 units up, gets aimed at the target.
    v.tick_aim(Vec3 { x: 0, y: 250 * UNIT, z: 0 });
    assert_eq!(v.light.aim, Some(Vec3 { x: 0, y: -50 * UNIT, z: 0 }));
    // A degenerate light position leaves the aim unchanged.
    v.tick_aim(Vec3 { x: 0, y: 200 * UNIT, z: 0 });
    assert_eq!(v.light.aim, Some(Vec3 { x: 0, y: -50 * UNIT, z: 0 }));
}
