//! The viewer itself: the loading gate, the orbit rig it spawns on the one
//! Loading -> Game transition, and the spotlight aim, advanced in that order
//! on every tick.

use vstd::prelude::*;
use crate::units::{COORD_LIMIT, ANGLE_LIMIT, DT_LIMIT};
use crate::vec3::Vec3;
use crate::orbit::{OrbitCamera, clamp_pitch_spec};
use crate::light::{SpotAim, aim_step};
use crate::gate::{Screen, gate_step, gate_spawns};

verus! {

/// The whole per-process state of the viewer core.
pub struct Viewer {
    /// Current screen; starts at `Loading`.
    pub screen: Screen,
    /// The camera rig, created exactly once, when the game screen is entered.
    pub rig: Option<OrbitCamera>,
    /// The spotlight's aiming state.
    pub light: SpotAim,
}

impl Viewer {
    /// Well-formed: the rig exists exactly on the game screen, and is itself
    /// well-formed.
    pub open spec fn wf(self) -> bool {
        &&& (self.screen is Game <==> self.rig is Some)
        &&& (self.rig matches Some(rig) ==> rig.wf())
    }

    /// A fresh viewer: loading screen, no rig, light still in its spawn-time
    /// orientation.
    pub fn new() -> (v: Viewer)
        ensures
            v.screen is Loading,
            v.rig is None,
            v.light.aim is None,
            v.wf(),
    {
        Viewer { screen: Screen::Loading, rig: None, light: SpotAim::unaimed() }
    }

    /// The loading-gate tick that runs first on every frame: while loading, polls the
    /// asset tracker's answer, and on the single Loading -> Game transition
    /// spawns the camera rig. Returns whether this tick spawned.
    pub fn tick_gate(&mut self, all_assets_done: bool) -> (spawned: bool)
        requires
            old(self).wf(),
        ensures
            final(self).wf(),
            spawned == gate_spawns(old(self).screen, all_assets_done),
            final(self).screen == gate_step(old(self).screen, all_assets_done),
            spawned ==> final(self).rig == Some(OrbitCamera::initial_spec()),
            spawned ==> final(self).light == old(self).light,
            !spawned ==> *final(self) == *old(self),
    {
        if self.screen == Screen::Loading && all_assets_done {
            self.screen = Screen::Game;
            self.rig = Some(OrbitCamera::initial());
            true
        } else {
            false
        }
    }

    /// The orbit update, second on every game-screen frame: integrates the
    /// held keys into the rig's yaw and re-clamps its pitch, leaving the
    /// screen and the light untouched.
    pub fn tick_orbit(&mut self, increase_held: bool, decrease_held: bool, dt: i128)
        requires
            old(self).wf(),
            old(self).screen is Game,
            0 <= dt <= DT_LIMIT,
            old(self).rig matches Some(rig) ==> rig.yaw + rig.speed * dt <= ANGLE_LIMIT
                && rig.yaw - rig.speed * dt >= -ANGLE_LIMIT,
        ensures
            final(self).wf(),
            final(self).screen == old(self).screen,
            final(self).light == old(self).light,
            old(self).rig matches Some(rig) ==> {
                &&& final(self).rig matches Some(updated)
                &&& (increase_held && !decrease_held ==> updated.yaw == rig.yaw + rig.speed * dt)
                &&& (decrease_held && !increase_held ==> updated.yaw == rig.yaw - rig.speed * dt)
                &&& (increase_held == decrease_held ==> updated.yaw == rig.yaw)
                &&& updated.pitch == clamp_pitch_spec(rig.pitch as int)
                &&& updated.radius == rig.radius
                &&& updated.speed == rig.speed
                &&& updated.target == rig.target
            },
    {
        match &mut self.rig {
            Some(rig) => rig.apply_input(increase_held, decrease_held, dt),
            None => {},
        }
    }

    /// The aiming step, last on every game-screen frame: re-points the light
    /// from its engine-reported world position toward the rig's target. With
    /// no rig (no camera entity yet) the tick is a no-op.
    pub fn tick_aim(&mut self, light_world_pos: Vec3)
        requires
            old(self).wf(),
            light_world_pos.in_range(COORD_LIMIT as int),
        ensures
            final(self).wf(),
            final(self).screen == old(self).screen,
            final(self).rig == old(self).rig,
            old(self).rig is None ==> *final(self) == *old(self),
            old(self).rig matches Some(rig) ==> final(self).light.aim == aim_step(
                old(self).light.aim,
                light_world_pos,
                rig.target,
            ),
    {
        let target = match &self.rig {
            Some(rig) => Some(rig.target),
            None => None,
        };
        match target {
            Some(t) => self.light.update(light_world_pos, t),
            None => {},
        }
    }
}

} // verus!
