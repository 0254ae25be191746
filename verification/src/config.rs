//! Configuration of the simulation, in plain integer units.
//!
//! Lengths, speeds and forces are fixed-point integers in thousandths of a
//! world unit; engine-only parameters (density, friction, restitution) are
//! carried in the same fixed-point form for the engine glue to convert.

use vstd::prelude::*;
use crate::geometry::COORD_LIMIT;

verus! {

/// Screen mode the sandbox runs in.
#[derive(Clone, Copy, Debug, PartialEq, Eq, Structural)]
pub enum VideoMode {
    Window { width: u32, height: u32 },
    FullScreen { width: u32, height: u32 },
    FullScreenDesktop,
}

/// Display settings.
#[derive(Clone, Copy, Debug, PartialEq, Eq, Structural)]
pub struct VideoConfig {
    pub mode: VideoMode,
    pub vsync: bool,
    pub disable_screensaver: bool,
}

/// Tuning of the physics world and of the events derived from it.
#[derive(Clone, Copy, Debug, PartialEq, Eq, Structural)]
pub struct PhysicsConfig {
    pub debug_draw: bool,
    /// Render scale: pixels per world unit.
    pub pixels_per_meter: i64,
    /// World units per sprite unit, in thousandths.
    pub polygon_scale_milli: i64,
    pub velocity_iterations: i32,
    pub position_iterations: i32,
    /// Gravity, thousandths of a world unit per second squared.
    pub gravity_milli: i64,
    /// Force of a directional push, in thousandths.
    pub push_force_milli: i64,
    /// Body density handed to the engine, in thousandths.
    pub body_density_milli: i64,
    /// Body friction handed to the engine, in thousandths.
    pub body_friction_milli: i64,
    /// Body restitution handed to the engine, in thousandths.
    pub body_restitution_milli: i64,
    /// Peak explosion force, in thousandths.
    pub explosion_force_milli: i64,
    /// Distance at which an explosion's force has fallen to zero, in
    /// thousandths of a world unit.
    pub explosion_distance_milli: i64,
    /// Contact speed from which a collision counts as heavy, in thousandths
    /// of a world unit per second.
    pub heavy_collision_speed_milli: i64,
}

impl PhysicsConfig {
    /// Bounds under which every derived computation stays inside `i64`.
    pub open spec fn wf(self) -> bool {
        &&& 1 <= self.pixels_per_meter <= 100_000
        &&& 1 <= self.polygon_scale_milli <= 1_000_000
        &&& 0 <= self.push_force_milli <= 1_000_000_000_000
        &&& 0 <= self.explosion_force_milli <= 1_000_000_000
        &&& 1 <= self.explosion_distance_milli <= COORD_LIMIT
        &&& 0 <= self.heavy_collision_speed_milli
        &&& 0 <= self.gravity_milli <= 1_000_000_000_000
    }
}

impl Default for PhysicsConfig {
    /// The stock tuning of the sandbox.
    fn default() -> (r: PhysicsConfig)
        ensures
            r.wf(),
            r == (PhysicsConfig {
                debug_draw: false,
                pixels_per_meter: 10,
                polygon_scale_milli: 20_000,
                velocity_iterations: 8,
                position_iterations: 3,
                gravity_milli: 1_000,
                push_force_milli: 2_000,
                body_density_milli: 1,
                body_friction_milli: 300,
                body_restitution_milli: 500,
                explosion_force_milli: 200_000,
                explosion_distance_milli: 100_000,
                heavy_collision_speed_milli: 2_000,
            }),
    {
        PhysicsConfig {
            debug_draw: false,
            pixels_per_meter: 10,
            polygon_scale_milli: 20_000,
            velocity_iterations: 8,
            position_iterations: 3,
            gravity_milli: 1_000,
            push_force_milli: 2_000,
            body_density_milli: 1,
            body_friction_milli: 300,
            body_restitution_milli: 500,
            explosion_force_milli: 200_000,
            explosion_distance_milli: 100_000,
            heavy_collision_speed_milli: 2_000,
        }
    }
}

} // verus!
