//! Commands for the rigid-body engine.
//!
//! The library decides; the engine glue, which owns the engine instance,
//! carries each command out. All values are plain: positions and extents in
//! thousandths of a world unit, speeds in thousandths per second.

use vstd::prelude::*;
use crate::geometry::{Triangle, Vec2};

verus! {

/// One instruction to the rigid-body engine.
#[derive(Debug, Clone)]
pub enum EngineCommand {
    /// Create a dynamic body: a circle of the given radius for a character,
    /// else one convex fixture per triangle.
    Create {
        id: u128,
        position: Vec2,
        width: i64,
        height: i64,
        circle_radius: Option<i64>,
        triangles: Vec<Triangle>,
    },
    /// Remove the body from the world.
    Destroy { id: u128 },
    /// Keep the body but exclude it from the simulation.
    Disable { id: u128 },
    /// Set the body's linear velocity.
    SetVelocity { id: u128, velocity: Vec2 },
    /// Set the body's rotation, in degrees.
    SetAngle { id: u128, angle_deg: u32 },
    /// Apply the force to the center of every dynamic body.
    PushAll { force: Vec2 },
    /// Apply a force of the given magnitude to one body, directed along
    /// `direction` away from an explosion center.
    RadialForce { id: u128, direction: Vec2, force_milli: i64 },
}

} // verus!
