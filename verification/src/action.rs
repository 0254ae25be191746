//! The actions the foreground can ask of the physics world.

use vstd::prelude::*;

verus! {

/// A push direction.
#[derive(Debug, Clone, Copy, PartialEq, Eq, Structural)]
pub enum Direction {
    Up,
    Down,
    Left,
    Right,
}

/// A bulk action on the physics world.
#[derive(Debug, Clone, Copy, PartialEq, Eq, Structural)]
pub enum PhysicsAction {
    /// Push every dynamic body in the given direction.
    Push(Direction),
    /// Set off a rate-limited radial explosion at a random spot.
    Explode,
}

} // verus!
