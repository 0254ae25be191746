//! Domain events the simulation emits, one per meaningful tick outcome.

use vstd::prelude::*;
use crate::characters::CharacterType;
use crate::world::Body;

verus! {

/// An event of one simulation tick, consumed by the render, audio and
/// particle collaborators.
#[derive(Clone, Debug)]
pub enum GameEvent {
    /// A body entered the simulation.
    Spawned(Body),
    /// A body was destroyed (for a character: its departure began); emitted
    /// exactly once per entity.
    Destroy(Body),
    /// An explosion went off at the given screen position, in pixels.
    Explosion { x: i64, y: i64 },
    /// A character attacked a passive body.
    CharacterAttack(CharacterType),
    /// Two passive bodies (or a passive body and the ground) collided hard.
    HeavyCollision,
}

impl GameEvent {
    /// The entity the event is about, for the events that carry one.
    pub open spec fn spec_subject_id(self) -> Option<u128> {
        match self {
            GameEvent::Spawned(b) => Some(b.id),
            GameEvent::Destroy(b) => Some(b.id),
            _ => None,
        }
    }
}

} // verus!
