//! The domain-level input vocabulary of the sandbox. Mapping raw key
//! events onto it is the input collaborator's work.

use vstd::prelude::*;
use crate::characters::CharacterType;

verus! {

/// One meaningful input of the sandbox.
#[derive(Hash, Clone, Copy, Debug, PartialEq, Eq, Structural)]
pub enum GameInputKey {
    Up,
    Down,
    Left,
    Right,
    SpawnAsset(char),
    SpawnRandomAsset,
    SpawnCharacter(CharacterType),
    SpawnRandomCharacter,
    Nuke,
    Quit,
    Explosion,
}

} // verus!
