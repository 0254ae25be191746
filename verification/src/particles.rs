//! The particle-show vocabulary: which prescribed show plays, for how
//! long, and how a particle source modulates its emission. The particle
//! rendering itself is the particle collaborator's work.

use vstd::prelude::*;

verus! {

/// The prescribed particle shows, cycled in order.
#[derive(Debug, Copy, Clone, Eq, PartialEq, Structural)]
pub enum PrescribedParticles {
    Orbit,
    Fireworks,
    SpaceRace,
}

impl PrescribedParticles {
    /// The next show in the cycle.
    pub fn into_next(self) -> (r: PrescribedParticles)
        ensures
            r == (match self {
                PrescribedParticles::Orbit => PrescribedParticles::Fireworks,
                PrescribedParticles::Fireworks => PrescribedParticles::SpaceRace,
                PrescribedParticles::SpaceRace => PrescribedParticles::Orbit,
            }),
    {
        match self {
            PrescribedParticles::Orbit => PrescribedParticles::Fireworks,
            PrescribedParticles::Fireworks => PrescribedParticles::SpaceRace,
            PrescribedParticles::SpaceRace => PrescribedParticles::Orbit,
        }
    }

    /// How long the show is displayed, in microseconds.
    pub fn display_for(&self) -> (r: u64)
        ensures
            r == (match self {
                PrescribedParticles::Orbit => 20_000_000u64,
                PrescribedParticles::Fireworks => 10_000_000u64,
                PrescribedParticles::SpaceRace => 10_000_000u64,
            }),
    {
        match self {
            PrescribedParticles::Orbit => 20_000_000,
            PrescribedParticles::Fireworks => 10_000_000,
            PrescribedParticles::SpaceRace => 10_000_000,
        }
    }
}

/// How a particle source spreads its emission over time.
#[derive(Debug, Copy, Clone, Eq, PartialEq, Structural)]
pub enum ParticleModulation {
    /// All available particles are emitted as soon as possible.
    Cascade,
    /// At most `count` particles are emitted.
    CascadeLimit { count: u32 },
    /// At most `count` particles are emitted every `step` microseconds.
    Constant { count: u32, step: u64 },
}

} // verus!
