//! The three-state lifecycle of an autonomous character.
//!
//! A character is `Alive` until its randomized lifetime elapses or it is
//! killed, then `Death` while its departure animation plays exactly one full
//! pass, then `Dead` and eligible for physical removal. The state order is
//! strict: no transition ever moves backward.

use vstd::prelude::*;
use crate::animation::{sat_add_time, SpriteAnimation, SpriteAnimationType, MAX_DELTA, TIME_CAP};
use crate::rng::gen_range_i64;

verus! {

/// Largest average lifetime the factory admits, in microseconds (about 11
/// days).
pub const MAX_LIFETIME: u64 = 1_000_000_000_000;

/// Where a character stands in its departure sequence.
#[derive(Debug, Copy, Clone, PartialEq, Eq, Structural)]
pub enum CharacterState {
    Alive,
    Death,
    Dead,
}

impl CharacterState {
    /// Position of the state in the one-way order `Alive < Death < Dead`.
    pub open spec fn rank(self) -> int {
        match self {
            CharacterState::Alive => 0,
            CharacterState::Death => 1,
            CharacterState::Dead => 2,
        }
    }

    pub fn is_alive(&self) -> (r: bool)
        ensures
            r == (*self == CharacterState::Alive),
    {
        *self == CharacterState::Alive
    }
}

/// A character's clock: elapsed time, lifecycle state, and the live and
/// departure animations.
#[derive(Debug, Clone, Copy)]
pub struct CharacterLifetime {
    pub max_lifetime: u64,
    pub duration: u64,
    pub state: CharacterState,
    pub animation: SpriteAnimation,
    pub death_animation: SpriteAnimation,
}

impl CharacterLifetime {
    pub open spec fn wf(self) -> bool {
        &&& self.animation.wf()
        &&& self.death_animation.wf()
        &&& self.max_lifetime <= 2 * MAX_LIFETIME
    }

    pub fn new(max_lifetime: u64, animation: SpriteAnimation, death_animation: SpriteAnimation) -> (r:
        CharacterLifetime)
        requires
            animation.wf(),
            death_animation.wf(),
            max_lifetime <= 2 * MAX_LIFETIME,
        ensures
            r == (CharacterLifetime {
                max_lifetime,
                duration: 0,
                state: CharacterState::Alive,
                animation,
                death_animation,
            }),
            r.wf(),
    {
        CharacterLifetime {
            max_lifetime,
            duration: 0,
            state: CharacterState::Alive,
            animation,
            death_animation,
        }
    }

    pub fn duration(&self) -> (r: u64)
        ensures
            r == self.duration,
    {
        self.duration
    }

    /// The exact state one update step leaves behind.
    pub open spec fn stepped(self, delta: u64) -> CharacterLifetime {
        let d = sat_add_time(self.duration, delta);
        match self.state {
            CharacterState::Alive => {
                if d < self.max_lifetime {
                    CharacterLifetime {
                        duration: d,
                        animation: self.animation.stepped(delta),
                        ..self
                    }
                } else {
                    CharacterLifetime { duration: d, state: CharacterState::Death, ..self }
                }
            },
            CharacterState::Death => {
                let da = self.death_animation.stepped(delta);
                CharacterLifetime {
                    duration: d,
                    death_animation: da,
                    state: if da.iteration > 0 {
                        CharacterState::Dead
                    } else {
                        CharacterState::Death
                    },
                    ..self
                }
            },
            CharacterState::Dead => CharacterLifetime { duration: d, ..self },
        }
    }

    /// Advance the lifecycle clock by `delta` microseconds and return the
    /// resulting state. The state never moves backward, and the departure
    /// animation runs exactly one full pass before `Dead` is reached.
    pub fn update(&mut self, delta: u64) -> (r: CharacterState)
        requires
            old(self).wf(),
            delta <= MAX_DELTA,
        ensures
            *final(self) == old(self).stepped(delta),
            final(self).wf(),
            r == final(self).state,
            old(self).state.rank() <= final(self).state.rank(),
    {
        self.duration = if self.duration >= TIME_CAP {
            self.duration
        } else {
            self.duration + delta
        };
        match self.state {
            CharacterState::Alive => {
                if self.duration < self.max_lifetime {
                    self.animation.update(delta);
                } else {
                    self.state = CharacterState::Death;
                }
            },
            CharacterState::Death => {
                self.death_animation.update(delta);
                // run for one iteration of the departure animation
                if self.death_animation.iteration() > 0 {
                    self.state = CharacterState::Dead;
                }
            },
            CharacterState::Dead => {},
        }
        self.state
    }

    /// The lifecycle state together with the frame of whichever animation
    /// that state plays.
    pub fn animation_frame(&self) -> (r: (CharacterState, u64))
        requires
            self.wf(),
        ensures
            r.0 == self.state,
            r.1 == if self.state is Alive {
                self.animation.spec_frame()
            } else {
                self.death_animation.spec_frame()
            },
    {
        let frame: u64 = match self.state {
            CharacterState::Alive => self.animation.frame(),
            CharacterState::Death | CharacterState::Dead => self.death_animation.frame(),
        };
        (self.state, frame)
    }

    pub fn state(&self) -> (r: CharacterState)
        ensures
            r == self.state,
    {
        self.state
    }

    /// An external kill signal: a living character starts its departure; a
    /// departing or departed one is left as it is. The state never moves
    /// backward.
    pub fn destroy(&mut self)
        ensures
            *final(self) == (CharacterLifetime {
                state: if old(self).state is Alive {
                    CharacterState::Death
                } else {
                    old(self).state
                },
                ..*old(self)
            }),
            old(self).state.rank() <= final(self).state.rank(),
    {
        if self.state.is_alive() {
            self.state = CharacterState::Death;
        }
    }
}

/// Law: lifecycle monotonicity. Over any step of the clock, the state's
/// position in the one-way order `Alive, Death, Dead` never decreases, so
/// the states observed over time form a subsequence of that order.
pub proof fn lemma_lifecycle_monotonic(l: CharacterLifetime, delta: u64)
    ensures
        l.state.rank() <= l.stepped(delta).state.rank(),
{
}

/// Builds lifetimes around an average duration with a one-quarter spread:
/// each new lifetime is drawn uniformly from
/// `average - average/8 .. average + average/8`.
#[derive(Debug, Copy, Clone)]
pub struct CharacterLifetimeFactory {
    pub average_lifetime: u64,
    pub animation: SpriteAnimationType,
    pub death_animation: SpriteAnimationType,
}

impl CharacterLifetimeFactory {
    pub open spec fn wf(self) -> bool {
        &&& self.animation.wf()
        &&& self.death_animation.wf()
        &&& 8 <= self.average_lifetime <= MAX_LIFETIME
    }

    pub fn new(
        average_lifetime: u64,
        animation: SpriteAnimationType,
        death_animation: SpriteAnimationType,
    ) -> (r: CharacterLifetimeFactory)
        requires
            animation.wf(),
            death_animation.wf(),
            8 <= average_lifetime <= MAX_LIFETIME,
        ensures
            r == (CharacterLifetimeFactory { average_lifetime, animation, death_animation }),
            r.wf(),
    {
        CharacterLifetimeFactory { average_lifetime, animation, death_animation }
    }

    /// A fresh `Alive` lifetime whose randomized maximum stays within an
    /// eighth of the average on either side.
    pub fn new_lifetime(&self, rng: &mut rand::rngs::ThreadRng) -> (r: CharacterLifetime)
        requires
            self.wf(),
        ensures
            r.wf(),
            r.state is Alive,
            r.duration == 0,
            r.animation == SpriteAnimation::initial(self.animation),
            r.death_animation == SpriteAnimation::initial(self.death_animation),
            self.average_lifetime - self.average_lifetime / 8 <= r.max_lifetime
                <= self.average_lifetime + self.average_lifetime / 8,
    {
        let range: u64 = self.average_lifetime / 4;
        let offset: i64 = gen_range_i64(rng, 0, range as i64);
        let max_lifetime: u64 = self.average_lifetime - range / 2 + (offset as u64);
        proof {
            vstd::arithmetic::div_mod::lemma_div_denominator(self.average_lifetime as int, 4, 2);
        }
        CharacterLifetime::new(
            max_lifetime,
            self.animation.into_animation(),
            self.death_animation.into_animation(),
        )
    }
}

} // verus!
