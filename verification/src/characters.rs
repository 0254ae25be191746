//! Autonomous characters: the closed set of kinds, their per-tick roaming
//! behavior and the parameters of the one instantiated kind.
//!
//! The roaming behavior holds a cardinal direction and a debounce clock:
//! a ground contact forces a turn (toward the nearest passive body when one
//! is known), and off the ground the character turns probabilistically, the
//! probability growing with the time since the last turn.

use vstd::prelude::*;
use crate::animation::{SpriteAnimationType, MAX_DELTA, TIME_CAP};
use crate::config::PhysicsConfig;
use crate::geometry::Vec2;
use crate::lifetime::{CharacterLifetime, CharacterLifetimeFactory, CharacterState};
use crate::rng::{gen_range_i64, new_rng};

verus! {

/// Collision radius of the roaming character, in thousandths of a sprite
/// unit.
pub const PAC_MAN_RADIUS_MILLI: i64 = 200;

/// Average lifetime of the roaming character, in microseconds.
pub const PAC_MAN_LIFETIME_US: u64 = 20_000_000;

/// Roaming speed, in thousandths of a sprite unit per second.
pub const PAC_MAN_VELOCITY_MILLI: i64 = 1_000;

/// Idle turn probability, in turns per second, scaled by one thousand.
pub const TURN_PROBABILITY_MILLI: u64 = 10;

/// Turn probability while a feeding target is known, scaled by one thousand.
pub const FEEDING_TURN_PROBABILITY_MILLI: u64 = 50;

pub const PAC_MAN_FRAMES: u64 = 3;

pub const PAC_MAN_DEATH_FRAMES: u64 = 12;

/// The closed set of character kinds.
#[derive(Debug, Hash, Copy, Clone, PartialEq, Eq, Structural)]
pub enum CharacterType {
    PacMan,
}

impl CharacterType {
    /// Whether a collision of this character with a passive body destroys
    /// the body.
    pub fn destroys_on_collision(&self) -> (r: bool)
        ensures
            r == self.spec_destroys_on_collision(),
    {
        match self {
            CharacterType::PacMan => true,
        }
    }

    pub open spec fn spec_destroys_on_collision(self) -> bool {
        match self {
            CharacterType::PacMan => true,
        }
    }
}

/// Lifetime parameters of the roaming character.
pub fn pac_man_lifetime() -> (r: CharacterLifetimeFactory)
    ensures
        r.wf(),
        r.average_lifetime == PAC_MAN_LIFETIME_US,
        r.animation == (SpriteAnimationType::YoYo { duration: 100_000, frames: PAC_MAN_FRAMES }),
        r.death_animation == (SpriteAnimationType::LinearWithPause {
            duration: 150_000,
            pause_for: 200_000,
            resume_from_frame: 0,
            frames: PAC_MAN_DEATH_FRAMES,
        }),
{
    CharacterLifetimeFactory::new(
        PAC_MAN_LIFETIME_US,
        SpriteAnimationType::YoYo { duration: 100_000, frames: PAC_MAN_FRAMES },
        SpriteAnimationType::LinearWithPause {
            duration: 150_000,
            pause_for: 200_000,
            resume_from_frame: 0,
            frames: PAC_MAN_DEATH_FRAMES,
        },
    )
}

/// Sound cues of a character kind, by cue name; the audio collaborator
/// resolves the names to samples.
#[derive(Debug, Clone, Copy)]
pub struct CharacterSoundData {
    pub character: CharacterType,
    pub create: &'static str,
    pub destroy: &'static str,
    pub attack: &'static str,
}

impl CharacterSoundData {
    pub fn new(
        character: CharacterType,
        create: &'static str,
        destroy: &'static str,
        attack: &'static str,
    ) -> (r: CharacterSoundData)
        ensures
            r == (CharacterSoundData { character, create, destroy, attack }),
    {
        CharacterSoundData { character, create, destroy, attack }
    }
}

/// Sound cues of the roaming character.
pub fn pac_man_sound() -> (r: CharacterSoundData)
    ensures
        r.character == CharacterType::PacMan,
{
    CharacterSoundData::new(CharacterType::PacMan, "chomp", "death", "eat_ghost")
}

/// A cardinal travel direction.
#[derive(Debug, Clone, Copy, PartialEq, Eq, Structural)]
pub enum PacManDirection {
    Up,
    Down,
    Left,
    Right,
}

impl PacManDirection {
    /// Facing angle in degrees, measured clockwise with the world's y axis
    /// pointing down.
    pub fn angle(&self) -> (r: u32)
        ensures
            r == self.spec_angle(),
    {
        match self {
            PacManDirection::Up => 270,
            PacManDirection::Down => 90,
            PacManDirection::Left => 180,
            PacManDirection::Right => 0,
        }
    }

    pub open spec fn spec_angle(self) -> u32 {
        match self {
            PacManDirection::Up => 270,
            PacManDirection::Down => 90,
            PacManDirection::Left => 180,
            PacManDirection::Right => 0,
        }
    }

    /// Travel velocity along this direction, in thousandths of a world unit
    /// per second, proportional to the sprite scale.
    pub fn velocity(&self, polygon_scale_milli: i64) -> (r: Vec2)
        requires
            1 <= polygon_scale_milli <= 1_000_000,
        ensures
            r == self.spec_velocity(polygon_scale_milli),
            r.in_bounds(),
    {
        let v: i64 = polygon_scale_milli * PAC_MAN_VELOCITY_MILLI / 1000;
        match self {
            PacManDirection::Up => Vec2 { x: 0, y: -v },
            PacManDirection::Down => Vec2 { x: 0, y: v },
            PacManDirection::Left => Vec2 { x: -v, y: 0 },
            PacManDirection::Right => Vec2 { x: v, y: 0 },
        }
    }

    pub open spec fn spec_velocity(self, polygon_scale_milli: i64) -> Vec2 {
        let v = polygon_scale_milli * PAC_MAN_VELOCITY_MILLI / 1000;
        match self {
            PacManDirection::Up => Vec2 { x: 0, y: -v as i64 },
            PacManDirection::Down => Vec2 { x: 0, y: v as i64 },
            PacManDirection::Left => Vec2 { x: -v as i64, y: 0 },
            PacManDirection::Right => Vec2 { x: v as i64, y: 0 },
        }
    }

    /// The three directions other than this one, in the canonical order
    /// `Up, Down, Left, Right`.
    pub fn other_directions(&self) -> (r: Vec<PacManDirection>)
        ensures
            r@ == self.spec_other_directions(),
            r@.len() == 3,
            forall|i: int| 0 <= i < r@.len() ==> r@[i] != *self,
    {
        let result: Vec<PacManDirection> = match self {
            PacManDirection::Up => vec![
                PacManDirection::Down,
                PacManDirection::Left,
                PacManDirection::Right,
            ],
            PacManDirection::Down => vec![
                PacManDirection::Up,
                PacManDirection::Left,
                PacManDirection::Right,
            ],
            PacManDirection::Left => vec![
                PacManDirection::Up,
                PacManDirection::Down,
                PacManDirection::Right,
            ],
            PacManDirection::Right => vec![
                PacManDirection::Up,
                PacManDirection::Down,
                PacManDirection::Left,
            ],
        };
        proof {
            assert(result@ =~= self.spec_other_directions());
        }
        result
    }

    /// The canonical order with this direction removed.
    pub open spec fn spec_other_directions(self) -> Seq<PacManDirection> {
        match self {
            PacManDirection::Up => seq![
                PacManDirection::Down,
                PacManDirection::Left,
                PacManDirection::Right,
            ],
            PacManDirection::Down => seq![
                PacManDirection::Up,
                PacManDirection::Left,
                PacManDirection::Right,
            ],
            PacManDirection::Left => seq![
                PacManDirection::Up,
                PacManDirection::Down,
                PacManDirection::Right,
            ],
            PacManDirection::Right => seq![
                PacManDirection::Up,
                PacManDirection::Down,
                PacManDirection::Left,
            ],
        }
    }
}

/// A uniformly random direction.
pub fn random_direction(rng: &mut rand::rngs::ThreadRng) -> PacManDirection {
    let k: i64 = gen_range_i64(rng, 0, 4);
    if k == 0 {
        PacManDirection::Up
    } else if k == 1 {
        PacManDirection::Down
    } else if k == 2 {
        PacManDirection::Left
    } else {
        PacManDirection::Right
    }
}

/// What a character perceives of the world in one tick: whether it touched
/// the ground, and the offset from the nearest passive body to itself.
#[derive(Debug, Clone, Copy, PartialEq, Eq, Structural)]
pub struct CharacterWorldState {
    pub is_colliding: bool,
    pub closest_body: Option<Vec2>,
}

impl CharacterWorldState {
    pub open spec fn wf(self) -> bool {
        match self.closest_body {
            Some(v) => v.in_bounds(),
            None => true,
        }
    }

    pub fn new(is_colliding: bool, closest_body: Option<Vec2>) -> (r: CharacterWorldState)
        ensures
            r == (CharacterWorldState { is_colliding, closest_body }),
    {
        CharacterWorldState { is_colliding, closest_body }
    }
}

/// The direction toward the nearest passive body: along the larger axis
/// offset, ties resolved toward the vertical.
pub open spec fn spec_preferred_direction(ws: CharacterWorldState) -> Option<PacManDirection> {
    match ws.closest_body {
        None => None,
        Some(d) => Some(
            {
                let ax = if d.x < 0 {
                    -d.x
                } else {
                    d.x as int
                };
                let ay = if d.y < 0 {
                    -d.y
                } else {
                    d.y as int
                };
                if ax > ay {
                    if d.x > 0 {
                        PacManDirection::Left
                    } else {
                        PacManDirection::Right
                    }
                } else if d.y > 0 {
                    PacManDirection::Up
                } else {
                    PacManDirection::Down
                }
            },
        ),
    }
}

/// The turn condition of the roaming behavior: the elapsed time since the
/// last turn, scaled by the turn probability, must beat a fresh uniform
/// draw from `[0, 1)` — both sides in fixed point, the draw over one
/// billion microsecond-thousandths. The probability of a turn thus grows
/// with the time since the last one.
pub fn turn_decision(elapsed_us: u64, probability_milli: u64, draw: i64) -> (r: bool)
    requires
        elapsed_us <= TIME_CAP + MAX_DELTA,
        probability_milli <= 1_000,
        0 <= draw < 1_000_000_000,
    ensures
        r == (elapsed_us * probability_milli > draw as u64),
{
    proof {
        assert(elapsed_us * probability_milli <= (TIME_CAP + MAX_DELTA) * 1_000)
            by (nonlinear_arith)
            requires
                elapsed_us <= TIME_CAP + MAX_DELTA,
                probability_milli <= 1_000,
        ;
    }
    elapsed_us * probability_milli > (draw as u64)
}

/// The physical outcome of a behavior step: the facing angle in degrees and
/// the travel velocity.
#[derive(Debug, Clone, Copy, PartialEq, Eq, Structural)]
pub struct CharacterPhysics {
    pub angle: u32,
    pub velocity: Vec2,
}

impl CharacterPhysics {
    pub fn new(angle: u32, velocity: Vec2) -> (r: CharacterPhysics)
        ensures
            r == (CharacterPhysics { angle, velocity }),
    {
        CharacterPhysics { angle, velocity }
    }

    pub fn angle(&self) -> (r: u32)
        ensures
            r == self.angle,
    {
        self.angle
    }

    pub fn velocity(&self) -> (r: Vec2)
        ensures
            r == self.velocity,
    {
        self.velocity
    }
}

/// The roaming character's full behavior state.
#[derive(Debug, Clone, Copy)]
pub struct PacManState {
    pub direction: PacManDirection,
    pub lifetime: CharacterLifetime,
    pub since_last_turn: u64,
}

impl PacManState {
    pub open spec fn wf(self) -> bool {
        &&& self.lifetime.wf()
        &&& self.since_last_turn <= TIME_CAP + MAX_DELTA
    }

    pub fn new(rng: &mut rand::rngs::ThreadRng, lifetime: CharacterLifetime) -> (r: PacManState)
        requires
            lifetime.wf(),
        ensures
            r.wf(),
            r.lifetime == lifetime,
            r.since_last_turn == 0,
    {
        let direction = random_direction(rng);
        PacManState { direction, lifetime, since_last_turn: 0 }
    }

    /// Travel velocity: along the current direction while alive, zero once
    /// the departure has begun.
    pub fn velocity(&self, polygon_scale_milli: i64) -> (r: Vec2)
        requires
            1 <= polygon_scale_milli <= 1_000_000,
        ensures
            r == self.spec_velocity(polygon_scale_milli),
            r.in_bounds(),
    {
        match self.lifetime.state() {
            CharacterState::Alive => self.direction.velocity(polygon_scale_milli),
            CharacterState::Dead | CharacterState::Death => Vec2 { x: 0, y: 0 },
        }
    }

    pub open spec fn spec_velocity(self, polygon_scale_milli: i64) -> Vec2 {
        if self.lifetime.state is Alive {
            self.direction.spec_velocity(polygon_scale_milli)
        } else {
            Vec2 { x: 0, y: 0 }
        }
    }

    /// Facing angle: along the current direction while alive, zero once the
    /// departure has begun.
    pub open spec fn spec_angle(self) -> u32 {
        if self.lifetime.state is Alive {
            self.direction.spec_angle()
        } else {
            0u32
        }
    }

    pub fn angle(&self) -> (r: u32)
        ensures
            r == self.spec_angle(),
    {
        match self.lifetime.state() {
            CharacterState::Alive => self.direction.angle(),
            CharacterState::Dead | CharacterState::Death => 0,
        }
    }

    pub fn lifetime(&self) -> (r: &CharacterLifetime)
        ensures
            r == self.lifetime,
    {
        &self.lifetime
    }

    pub fn lifetime_mut(&mut self) -> (r: &mut CharacterLifetime)
        ensures
            *r == old(self).lifetime,
            *final(self) == (PacManState { lifetime: *final(r), ..*old(self) }),
    {
        &mut self.lifetime
    }

    /// One behavior tick. The lifecycle advances exactly as
    /// [`CharacterLifetime::stepped`] says; while alive, a ground contact
    /// forces a turn (toward the nearest passive body when known), and
    /// otherwise the character may turn probabilistically — the direction
    /// after a forced turn with no known target always differs from the
    /// direction before.
    pub fn update(
        &mut self,
        rng: &mut rand::rngs::ThreadRng,
        delta: u64,
        world_state: CharacterWorldState,
    ) -> (r: CharacterState)
        requires
            old(self).wf(),
            delta <= MAX_DELTA,
            world_state.wf(),
        ensures
            final(self).wf(),
            final(self).lifetime == old(self).lifetime.stepped(delta),
            r == final(self).lifetime.state,
            old(self).lifetime.state.rank() <= final(self).lifetime.state.rank(),
            // once departure has begun, the behavior state is frozen
            !(r is Alive) ==> final(self).direction == old(self).direction
                && final(self).since_last_turn == old(self).since_last_turn,
            // a ground contact forces a turn and resets the debounce clock
            r is Alive && world_state.is_colliding ==> final(self).since_last_turn == 0 && (
            match spec_preferred_direction(world_state) {
                Some(p) => final(self).direction == p,
                None => final(self).direction != old(self).direction,
            }),
            // off the ground the direction either holds or moves to the
            // preferred one (when known), resetting the clock on a turn
            r is Alive && !world_state.is_colliding ==> (final(self).since_last_turn == 0 || (
            final(self).direction == old(self).direction && final(self).since_last_turn
                == crate::animation::sat_add_time(old(self).since_last_turn, delta))),
            r is Alive && !world_state.is_colliding && spec_preferred_direction(world_state) is Some
                ==> (final(self).direction == old(self).direction || Some(final(self).direction)
                == spec_preferred_direction(world_state)),
    {
        let state = self.lifetime.update(delta);
        if state.is_alive() {
            self.since_last_turn = if self.since_last_turn >= TIME_CAP {
                self.since_last_turn
            } else {
                self.since_last_turn + delta
            };
            if world_state.is_colliding {
                match Self::preferred_direction(world_state) {
                    Some(p) => {
                        self.direction = p;
                    },
                    None => {
                        let others = self.direction.other_directions();
                        let k: i64 = gen_range_i64(rng, 0, 3);
                        self.direction = others[k as usize];
                    },
                }
                self.since_last_turn = 0;
            } else {
                match Self::preferred_direction(world_state) {
                    Some(preferred) => {
                        // feeding: prefer turning toward the closest body,
                        // with a slight debounce
                        if self.direction != preferred && self.should_turn(
                            rng,
                            FEEDING_TURN_PROBABILITY_MILLI,
                        ) {
                            self.direction = preferred;
                            self.since_last_turn = 0;
                        }
                    },
                    None => {
                        // nothing left to eat: slow, random turns
                        if self.should_turn(rng, TURN_PROBABILITY_MILLI) {
                            self.direction = random_direction(rng);
                            self.since_last_turn = 0;
                        }
                    },
                }
            }
        }
        state
    }

    /// Whether the growing turn probability fires against a fresh uniform
    /// draw: an approximation of a continuous-time Bernoulli process.
    fn should_turn(&self, rng: &mut rand::rngs::ThreadRng, probability_milli: u64) -> bool
        requires
            self.since_last_turn <= TIME_CAP + MAX_DELTA,
            probability_milli <= 1_000,
    {
        let draw: i64 = gen_range_i64(rng, 0, 1_000_000_000);
        turn_decision(self.since_last_turn, probability_milli, draw)
    }

    /// The direction toward the nearest passive body, when one is known.
    pub fn preferred_direction(world_state: CharacterWorldState) -> (r: Option<PacManDirection>)
        requires
            world_state.wf(),
        ensures
            r == spec_preferred_direction(world_state),
    {
        match world_state.closest_body {
            None => None,
            Some(d) => {
                let ax: i64 = if d.x < 0 {
                    -d.x
                } else {
                    d.x
                };
                let ay: i64 = if d.y < 0 {
                    -d.y
                } else {
                    d.y
                };
                if ax > ay {
                    // farthest away in the x direction
                    if d.x > 0 {
                        Some(PacManDirection::Left)
                    } else {
                        Some(PacManDirection::Right)
                    }
                } else if d.y > 0 {
                    Some(PacManDirection::Up)
                } else {
                    Some(PacManDirection::Down)
                }
            },
        }
    }
}

/// A character value: one variant per kind of the closed set.
#[derive(Debug, Clone, Copy)]
pub enum Character {
    PacMan(PacManState),
}

impl Character {
    pub open spec fn wf(self) -> bool {
        match self {
            Character::PacMan(s) => s.wf(),
        }
    }

    /// The lifecycle state of the character, whatever its kind.
    pub open spec fn spec_state(self) -> CharacterState {
        match self {
            Character::PacMan(s) => s.lifetime.state,
        }
    }

    /// The character after an external kill signal: a living one starts its
    /// departure, any other is unchanged.
    pub open spec fn spec_destroyed(self) -> Character {
        match self {
            Character::PacMan(s) => Character::PacMan(
                PacManState {
                    lifetime: CharacterLifetime {
                        state: if s.lifetime.state is Alive {
                            CharacterState::Death
                        } else {
                            s.lifetime.state
                        },
                        ..s.lifetime
                    },
                    ..s
                },
            ),
        }
    }

    pub fn character_type(&self) -> (r: CharacterType)
        ensures
            r == self.spec_character_type(),
    {
        match self {
            Character::PacMan(_) => CharacterType::PacMan,
        }
    }

    pub open spec fn spec_character_type(self) -> CharacterType {
        match self {
            Character::PacMan(_) => CharacterType::PacMan,
        }
    }

    /// An external kill signal; the lifecycle state never moves backward.
    pub fn destroy(&mut self)
        ensures
            *final(self) == old(self).spec_destroyed(),
            final(self).spec_state() == if old(self).spec_state() is Alive {
                CharacterState::Death
            } else {
                old(self).spec_state()
            },
            old(self).spec_state().rank() <= final(self).spec_state().rank(),
            final(self).spec_character_type() == old(self).spec_character_type(),
            old(self).wf() ==> final(self).wf(),
    {
        match self {
            Character::PacMan(pac_man) => pac_man.lifetime_mut().destroy(),
        }
    }

    pub fn state(&self) -> (r: CharacterState)
        ensures
            r == self.spec_state(),
    {
        match self {
            Character::PacMan(pac_man) => pac_man.lifetime().state(),
        }
    }

    /// The facing angle of the character, whatever its kind.
    pub open spec fn spec_angle(self) -> u32 {
        match self {
            Character::PacMan(s) => s.spec_angle(),
        }
    }

    /// The travel velocity of the character, whatever its kind.
    pub open spec fn spec_velocity(self, polygon_scale_milli: i64) -> Vec2 {
        match self {
            Character::PacMan(s) => s.spec_velocity(polygon_scale_milli),
        }
    }

    /// The lifecycle clock of the character, whatever its kind.
    pub open spec fn spec_lifetime(self) -> CharacterLifetime {
        match self {
            Character::PacMan(s) => s.lifetime,
        }
    }
}

/// Creates characters of each kind and runs their per-tick behavior.
pub struct CharacterFactory {
    pub pac_man: CharacterLifetimeFactory,
    pub rng: rand::rngs::ThreadRng,
    pub config: PhysicsConfig,
}

impl CharacterFactory {
    pub open spec fn wf(self) -> bool {
        &&& self.pac_man.wf()
        &&& self.config.wf()
    }

    pub fn new(config: PhysicsConfig) -> (r: CharacterFactory)
        requires
            config.wf(),
        ensures
            r.wf(),
            r.config == config,
    {
        CharacterFactory { pac_man: pac_man_lifetime(), rng: new_rng(), config }
    }

    /// A freshly spawned character of the given kind, alive, with a
    /// randomized lifetime around the kind's average.
    pub fn new_character(&mut self, character: CharacterType) -> (r: Character)
        requires
            old(self).wf(),
        ensures
            final(self).wf(),
            final(self).pac_man == old(self).pac_man,
            final(self).config == old(self).config,
            r.wf(),
            r.spec_state() is Alive,
            r.spec_character_type() == character,
            r.spec_lifetime().duration == 0,
            old(self).pac_man.average_lifetime - old(self).pac_man.average_lifetime / 8
                <= r.spec_lifetime().max_lifetime <= old(self).pac_man.average_lifetime + old(
                self,
            ).pac_man.average_lifetime / 8,
    {
        match character {
            CharacterType::PacMan => {
                let lifetime = self.pac_man.new_lifetime(&mut self.rng);
                let state = PacManState::new(&mut self.rng, lifetime);
                Character::PacMan(state)
            },
        }
    }

    /// Collision footprint of the kind: half-extents of its canonical shape
    /// in thousandths of a world unit.
    pub fn half_extents(&self, character: CharacterType) -> (r: (i64, i64))
        requires
            self.wf(),
        ensures
            0 < r.0 <= 1_000_000,
            0 < r.1 <= 1_000_000,
            r == Self::spec_half_extents(self.config, character),
    {
        match character {
            CharacterType::PacMan => {
                let radius: i64 = PAC_MAN_RADIUS_MILLI * self.config.polygon_scale_milli / 1000;
                (radius + 1, radius + 1)
            },
        }
    }

    pub open spec fn spec_half_extents(config: PhysicsConfig, character: CharacterType) -> (
        i64,
        i64,
    ) {
        match character {
            CharacterType::PacMan => {
                let radius = PAC_MAN_RADIUS_MILLI * config.polygon_scale_milli / 1000;
                ((radius + 1) as i64, (radius + 1) as i64)
            },
        }
    }

    /// One behavior tick of a character, whatever its kind; returns what the
    /// engine must apply.
    pub fn update(
        &mut self,
        character: &mut Character,
        delta: u64,
        world_state: CharacterWorldState,
    ) -> (r: CharacterPhysics)
        requires
            old(self).wf(),
            old(character).wf(),
            delta <= MAX_DELTA,
            world_state.wf(),
        ensures
            final(self).wf(),
            final(self).pac_man == old(self).pac_man,
            final(self).config == old(self).config,
            final(character).wf(),
            final(character).spec_character_type() == old(character).spec_character_type(),
            // the lifecycle clock advances exactly one step
            final(character).spec_lifetime() == old(character).spec_lifetime().stepped(delta),
            old(character).spec_state().rank() <= final(character).spec_state().rank(),
            // the outcome is the updated character's own facing and speed
            r == (CharacterPhysics {
                angle: final(character).spec_angle(),
                velocity: final(character).spec_velocity(old(self).config.polygon_scale_milli),
            }),
            // a departed character no longer moves
            !(final(character).spec_state() is Alive) ==> r.velocity == (Vec2 { x: 0, y: 0 }),
    {
        match character {
            Character::PacMan(pac_man) => {
                pac_man.update(&mut self.rng, delta, world_state);
                CharacterPhysics::new(
                    pac_man.angle(),
                    pac_man.velocity(self.config.polygon_scale_milli),
                )
            },
        }
    }
}

} // verus!
