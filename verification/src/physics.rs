//! The simulation's owner of the body records and the per-tick rules.
//!
//! The physics engine itself lives behind [`crate::engine::EngineCommand`]
//! values: this module decides what happens — placement, classification,
//! behavior, lifecycle, events — and the engine glue carries the commands
//! out and reports transforms and contacts back.

use vstd::prelude::*;
use crate::characters::{Character, CharacterFactory, CharacterType, CharacterWorldState};
use crate::action::{Direction, PhysicsAction};
use crate::config::PhysicsConfig;
use crate::contact::{spec_classified, Contact, ContactClassifier, ContactMagnitude, ContactTarget, ContactedBody};
use crate::engine::EngineCommand;
use crate::event::GameEvent;
use crate::geometry::{Aabb, Vec2};
use crate::lifecycle::{apply_removal, spec_removal_action, spec_removal_result, RemovalAction};
use crate::rng::{gen_range_i64, gen_u128, new_rng};
use crate::world::{body_matches, body_of, BodyRecord, BodyType, WORLD_LIMIT};

verus! {

/// Margin kept around a spawned footprint, in thousandths of a world unit.
pub const SPAWN_BUFFER_MILLI: i64 = 100;

/// Shortest accepted interval between two explosions, in microseconds.
pub const EXPLOSION_MIN_INTERVAL_US: u64 = 100_000;

/// Retry budget of the spawn placement search.
pub const SPAWN_MAX_ATTEMPTS: u32 = 10;

/// The low 64 bits of an entity identifier: the world's spawn sequence
/// number, which makes identifiers unique; the high bits are random.
pub open spec fn low64(id: u128) -> u128 {
    id % 0x1_0000_0000_0000_0000
}

/// Whether some record in `bodies` carries `id` and its footprint box
/// shares a point with `aabb`.
pub open spec fn arena_id_overlaps(bodies: Seq<BodyRecord>, id: u128, aabb: Aabb) -> bool {
    exists|i: int|
        0 <= i < bodies.len() && bodies[i].id == id && bodies[i].spec_aabb().spec_overlaps(aabb)
}

/// The simulation world: every live body's record, the per-tick contact
/// accumulator, the character factory, and the explosion rate limiter.
pub struct Physics {
    pub rng: rand::rngs::ThreadRng,
    pub bodies: Vec<BodyRecord>,
    pub classifier: ContactClassifier,
    pub factory: CharacterFactory,
    pub config: PhysicsConfig,
    /// World width, in thousandths of a world unit.
    pub world_width: i64,
    /// World height, in thousandths of a world unit.
    pub world_height: i64,
    /// Time since the last accepted explosion, in microseconds.
    pub time_since_last_explosion: u64,
    /// Next spawn sequence number; the low 64 bits of every recorded id lie
    /// below it.
    pub next_seq: u64,
}

impl Physics {
    /// Everything [`Self::wf`] asks for except that the per-tick contact
    /// accumulator is empty; mid-tick, while contacts accumulate, only
    /// this part holds.
    pub open spec fn wf_core(self) -> bool {
        &&& self.config.wf()
        &&& self.factory.wf()
        &&& self.factory.config == self.config
        &&& self.classifier.wf()
        &&& self.classifier.heavy_collision_speed_milli
            == self.config.heavy_collision_speed_milli
        &&& 1 <= self.world_width <= WORLD_LIMIT
        &&& 1 <= self.world_height <= WORLD_LIMIT
        &&& forall|i: int| 0 <= i < self.bodies@.len() ==> (#[trigger] self.bodies@[i]).wf()
        &&& forall|i: int, j: int|
            0 <= i < j < self.bodies@.len() ==> self.bodies@[i].id != self.bodies@[j].id
        &&& forall|i: int|
            0 <= i < self.bodies@.len() ==> low64(#[trigger] self.bodies@[i].id) < self.next_seq
    }

    /// Between ticks the contact accumulator is always drained: facts are
    /// consumed exactly once, by the tick that produced them.
    pub open spec fn wf(self) -> bool {
        &&& self.wf_core()
        &&& self.classifier.contact_set() == Set::<Contact>::empty()
    }

    /// Whether a record with the given id exists.
    pub open spec fn spec_has_id(self, id: u128) -> bool {
        exists|i: int| 0 <= i < self.bodies@.len() && self.bodies@[i].id == id
    }

    /// Whether the world can still mint a fresh identifier: a machine
    /// limit of 2^64 spawns per world.
    pub open spec fn can_spawn(self) -> bool {
        self.next_seq < u64::MAX
    }

    pub fn can_spawn_now(&self) -> (r: bool)
        ensures
            r == self.can_spawn(),
    {
        self.next_seq < u64::MAX
    }

    /// Whether the world can mint identifiers for `n` more spawns: what a
    /// caller must test before handing over a batch of commands.
    pub fn has_spawn_budget(&self, n: usize) -> (r: bool)
        ensures
            r == (self.next_seq + n < u64::MAX),
    {
        u64::MAX - self.next_seq > (n as u64)
    }

    /// A fresh world around an empty arena.
    pub fn new(world_width: i64, world_height: i64, config: PhysicsConfig) -> (r: Physics)
        requires
            config.wf(),
            1 <= world_width <= WORLD_LIMIT,
            1 <= world_height <= WORLD_LIMIT,
        ensures
            r.wf(),
            r.bodies@.len() == 0,
            r.config == config,
            r.world_width == world_width,
            r.world_height == world_height,
            r.time_since_last_explosion == 0,
            r.can_spawn(),
            r.classifier.contact_set() == Set::<Contact>::empty(),
    {
        Physics {
            rng: new_rng(),
            bodies: Vec::new(),
            classifier: ContactClassifier::new(config.heavy_collision_speed_milli),
            factory: CharacterFactory::new(config),
            config,
            world_width,
            world_height,
            time_since_last_explosion: 0,
            next_seq: 0,
        }
    }

    /// The index of the record with the given id, scanning in arena order.
    pub fn index_of(&self, id: u128) -> (r: Option<usize>)
        ensures
            match r {
                Some(i) => i < self.bodies@.len() && self.bodies@[i as int].id == id,
                None => !self.spec_has_id(id),
            },
    {
        let mut i: usize = 0;
        let n = self.bodies.len();
        while i < n
            invariant
                n == self.bodies@.len(),
                i <= n,
                forall|j: int| 0 <= j < i ==> self.bodies@[j].id != id,
            decreases n - i,
        {
            if self.bodies[i].id == id {
                return Some(i);
            }
            i = i + 1;
        }
        None
    }

    /// Mint an identifier no record holds: random high bits over the next
    /// spawn sequence number.
    fn fresh_id(&mut self) -> (id: u128)
        requires
            old(self).wf(),
            old(self).can_spawn(),
        ensures
            *final(self) == (Physics {
                rng: final(self).rng,
                next_seq: (old(self).next_seq + 1) as u64,
                ..*old(self)
            }),
            low64(id) == old(self).next_seq,
            !old(self).spec_has_id(id),
            final(self).wf(),
    {
        let r: u128 = gen_u128(&mut self.rng);
        let s: u128 = self.next_seq as u128;
        let high: u128 = r >> 64;
        proof {
            assert((r >> 64) <= 0xFFFF_FFFF_FFFF_FFFFu128) by (bit_vector);
            assert(high * 0x1_0000_0000_0000_0000 <= 0xFFFF_FFFF_FFFF_FFFF
                * 0x1_0000_0000_0000_0000) by (nonlinear_arith)
                requires
                    high <= 0xFFFF_FFFF_FFFF_FFFFu128,
            ;
        }
        let id: u128 = high * 0x1_0000_0000_0000_0000 + s;
        proof {
            vstd::arithmetic::div_mod::lemma_fundamental_div_mod_converse(
                id as int,
                0x1_0000_0000_0000_0000,
                high as int,
                s as int,
            );
            assert(low64(id) == self.next_seq);
        }
        self.next_seq = self.next_seq + 1;
        id
    }

    /// The identifiers of the records whose footprint box shares a point
    /// with `aabb`, in arena order.
    pub fn query_overlapping(&self, aabb: Aabb) -> (r: Vec<u128>)
        requires
            self.wf(),
        ensures
            forall|k: int|
                0 <= k < r@.len() ==> arena_id_overlaps(self.bodies@, #[trigger] r@[k], aabb),
            forall|i: int|
                0 <= i < self.bodies@.len() && (#[trigger] self.bodies@[i]).spec_aabb().spec_overlaps(
                    aabb,
                ) ==> r@.contains(self.bodies@[i].id),
            forall|i: int, j: int| 0 <= i < j < r@.len() ==> r@[i] != r@[j],
    {
        let mut r: Vec<u128> = Vec::new();
        let mut i: usize = 0;
        let n = self.bodies.len();
        let ghost mut sources: Seq<int> = Seq::empty();
        while i < n
            invariant
                self.wf(),
                n == self.bodies@.len(),
                i <= n,
                r@.len() == sources.len(),
                forall|k: int|
                    0 <= k < r@.len() ==> 0 <= #[trigger] sources[k] < i && self.bodies@[sources[k]].id
                        == r@[k] && self.bodies@[sources[k]].spec_aabb().spec_overlaps(aabb),
                forall|j: int|
                    0 <= j < i && (#[trigger] self.bodies@[j]).spec_aabb().spec_overlaps(aabb)
                        ==> r@.contains(self.bodies@[j].id),
                forall|k1: int, k2: int| 0 <= k1 < k2 < r@.len() ==> sources[k1] < sources[k2],
            decreases n - i,
        {
            let ghost r_before = r@;
            if self.bodies[i].aabb().overlaps(aabb) {
                r.push(self.bodies[i].id);
                proof {
                    sources = sources.push(i as int);
                }
            }
            proof {
                assert forall|j: int|
                    0 <= j < i + 1 && (#[trigger] self.bodies@[j]).spec_aabb().spec_overlaps(
                        aabb,
                    ) implies r@.contains(self.bodies@[j].id) by {
                    if j == i {
                        assert(r@.last() == self.bodies@[j].id);
                    } else {
                        let k = choose|k: int|
                            0 <= k < r_before.len() && r_before[k] == self.bodies@[j].id;
                        assert(r@[k] == self.bodies@[j].id);
                    }
                }
            }
            i = i + 1;
        }
        proof {
            assert forall|k1: int, k2: int| 0 <= k1 < k2 < r@.len() implies r@[k1] != r@[k2] by {
                assert(sources[k1] < sources[k2]);
                assert(self.bodies@[sources[k1]].id != self.bodies@[sources[k2]].id);
            }
            assert forall|k: int| 0 <= k < r@.len() implies arena_id_overlaps(
                self.bodies@,
                #[trigger] r@[k],
                aabb,
            ) by {
                let i = sources[k];
                assert(0 <= i < self.bodies@.len() && self.bodies@[i].id == r@[k]
                    && self.bodies@[i].spec_aabb().spec_overlaps(aabb));
            }
        }
        r
    }

    /// Choose a spawn position for a footprint of the given full extents:
    /// prefer a spot free of other bodies, retrying up to the attempt
    /// budget, and return the bodies to evict when every attempt collided.
    /// Termination within the budget is part of the function's proof; every
    /// identifier in the eviction set belongs to a record whose box shares
    /// a point with the chosen footprint expanded by the spawn buffer.
    pub fn find_position(&mut self, width: i64, height: i64, max_attempts: u32) -> (r: (
        Vec2,
        Vec<u128>,
    ))
        requires
            old(self).wf(),
            0 < width <= WORLD_LIMIT,
            0 < height <= WORLD_LIMIT,
            width / 2 + SPAWN_BUFFER_MILLI < old(self).world_width - (width / 2
                + SPAWN_BUFFER_MILLI),
            height / 2 + SPAWN_BUFFER_MILLI < old(self).world_height - (height / 2
                + SPAWN_BUFFER_MILLI),
        ensures
            *final(self) == (Physics { rng: final(self).rng, ..*old(self) }),
            final(self).wf(),
            ({
                let hw = width / 2 + SPAWN_BUFFER_MILLI;
                let hh = height / 2 + SPAWN_BUFFER_MILLI;
                let footprint = Aabb {
                    lo: Vec2 { x: (r.0.x - hw) as i64, y: (r.0.y - hh) as i64 },
                    hi: Vec2 { x: (r.0.x + hw) as i64, y: (r.0.y + hh) as i64 },
                };
                &&& hw <= r.0.x <= old(self).world_width - hw
                &&& hh <= r.0.y <= old(self).world_height - hh
                &&& forall|k: int|
                    0 <= k < r.1@.len() ==> arena_id_overlaps(
                        old(self).bodies@,
                        #[trigger] r.1@[k],
                        footprint,
                    )
                &&& forall|i: int|
                    0 <= i < old(self).bodies@.len() && (#[trigger] old(
                        self,
                    ).bodies@[i]).spec_aabb().spec_overlaps(footprint) ==> r.1@.contains(
                        old(self).bodies@[i].id,
                    )
                &&& forall|k1: int, k2: int| 0 <= k1 < k2 < r.1@.len() ==> r.1@[k1] != r.1@[k2]
            }),
    {
        let hw: i64 = width / 2 + SPAWN_BUFFER_MILLI;
        let hh: i64 = height / 2 + SPAWN_BUFFER_MILLI;
        let mut attempt: u32 = 0;
        loop
            invariant
                self.wf(),
                self.bodies == old(self).bodies,
                self.classifier == old(self).classifier,
                self.factory == old(self).factory,
                self.config == old(self).config,
                self.world_width == old(self).world_width,
                self.world_height == old(self).world_height,
                self.time_since_last_explosion == old(self).time_since_last_explosion,
                self.next_seq == old(self).next_seq,
                attempt <= max_attempts,
                hw == width / 2 + SPAWN_BUFFER_MILLI,
                hh == height / 2 + SPAWN_BUFFER_MILLI,
                0 < hw <= self.world_width,
                0 < hh <= self.world_height,
                hw < self.world_width - hw,
                hh < self.world_height - hh,
            decreases max_attempts - attempt,
        {
            let x: i64 = gen_range_i64(&mut self.rng, hw, self.world_width - hw);
            let y: i64 = gen_range_i64(&mut self.rng, hh, self.world_height - hh);
            let center = Vec2 { x, y };
            let aabb = Aabb {
                lo: Vec2 { x: x - hw, y: y - hh },
                hi: Vec2 { x: x + hw, y: y + hh },
            };
            let overlapping = self.query_overlapping(aabb);
            if overlapping.len() == 0 || attempt >= max_attempts {
                return (center, overlapping);
            }
            attempt = attempt + 1;
        }
    }
}


/// The records that survive one removal pass over `s` with the marked
/// identifiers: unmarked records unchanged, marked ones kept (disabled)
/// when their decision keeps them.
pub open spec fn surviving(s: Seq<BodyRecord>, marked: Seq<u128>) -> Seq<BodyRecord>
    decreases s.len(),
{
    if s.len() == 0 {
        Seq::empty()
    } else {
        let head: Seq<BodyRecord> = if !marked.contains(s[0].id) {
            seq![s[0]]
        } else if spec_removal_action(s[0]).keeps() {
            seq![spec_removal_result(s[0])]
        } else {
            Seq::empty()
        };
        head + surviving(s.drop_first(), marked)
    }
}

/// The post-decision snapshots of the marked records whose decision emits
/// the `Destroyed` notification, in arena order.
pub open spec fn notified(s: Seq<BodyRecord>, marked: Seq<u128>) -> Seq<BodyRecord>
    decreases s.len(),
{
    if s.len() == 0 {
        Seq::empty()
    } else {
        let head: Seq<BodyRecord> = if marked.contains(s[0].id) && spec_removal_action(
            s[0],
        ).notifies() {
            seq![spec_removal_result(s[0])]
        } else {
            Seq::empty()
        };
        head + notified(s.drop_first(), marked)
    }
}

/// The engine commands one removal pass issues, in arena order: a removal
/// for each dropped record, a disable for each newly disabled one.
pub open spec fn removal_cmds(s: Seq<BodyRecord>, marked: Seq<u128>) -> Seq<EngineCommand>
    decreases s.len(),
{
    if s.len() == 0 {
        Seq::empty()
    } else {
        let head: Seq<EngineCommand> = if marked.contains(s[0].id) {
            match spec_removal_action(s[0]) {
                RemovalAction::DestroyNotify => seq![EngineCommand::Destroy { id: s[0].id }],
                RemovalAction::DestroyQuiet => seq![EngineCommand::Destroy { id: s[0].id }],
                RemovalAction::DisableNotify => seq![EngineCommand::Disable { id: s[0].id }],
                RemovalAction::KeepSilent => Seq::empty(),
            }
        } else {
            Seq::empty()
        };
        head + removal_cmds(s.drop_first(), marked)
    }
}

/// Whether some record in the sequence carries the identifier.
pub open spec fn seq_has_id(s: Seq<BodyRecord>, id: u128) -> bool {
    exists|i: int| 0 <= i < s.len() && s[i].id == id
}

/// A record whose removal decision notifies is notified: its identifier
/// appears among the notification snapshots.
pub proof fn lemma_notified_complete(s: Seq<BodyRecord>, marked: Seq<u128>, i: int)
    requires
        0 <= i < s.len(),
        marked.contains(s[i].id),
        spec_removal_action(s[i]).notifies(),
    ensures
        exists|k: int|
            0 <= k < notified(s, marked).len() && (#[trigger] notified(s, marked)[k]).id == s[i].id,
    decreases s.len(),
{
    if i == 0 {
        assert(notified(s, marked)[0].id == spec_removal_result(s[0]).id);
        assert(notified(s, marked)[0].id == s[0].id);
    } else {
        lemma_notified_complete(s.drop_first(), marked, i - 1);
        let k = choose|k: int|
            0 <= k < notified(s.drop_first(), marked).len() && (#[trigger] notified(
                s.drop_first(),
                marked,
            )[k]).id == s.drop_first()[i - 1].id;
        let head_len = notified(s, marked).len() - notified(s.drop_first(), marked).len();
        assert(notified(s, marked)[head_len + k].id == s[i].id);
    }
}

/// A record its removal decision keeps — or one not marked at all —
/// survives the pass: its identifier appears among the survivors.
pub proof fn lemma_surviving_complete(s: Seq<BodyRecord>, marked: Seq<u128>, i: int)
    requires
        0 <= i < s.len(),
        !marked.contains(s[i].id) || spec_removal_action(s[i]).keeps(),
    ensures
        seq_has_id(surviving(s, marked), s[i].id),
    decreases s.len(),
{
    if i == 0 {
        assert(surviving(s, marked)[0].id == s[0].id);
    } else {
        lemma_surviving_complete(s.drop_first(), marked, i - 1);
        let k = choose|k: int|
            0 <= k < surviving(s.drop_first(), marked).len() && surviving(s.drop_first(), marked)[k].id
                == s.drop_first()[i - 1].id;
        let head_len = surviving(s, marked).len() - surviving(s.drop_first(), marked).len();
        assert(surviving(s, marked)[head_len + k].id == s[i].id);
    }
}

/// Whether the sequence holds `id`.
fn ids_contain(ids: &Vec<u128>, id: u128) -> (b: bool)
    ensures
        b == ids@.contains(id),
{
    let mut i: usize = 0;
    let n = ids.len();
    while i < n
        invariant
            n == ids@.len(),
            i <= n,
            forall|j: int| 0 <= j < i ==> ids@[j] != id,
        decreases n - i,
    {
        if ids[i] == id {
            return true;
        }
        i = i + 1;
    }
    false
}

impl Physics {
    /// Run the lifecycle state machine over every record marked for
    /// removal: passive bodies are removed with a notification, characters
    /// enter their departure as [`crate::lifecycle`] says. The events are
    /// the `Destroyed` notifications in arena order; the commands tell the
    /// engine which bodies to remove or disable.
    pub fn destroy_bodies_by_id(&mut self, ids: &Vec<u128>) -> (r: (
        Vec<GameEvent>,
        Vec<EngineCommand>,
        Ghost<Seq<int>>,
        Ghost<Seq<int>>,
    ))
        requires
            old(self).wf(),
        ensures
            final(self).wf(),
            *final(self) == (Physics { bodies: final(self).bodies, ..*old(self) }),
            final(self).bodies@ == surviving(old(self).bodies@, ids@),
            r.1@ == removal_cmds(old(self).bodies@, ids@),
            r.0@.len() == notified(old(self).bodies@, ids@).len(),
            forall|k: int|
                0 <= k < r.0@.len() ==> ((#[trigger] r.0@[k]) matches GameEvent::Destroy(b)
                    && body_matches(
                    b,
                    notified(old(self).bodies@, ids@)[k],
                    old(self).config.pixels_per_meter,
                )),
            // provenance of the surviving records: strictly increasing source
            // indexes into the old arena
            r.2@.len() == final(self).bodies@.len(),
            forall|k: int|
                0 <= k < r.2@.len() ==> 0 <= #[trigger] r.2@[k] < old(self).bodies@.len() && (if ids@.contains(
                    old(self).bodies@[r.2@[k]].id,
                ) {
                    final(self).bodies@[k] == spec_removal_result(old(self).bodies@[r.2@[k]])
                        && spec_removal_action(old(self).bodies@[r.2@[k]]).keeps()
                } else {
                    final(self).bodies@[k] == old(self).bodies@[r.2@[k]]
                }),
            forall|k1: int, k2: int| 0 <= k1 < k2 < r.2@.len() ==> r.2@[k1] < r.2@[k2],
            // provenance of the notifications
            r.3@.len() == r.0@.len(),
            forall|k: int|
                0 <= k < r.3@.len() ==> 0 <= #[trigger] r.3@[k] < old(self).bodies@.len()
                    && notified(old(self).bodies@, ids@)[k] == spec_removal_result(
                    old(self).bodies@[r.3@[k]],
                ) && ids@.contains(old(self).bodies@[r.3@[k]].id) && spec_removal_action(
                    old(self).bodies@[r.3@[k]],
                ).notifies(),
    {
        let mut taken: Vec<BodyRecord> = Vec::new();
        core::mem::swap(&mut taken, &mut self.bodies);
        let ghost orig: Seq<BodyRecord> = taken@;
        let mut events: Vec<GameEvent> = Vec::new();
        let mut cmds: Vec<EngineCommand> = Vec::new();
        let ghost mut done_notes: Seq<BodyRecord> = Seq::empty();
        let ghost mut kept_src: Seq<int> = Seq::empty();
        let ghost mut note_src: Seq<int> = Seq::empty();
        let ghost mut i: int = 0;
        proof {
            assert(orig.skip(0) =~= orig);
        }
        while taken.len() > 0
            invariant
                old(self).wf(),
                orig == old(self).bodies@,
                0 <= i <= orig.len(),
                taken@ =~= orig.skip(i),
                *self == (Physics { bodies: self.bodies, ..*old(self) }),
                self.bodies@ + surviving(orig.skip(i), ids@) =~= surviving(orig, ids@),
                done_notes + notified(orig.skip(i), ids@) =~= notified(orig, ids@),
                cmds@ + removal_cmds(orig.skip(i), ids@) =~= removal_cmds(orig, ids@),
                events@.len() == done_notes.len(),
                forall|k: int|
                    0 <= k < events@.len() ==> ((#[trigger] events@[k]) matches GameEvent::Destroy(
                        b,
                    ) && body_matches(b, done_notes[k], old(self).config.pixels_per_meter)),
                kept_src.len() == self.bodies@.len(),
                forall|k: int|
                    0 <= k < kept_src.len() ==> 0 <= #[trigger] kept_src[k] < i
                        && self.bodies@[k].id == orig[kept_src[k]].id && self.bodies@[k].wf() && (
                    if ids@.contains(orig[kept_src[k]].id) {
                        self.bodies@[k] == spec_removal_result(orig[kept_src[k]])
                            && spec_removal_action(orig[kept_src[k]]).keeps()
                    } else {
                        self.bodies@[k] == orig[kept_src[k]]
                    }),
                forall|k1: int, k2: int|
                    0 <= k1 < k2 < kept_src.len() ==> kept_src[k1] < kept_src[k2],
                note_src.len() == done_notes.len(),
                forall|k: int|
                    0 <= k < note_src.len() ==> 0 <= #[trigger] note_src[k] < i && done_notes[k]
                        == spec_removal_result(orig[note_src[k]]) && ids@.contains(
                        orig[note_src[k]].id,
                    ) && spec_removal_action(orig[note_src[k]]).notifies(),
            decreases taken@.len(),
        {
            let mut rec: BodyRecord = taken.remove(0);
            proof {
                assert(rec == orig[i]);
                assert(orig[i].wf());
                assert(orig.skip(i).drop_first() =~= orig.skip(i + 1));
                assert(orig.skip(i)[0] == orig[i]);
            }
            let marked = ids_contain(ids, rec.id);
            if !marked {
                self.bodies.push(rec);
                proof {
                    kept_src = kept_src.push(i);
                    assert(self.bodies@ + surviving(orig.skip(i + 1), ids@) =~= surviving(
                        orig,
                        ids@,
                    ));
                }
            } else {
                let action = apply_removal(&mut rec);
                match action {
                    RemovalAction::DestroyNotify => {
                        let snapshot = body_of(&rec, self.config.pixels_per_meter);
                        events.push(GameEvent::Destroy(snapshot));
                        cmds.push(EngineCommand::Destroy { id: rec.id });
                        proof {
                            done_notes = done_notes.push(spec_removal_result(orig[i]));
                            note_src = note_src.push(i);
                        }
                    },
                    RemovalAction::DestroyQuiet => {
                        cmds.push(EngineCommand::Destroy { id: rec.id });
                    },
                    RemovalAction::DisableNotify => {
                        let snapshot = body_of(&rec, self.config.pixels_per_meter);
                        events.push(GameEvent::Destroy(snapshot));
                        cmds.push(EngineCommand::Disable { id: rec.id });
                        self.bodies.push(rec);
                        proof {
                            done_notes = done_notes.push(spec_removal_result(orig[i]));
                            note_src = note_src.push(i);
                            kept_src = kept_src.push(i);
                        }
                    },
                    RemovalAction::KeepSilent => {
                        self.bodies.push(rec);
                        proof {
                            kept_src = kept_src.push(i);
                        }
                    },
                }
                proof {
                    assert(self.bodies@ + surviving(orig.skip(i + 1), ids@) =~= surviving(
                        orig,
                        ids@,
                    ));
                    assert(done_notes + notified(orig.skip(i + 1), ids@) =~= notified(orig, ids@));
                    assert(cmds@ + removal_cmds(orig.skip(i + 1), ids@) =~= removal_cmds(
                        orig,
                        ids@,
                    ));
                }
            }
            proof {
                i = i + 1;
            }
        }
        proof {
            assert(orig.skip(orig.len() as int) =~= Seq::<BodyRecord>::empty());
            assert(self.bodies@ =~= surviving(orig, ids@));
            assert(done_notes =~= notified(orig, ids@));
            assert(cmds@ =~= removal_cmds(orig, ids@));
            assert forall|k1: int, k2: int|
                0 <= k1 < k2 < self.bodies@.len() implies self.bodies@[k1].id
                != self.bodies@[k2].id by {
                assert(kept_src[k1] < kept_src[k2]);
            }
            assert forall|k: int| 0 <= k < self.bodies@.len() implies (#[trigger] self.bodies@[k]).wf()
                && low64(self.bodies@[k].id) < self.next_seq by {
                assert(0 <= kept_src[k] < orig.len());
                assert(low64(orig[kept_src[k]].id) < old(self).next_seq);
            }
            assert(self.wf());
        }
        (events, cmds, Ghost(kept_src), Ghost(note_src))
    }

    /// Mark one body for removal. Unknown identifiers are a no-op.
    pub fn destroy_body(&mut self, id: u128) -> (r: (Option<GameEvent>, Vec<EngineCommand>))
        requires
            old(self).wf(),
        ensures
            final(self).wf(),
            *final(self) == (Physics { bodies: final(self).bodies, ..*old(self) }),
            final(self).bodies@ == surviving(old(self).bodies@, seq![id]),
            r.1@ == removal_cmds(old(self).bodies@, seq![id]),
            notified(old(self).bodies@, seq![id]).len() == 0 ==> r.0 is None,
            notified(old(self).bodies@, seq![id]).len() > 0 ==> (r.0 matches Some(
                GameEvent::Destroy(b),
            ) && body_matches(
                b,
                notified(old(self).bodies@, seq![id])[0],
                old(self).config.pixels_per_meter,
            )),
    {
        let mut ids: Vec<u128> = Vec::new();
        ids.push(id);
        proof {
            assert(ids@ =~= seq![id]);
        }
        let (mut events, cmds, _, _) = self.destroy_bodies_by_id(&ids);
        if events.len() == 0 {
            (None, cmds)
        } else {
            let e = events.remove(0);
            (Some(e), cmds)
        }
    }
}


/// What contact classification reads of the arena: each record's identity
/// and, for characters, its kind, in arena order.
pub open spec fn spec_profile(bodies: Seq<BodyRecord>) -> Seq<(u128, Option<CharacterType>)> {
    bodies.map_values(
        |r: BodyRecord|
            (
                r.id,
                match r.body_type {
                    BodyType::Character(c) => Some(c.spec_character_type()),
                    _ => None,
                },
            ),
    )
}

/// The side a raw contact identifier stands for: the recorded body behind
/// it, or nothing for the static boundary or a vanished body.
pub open spec fn profile_meta(
    profile: Seq<(u128, Option<CharacterType>)>,
    oid: Option<u128>,
) -> Option<ContactedBody> {
    match oid {
        None => None,
        Some(id) => if exists|i: int| 0 <= i < profile.len() && profile[i].0 == id {
            let i = choose|i: int| 0 <= i < profile.len() && profile[i].0 == id;
            Some(ContactedBody { body_id: id, character: profile[i].1 })
        } else {
            None
        },
    }
}

/// The magnitude of a raw contact against the heavy-collision threshold.
pub open spec fn spec_raw_magnitude(speed_milli: i64, threshold: i64) -> ContactMagnitude {
    if speed_milli > threshold {
        ContactMagnitude::Heavy
    } else {
        ContactMagnitude::Light
    }
}

/// Every classified fact one step's raw contacts produce against an arena
/// profile: the union of the classification of each report.
pub open spec fn spec_tick_facts(
    profile: Seq<(u128, Option<CharacterType>)>,
    contacts: Seq<RawContact>,
    threshold: i64,
) -> Set<Contact>
    decreases contacts.len(),
{
    if contacts.len() == 0 {
        Set::empty()
    } else {
        spec_tick_facts(profile, contacts.drop_last(), threshold).union(
            spec_classified(
                profile_meta(profile, contacts.last().body_a),
                profile_meta(profile, contacts.last().body_b),
                spec_raw_magnitude(contacts.last().speed_milli, threshold),
            ),
        )
    }
}

/// A heavy contact between non-character bodies (or such a body and the
/// ground): what flags the tick's one global heavy-collision event.
pub open spec fn heavy_passive_fact(c: Contact) -> bool {
    c.body.character is None && c.magnitude is Heavy
}

/// A character hitting a passive body while its kind destroys on contact.
pub open spec fn attack_fact(c: Contact) -> bool {
    &&& match c.body.character {
        Some(t) => t.spec_destroys_on_collision(),
        None => false,
    }
    &&& c.target is Alphanumeric
}

/// The passive body an attack fact destroys.
pub open spec fn attack_target(c: Contact) -> u128 {
    match c.target {
        ContactTarget::Alphanumeric { id } => id,
        _ => 0,
    }
}

/// Whether the batch carries a removal notification for the body `t`.
pub open spec fn destroy_event_for(events: Seq<GameEvent>, t: u128) -> bool {
    exists|k: int|
        0 <= k < events.len() && ((#[trigger] events[k]) matches GameEvent::Destroy(b) && b.id
            == t)
}

/// Whether some classified fact of the tick attacks the body `t`.
pub open spec fn was_attacked(facts: Set<Contact>, t: u128) -> bool {
    exists|cf: Contact| facts.contains(cf) && attack_fact(cf) && attack_target(cf) == t
}

/// Whether some record of the arena carries the snapshot's identifier with
/// its body still enabled.
pub open spec fn enabled_source(bodies: Seq<BodyRecord>, id: u128) -> bool {
    exists|i: int| 0 <= i < bodies.len() && bodies[i].id == id && bodies[i].enabled
}

/// Every classified fact with a passive target names a body whose profile
/// entry carries no character kind: a passive or unknown body.
pub proof fn lemma_tick_fact_target(
    profile: Seq<(u128, Option<CharacterType>)>,
    contacts: Seq<RawContact>,
    threshold: i64,
    c: Contact,
)
    requires
        spec_tick_facts(profile, contacts, threshold).contains(c),
        c.target is Alphanumeric,
    ensures
        exists|i: int|
            0 <= i < profile.len() && profile[i] == (attack_target(c), Option::<
                CharacterType,
            >::None),
    decreases contacts.len(),
{
    if contacts.len() == 0 {
    } else {
        let rest = spec_tick_facts(profile, contacts.drop_last(), threshold);
        if rest.contains(c) {
            lemma_tick_fact_target(profile, contacts.drop_last(), threshold, c);
        } else {
            let ma = profile_meta(profile, contacts.last().body_a);
            let mb = profile_meta(profile, contacts.last().body_b);
            match (ma, mb) {
                (Some(a), Some(b)) => {
                    if a.character is Some && b.character is Some {
                    } else if b.character is Some {
                        // the target side is `a`, which is not a character
                        match contacts.last().body_a {
                            Some(id) => {
                                let i = choose|i: int|
                                    0 <= i < profile.len() && profile[i].0 == id;
                                assert(a.character == profile[i].1);
                                assert(profile[i] == (
                                    attack_target(c),
                                    Option::<CharacterType>::None,
                                ));
                            },
                            None => {},
                        }
                    } else {
                        match contacts.last().body_b {
                            Some(id) => {
                                let i = choose|i: int|
                                    0 <= i < profile.len() && profile[i].0 == id;
                                assert(b.character == profile[i].1);
                                assert(profile[i] == (
                                    attack_target(c),
                                    Option::<CharacterType>::None,
                                ));
                            },
                            None => {},
                        }
                    }
                },
                _ => {},
            }
        }
    }
}

/// One body's transform as the engine reported it after a step.
#[derive(Debug, Clone, Copy, PartialEq, Eq, Structural)]
pub struct BodyTransform {
    pub id: u128,
    pub position: Vec2,
    pub angle_deg: u32,
}

/// One raw contact as the engine reported it: the bodies on each side
/// (none for the static boundary) and the relative speed at the contact
/// point, in thousandths of a world unit per second.
#[derive(Debug, Clone, Copy, PartialEq, Eq, Structural)]
pub struct RawContact {
    pub body_a: Option<u128>,
    pub body_b: Option<u128>,
    pub speed_milli: i64,
}

/// Everything the engine reported about one step.
#[derive(Debug, Clone)]
pub struct StepReport {
    pub contacts: Vec<RawContact>,
    pub transforms: Vec<BodyTransform>,
}

/// Clamp a coordinate into `[0, limit]`.
fn clamp_coord(v: i64, limit: i64) -> (r: i64)
    requires
        limit >= 0,
    ensures
        0 <= r <= limit,
        0 <= v <= limit ==> r == v,
{
    if v < 0 {
        0
    } else if v > limit {
        limit
    } else {
        v
    }
}

/// The offset from the nearest of `positions` to `from`: the vector that
/// points from the closest recorded passive body toward `from`. `None`
/// when there is nothing to compare against.
fn closest_vector(positions: &Vec<Vec2>, from: Vec2) -> (r: Option<Vec2>)
    requires
        0 <= from.x <= WORLD_LIMIT,
        0 <= from.y <= WORLD_LIMIT,
        forall|k: int|
            0 <= k < positions@.len() ==> 0 <= (#[trigger] positions@[k]).x <= WORLD_LIMIT && 0
                <= positions@[k].y <= WORLD_LIMIT,
    ensures
        r is Some <==> positions@.len() > 0,
        r matches Some(v) ==> v.in_bounds(),
        r matches Some(v) ==> exists|i: int|
            0 <= i < positions@.len() && v == from.spec_sub(positions@[i]) && forall|j: int|
                0 <= j < positions@.len() ==> from.spec_dist_sq(positions@[i])
                    <= from.spec_dist_sq(#[trigger] positions@[j]),
{
    if positions.len() == 0 {
        return None;
    }
    let mut best: usize = 0;
    let mut best_d: i64 = from.dist_sq(positions[0]);
    let mut i: usize = 1;
    while i < positions.len()
        invariant
            0 <= from.x <= WORLD_LIMIT,
            0 <= from.y <= WORLD_LIMIT,
            forall|k: int|
                0 <= k < positions@.len() ==> 0 <= (#[trigger] positions@[k]).x <= WORLD_LIMIT && 0
                    <= positions@[k].y <= WORLD_LIMIT,
            positions@.len() > 0,
            1 <= i <= positions@.len(),
            best < i,
            best_d == from.spec_dist_sq(positions@[best as int]),
            forall|j: int| 0 <= j < i ==> best_d <= from.spec_dist_sq(#[trigger] positions@[j]),
        decreases positions@.len() - i,
    {
        let d = from.dist_sq(positions[i]);
        if d < best_d {
            best = i;
            best_d = d;
        }
        i = i + 1;
    }
    Some(from.sub(positions[best]))
}

/// The lifecycle rank of a record's kind: a passive body has no lifecycle
/// and ranks lowest.
pub open spec fn type_rank(bt: BodyType) -> int {
    match bt {
        BodyType::Character(c) => c.spec_state().rank(),
        _ => 0,
    }
}

impl Physics {
    /// The side of a raw contact: the recorded body behind an engine-side
    /// identifier, or nothing for the static boundary or a vanished body.
    fn contact_meta(&self, oid: Option<u128>) -> (r: Option<ContactedBody>)
        requires
            self.wf_core(),
        ensures
            r == profile_meta(spec_profile(self.bodies@), oid),
    {
        let ghost profile = spec_profile(self.bodies@);
        match oid {
            None => None,
            Some(id) => match self.index_of(id) {
                None => {
                    proof {
                        if exists|j: int| 0 <= j < profile.len() && profile[j].0 == id {
                            let j = choose|j: int| 0 <= j < profile.len() && profile[j].0 == id;
                            assert(self.bodies@[j].id == id);
                            assert(self.spec_has_id(id));
                        }
                    }
                    None
                },
                Some(i) => {
                    let character = match &self.bodies[i].body_type {
                        BodyType::Character(c) => Some(c.character_type()),
                        _ => None,
                    };
                    proof {
                        assert(profile[i as int].0 == id);
                        assert(exists|j: int| 0 <= j < profile.len() && profile[j].0 == id);
                        let j = choose|j: int| 0 <= j < profile.len() && profile[j].0 == id;
                        assert(self.bodies@[j].id == id);
                        if j != i as int {
                            assert(self.bodies@[j].id != self.bodies@[i as int].id);
                            assert(false);
                        }
                        assert(profile[j].1 == character);
                    }
                    Some(ContactedBody { body_id: id, character })
                },
            },
        }
    }

    /// One fixed simulation tick. Applies the engine's reported
    /// transforms, classifies and drains the tick's contacts exactly once,
    /// runs every character's behavior, applies the lifecycle rules to
    /// every body marked for removal, and returns the tick's events —
    /// removal notifications first, then attacks, then the heavy-collision
    /// flag — together with the commands the engine must apply.
    ///
    /// No entity appears out of nowhere, no character's lifecycle moves
    /// backward, and a removal notification for a passive body means the
    /// body is gone from every later snapshot.
    #[verifier::rlimit(100)]
    pub fn update(&mut self, delta: u64, report: &StepReport) -> (r: (
        Vec<GameEvent>,
        Vec<EngineCommand>,
    ))
        requires
            old(self).wf(),
            delta <= crate::animation::MAX_DELTA,
        ensures
            final(self).wf(),
            final(self).classifier.contact_set() == Set::<Contact>::empty(),
            final(self).time_since_last_explosion == crate::animation::sat_add_time(
                old(self).time_since_last_explosion,
                delta,
            ),
            final(self).next_seq == old(self).next_seq,
            final(self).config == old(self).config,
            final(self).world_width == old(self).world_width,
            final(self).world_height == old(self).world_height,
            forall|id: u128| final(self).spec_has_id(id) ==> old(self).spec_has_id(id),
            // lifecycle monotonicity: a record that survives the tick never
            // moves backward in the one-way order Alive, Death, Dead
            forall|i: int, j: int|
                0 <= i < old(self).bodies@.len() && 0 <= j < final(self).bodies@.len() && old(
                    self,
                ).bodies@[i].id == final(self).bodies@[j].id ==> type_rank(
                    #[trigger] old(self).bodies@[i].body_type,
                ) <= type_rank(#[trigger] final(self).bodies@[j].body_type),
            // a removal notification for a passive body means the body is
            // gone from the arena, hence from every later snapshot
            forall|k: int|
                0 <= k < r.0@.len() ==> ((#[trigger] r.0@[k]) matches GameEvent::Destroy(b) ==> (b.body_type is Character
                    || !final(self).spec_has_id(b.id))),
            // the batch is ordered as the tick emits it: every removal
            // notification precedes every ambient event, and the one
            // heavy-collision event, if any, comes last
            forall|k1: int, k2: int|
                0 <= k1 < k2 < r.0@.len() && (#[trigger] r.0@[k2]) is Destroy ==> (
                #[trigger] r.0@[k1]) is Destroy,
            forall|k: int|
                0 <= k < r.0@.len() && (#[trigger] r.0@[k]) is HeavyCollision ==> k == r.0@.len()
                    - 1,
            // the tick's derived outcomes, against the facts its raw
            // contacts classify to: the one global heavy-collision event
            // comes exactly when a heavy contact between non-character
            // bodies occurred; an attack event comes exactly when a
            // destroying character hit a passive body; and every attacked
            // passive body is gone
            ({
                let facts0 = spec_tick_facts(
                    spec_profile(old(self).bodies@),
                    report.contacts@,
                    old(self).config.heavy_collision_speed_milli,
                );
                &&& (r.0@.contains(GameEvent::HeavyCollision) <==> exists|cf: Contact|
                    facts0.contains(cf) && heavy_passive_fact(cf))
                &&& ((exists|k: int|
                    0 <= k < r.0@.len() && (#[trigger] r.0@[k]) is CharacterAttack) <==> (
                exists|cf: Contact| facts0.contains(cf) && attack_fact(cf)))
                &&& forall|cf: Contact|
                    facts0.contains(cf) && attack_fact(cf) ==> !final(self).spec_has_id(
                        attack_target(cf),
                    )
                &&& forall|cf: Contact|
                    facts0.contains(cf) && attack_fact(cf) ==> destroy_event_for(
                        r.0@,
                        attack_target(cf),
                    )
                &&& forall|i: int|
                    0 <= i < old(self).bodies@.len() && !((#[trigger] old(
                        self,
                    ).bodies@[i]).body_type is Character) && !final(self).spec_has_id(
                        old(self).bodies@[i].id,
                    ) ==> was_attacked(facts0, old(self).bodies@[i].id)
            }),
            // a removal notification for a character comes only for one
            // whose body was still enabled when the tick began, so a
            // character already disabled earlier is never notified again
            forall|k: int|
                0 <= k < r.0@.len() ==> ((#[trigger] r.0@[k]) matches GameEvent::Destroy(b) ==> (!(
                b.body_type is Character) || enabled_source(old(self).bodies@, b.id))),
            // a character that survives the tick with its departure begun
            // has been disabled, so its animation plays without physics
            forall|j: int|
                0 <= j < final(self).bodies@.len() ==> (((#[trigger] final(self).bodies@[j]).body_type) matches BodyType::Character(
                    c,
                ) && !(c.spec_state() is Alive) ==> !final(self).bodies@[j].enabled),
    {
        self.time_since_last_explosion = if self.time_since_last_explosion
            >= crate::animation::TIME_CAP {
            self.time_since_last_explosion
        } else {
            self.time_since_last_explosion + delta
        };
        let ghost stage0 = self.bodies@;

        // mirror the transforms the engine reported
        let mut t: usize = 0;
        while t < report.transforms.len()
            invariant
                self.wf(),
                *self == (Physics {
                    bodies: self.bodies,
                    time_since_last_explosion: self.time_since_last_explosion,
                    ..*old(self)
                }),
                self.time_since_last_explosion == crate::animation::sat_add_time(
                    old(self).time_since_last_explosion,
                    delta,
                ),
                t <= report.transforms@.len(),
                self.bodies@.len() == stage0.len(),
                forall|k: int|
                    0 <= k < self.bodies@.len() ==> (#[trigger] self.bodies@[k]) == (BodyRecord {
                        position: self.bodies@[k].position,
                        angle_deg: self.bodies@[k].angle_deg,
                        ..stage0[k]
                    }),
            decreases report.transforms@.len() - t,
        {
            let tr = report.transforms[t];
            match self.index_of(tr.id) {
                None => {},
                Some(i) => {
                    let ghost before = self.bodies@;
                    let mut rec = self.bodies.remove(i);
                    rec.position = Vec2 {
                        x: clamp_coord(tr.position.x, self.world_width),
                        y: clamp_coord(tr.position.y, self.world_height),
                    };
                    rec.angle_deg = tr.angle_deg % 360;
                    self.bodies.insert(i, rec);
                    proof {
                        assert(self.bodies@ =~= before.update(
                            i as int,
                            BodyRecord {
                                position: rec.position,
                                angle_deg: rec.angle_deg,
                                ..before[i as int]
                            },
                        ));
                    }
                },
            }
            t = t + 1;
        }
        let ghost stage1 = self.bodies@;
        let ghost prof = spec_profile(stage1);
        let ghost threshold = old(self).config.heavy_collision_speed_milli;
        proof {
            assert(spec_profile(stage1) =~= spec_profile(stage0));
            assert(report.contacts@.take(0) =~= Seq::<RawContact>::empty());
        }

        // classify the raw contacts of this step
        let mut c: usize = 0;
        while c < report.contacts.len()
            invariant
                self.wf_core(),
                prof == spec_profile(self.bodies@),
                self.classifier.heavy_collision_speed_milli == threshold,
                self.classifier.contact_set() == spec_tick_facts(
                    prof,
                    report.contacts@.take(c as int),
                    threshold,
                ),
                self.bodies@ == stage1,
                *self == (Physics {
                    bodies: self.bodies,
                    time_since_last_explosion: self.time_since_last_explosion,
                    classifier: self.classifier,
                    ..*old(self)
                }),
                self.time_since_last_explosion == crate::animation::sat_add_time(
                    old(self).time_since_last_explosion,
                    delta,
                ),
                self.bodies@.len() == stage0.len(),
                forall|k: int|
                    0 <= k < self.bodies@.len() ==> (#[trigger] self.bodies@[k]) == (BodyRecord {
                        position: self.bodies@[k].position,
                        angle_deg: self.bodies@[k].angle_deg,
                        ..stage0[k]
                    }),
                c <= report.contacts@.len(),
            decreases report.contacts@.len() - c,
        {
            let raw = report.contacts[c];
            let meta_a = self.contact_meta(raw.body_a);
            let meta_b = self.contact_meta(raw.body_b);
            self.classifier.report(meta_a, meta_b, raw.speed_milli);
            proof {
                assert(report.contacts@.take(c + 1).drop_last() =~= report.contacts@.take(
                    c as int,
                ));
                assert(report.contacts@.take(c + 1).last() == raw);
                assert(self.classifier.contact_set() =~= spec_tick_facts(
                    prof,
                    report.contacts@.take(c + 1),
                    threshold,
                ));
            }
            c = c + 1;
        }
        proof {
            assert(report.contacts@.take(report.contacts@.len() as int) =~= report.contacts@);
        }
        let ghost all_facts = spec_tick_facts(prof, report.contacts@, threshold);

        // drain the tick's facts and derive the per-tick sets
        let facts = self.classifier.drain();
        let mut grounded: Vec<u128> = Vec::new();
        let mut to_destroy: Vec<u128> = Vec::new();
        let mut ambient: Vec<GameEvent> = Vec::new();
        let mut is_heavy_collision = false;
        let mut f: usize = 0;
        while f < facts.len()
            invariant
                f <= facts@.len(),
                facts@.to_set() == all_facts,
                is_heavy_collision == exists|k: int|
                    0 <= k < f && heavy_passive_fact(#[trigger] facts@[k]),
                (exists|k: int| 0 <= k < f && attack_fact(#[trigger] facts@[k])) <==> (exists|k2: int|
                    0 <= k2 < ambient@.len() && (#[trigger] ambient@[k2]) is CharacterAttack),
                forall|k: int|
                    0 <= k < ambient@.len() ==> (#[trigger] ambient@[k]) is CharacterAttack,
                forall|k: int|
                    0 <= k < f && attack_fact(#[trigger] facts@[k]) ==> to_destroy@.contains(
                        attack_target(facts@[k]),
                    ),
                forall|x: u128|
                    to_destroy@.contains(x) ==> exists|k: int|
                        0 <= k < f && attack_fact(#[trigger] facts@[k]) && attack_target(facts@[k])
                            == x,
            decreases facts@.len() - f,
        {
            let fact = facts[f];
            let ghost to_destroy_before = to_destroy@;
            let ghost ambient_len_before = ambient@.len();
            match fact.body.character {
                Some(character_subject) => {
                    match fact.target {
                        ContactTarget::Ground => {
                            // report the ground contact to the character
                            grounded.push(fact.body.body_id);
                        },
                        ContactTarget::Alphanumeric { id } => {
                            if character_subject.destroys_on_collision() {
                                to_destroy.push(id);
                                ambient.push(GameEvent::CharacterAttack(character_subject));
                                proof {
                                    assert(to_destroy@.last() == attack_target(facts@[f as int]));
                                    assert(to_destroy@.contains(attack_target(facts@[f as int])));
                                    assert(ambient@[ambient_len_before as int] is CharacterAttack);
                                }
                            }
                        },
                        ContactTarget::Character { id, .. } => {
                            // report the contact to both characters
                            grounded.push(id);
                            grounded.push(fact.body.body_id);
                        },
                    }
                },
                None => {
                    // contact between non-character bodies
                    if fact.magnitude == crate::contact::ContactMagnitude::Heavy {
                        is_heavy_collision = true;
                    }
                },
            }
            proof {
                assert forall|k: int|
                    0 <= k < f + 1 && attack_fact(#[trigger] facts@[k]) implies to_destroy@.contains(
                    attack_target(facts@[k]),
                ) by {
                    if k < f {
                        let w = choose|w: int|
                            0 <= w < to_destroy_before.len() && to_destroy_before[w]
                                == attack_target(facts@[k]);
                        assert(to_destroy@[w] == attack_target(facts@[k]));
                    }
                }
                assert forall|x: u128| to_destroy@.contains(x) implies exists|k: int|
                    0 <= k < f + 1 && attack_fact(#[trigger] facts@[k]) && attack_target(facts@[k])
                        == x by {
                    let w = choose|w: int| 0 <= w < to_destroy@.len() && to_destroy@[w] == x;
                    if w < to_destroy_before.len() {
                        assert(to_destroy_before[w] == x);
                        assert(to_destroy_before.contains(x));
                    } else {
                        assert(attack_fact(facts@[f as int]) && attack_target(facts@[f as int])
                            == x);
                    }
                }
            }
            f = f + 1;
        }
        let ghost attack_seen = exists|k: int|
            0 <= k < facts@.len() && attack_fact(#[trigger] facts@[k]);
        let ghost ambient_attacks = ambient@;
        proof {
            assert((exists|k2: int|
                0 <= k2 < ambient_attacks.len() && (#[trigger] ambient_attacks[k2]) is CharacterAttack)
                == attack_seen);
        }
        if is_heavy_collision {
            ambient.push(GameEvent::HeavyCollision);
        }
        let ghost heavy_in_ambient = is_heavy_collision;
        proof {
            assert(forall|k: int|
                0 <= k < ambient_attacks.len() ==> ambient@[k] == ambient_attacks[k]);
            assert(ambient@.len() == ambient_attacks.len() + (if heavy_in_ambient {
                1int
            } else {
                0int
            }));
        }
        proof {
            // fact-level statements carried to the set the tick produced
            assert forall|cf: Contact| all_facts.contains(cf) && attack_fact(cf) implies to_destroy@.contains(
                attack_target(cf),
            ) by {
                assert(facts@.contains(cf));
                let k = choose|k: int| 0 <= k < facts@.len() && facts@[k] == cf;
                assert(attack_fact(facts@[k]));
            }
            assert((exists|cf: Contact| all_facts.contains(cf) && heavy_passive_fact(cf))
                == is_heavy_collision) by {
                if is_heavy_collision {
                    let k = choose|k: int| 0 <= k < facts@.len() && heavy_passive_fact(facts@[k]);
                    assert(facts@.contains(facts@[k]));
                    assert(all_facts.contains(facts@[k]));
                } else {
                    if exists|cf: Contact| all_facts.contains(cf) && heavy_passive_fact(cf) {
                        let cf = choose|cf: Contact|
                            all_facts.contains(cf) && heavy_passive_fact(cf);
                        assert(facts@.contains(cf));
                        let k = choose|k: int| 0 <= k < facts@.len() && facts@[k] == cf;
                        assert(heavy_passive_fact(facts@[k]));
                        assert(false);
                    }
                }
            }
            assert forall|x: u128| to_destroy@.contains(x) implies exists|cf: Contact|
                all_facts.contains(cf) && attack_fact(cf) && attack_target(cf) == x by {
                let k = choose|k: int|
                    0 <= k < facts@.len() && attack_fact(#[trigger] facts@[k]) && attack_target(
                        facts@[k],
                    ) == x;
                assert(facts@.contains(facts@[k]));
                assert(all_facts.contains(facts@[k]));
            }
            assert((exists|cf: Contact| all_facts.contains(cf) && attack_fact(cf))
                == attack_seen) by {
                if attack_seen {
                    let k = choose|k: int| 0 <= k < facts@.len() && attack_fact(facts@[k]);
                    assert(facts@.contains(facts@[k]));
                    assert(all_facts.contains(facts@[k]));
                } else {
                    if exists|cf: Contact| all_facts.contains(cf) && attack_fact(cf) {
                        let cf = choose|cf: Contact| all_facts.contains(cf) && attack_fact(cf);
                        assert(facts@.contains(cf));
                        let k = choose|k: int| 0 <= k < facts@.len() && facts@[k] == cf;
                        assert(attack_fact(facts@[k]));
                        assert(false);
                    }
                }
            }
        }

        // the passive bodies' positions guide the characters' feeding
        let mut alpha_positions: Vec<Vec2> = Vec::new();
        let mut p: usize = 0;
        while p < self.bodies.len()
            invariant
                self.wf(),
                p <= self.bodies@.len(),
                forall|k: int|
                    0 <= k < alpha_positions@.len() ==> 0 <= (#[trigger] alpha_positions@[k]).x
                        <= WORLD_LIMIT && 0 <= alpha_positions@[k].y <= WORLD_LIMIT,
            decreases self.bodies@.len() - p,
        {
            if let BodyType::Alphanumeric(_) = &self.bodies[p].body_type {
                alpha_positions.push(self.bodies[p].position);
            }
            p = p + 1;
        }

        proof {
            assert(forall|a: int, b: int|
                0 <= a < b < stage1.len() ==> stage1[a].id != stage1[b].id);
        }

        // run every character's behavior for this tick
        let mut cmds: Vec<EngineCommand> = Vec::new();
        let mut taken: Vec<BodyRecord> = Vec::new();
        core::mem::swap(&mut taken, &mut self.bodies);
        let ghost mid = taken@;
        let ghost mut i: int = 0;
        proof {
            assert(mid.skip(0) =~= mid);
        }
        while taken.len() > 0
            invariant
                delta <= crate::animation::MAX_DELTA,
                forall|cf: Contact|
                    all_facts.contains(cf) && attack_fact(cf) ==> to_destroy@.contains(
                        attack_target(cf),
                    ),
                forall|x: u128|
                    to_destroy@.contains(x) ==> (exists|cf: Contact|
                        all_facts.contains(cf) && attack_fact(cf) && attack_target(cf) == x) || (
                    exists|j: int| 0 <= j < mid.len() && mid[j].id == x && mid[j].body_type is Character),
                forall|k: int|
                    0 <= k < i ==> (((#[trigger] self.bodies@[k]).body_type) matches BodyType::Character(
                        ch2,
                    ) && !(ch2.spec_state() is Alive) ==> to_destroy@.contains(
                        self.bodies@[k].id,
                    )),
                forall|k: int|
                    0 <= k < alpha_positions@.len() ==> 0 <= (#[trigger] alpha_positions@[k]).x
                        <= WORLD_LIMIT && 0 <= alpha_positions@[k].y <= WORLD_LIMIT,
                0 <= i <= mid.len(),
                taken@ =~= mid.skip(i),
                *self == (Physics {
                    bodies: self.bodies,
                    factory: self.factory,
                    time_since_last_explosion: self.time_since_last_explosion,
                    classifier: self.classifier,
                    ..*old(self)
                }),
                self.factory.wf(),
                self.factory.config == old(self).config,
                self.factory.pac_man == old(self).factory.pac_man,
                self.classifier.wf(),
                self.classifier.heavy_collision_speed_milli == old(
                    self,
                ).config.heavy_collision_speed_milli,
                self.classifier.contact_set() == Set::<Contact>::empty(),
                self.time_since_last_explosion == crate::animation::sat_add_time(
                    old(self).time_since_last_explosion,
                    delta,
                ),
                forall|k: int| 0 <= k < mid.len() ==> (#[trigger] mid[k]).wf(),
                self.bodies@.len() == i,
                forall|k: int|
                    0 <= k < i ==> (#[trigger] self.bodies@[k]).id == mid[k].id
                        && self.bodies@[k].wf() && self.bodies@[k].width == mid[k].width
                        && self.bodies@[k].height == mid[k].height && self.bodies@[k].position
                        == mid[k].position && self.bodies@[k].enabled == mid[k].enabled
                        && type_rank(mid[k].body_type) <= type_rank(self.bodies@[k].body_type) && (
                    !(mid[k].body_type is Character) ==> self.bodies@[k].body_type
                        == mid[k].body_type),
            decreases taken@.len(),
        {
            let mut rec: BodyRecord = taken.remove(0);
            proof {
                assert(rec == mid[i]);
                assert(mid[i].wf());
                assert(mid.skip(i).drop_first() =~= mid.skip(i + 1));
            }
            let resident: Option<Character> = match &rec.body_type {
                BodyType::Character(c0) => Some(*c0),
                _ => None,
            };
            if let Some(mut ch) = resident {
                let is_colliding = ids_contain(&grounded, rec.id);
                let closest = closest_vector(&alpha_positions, rec.position);
                let world_state = CharacterWorldState::new(is_colliding, closest);
                let character_physics = self.factory.update(&mut ch, delta, world_state);
                let st = ch.state();
                rec.body_type = BodyType::Character(ch);
                cmds.push(EngineCommand::SetVelocity {
                    id: rec.id,
                    velocity: character_physics.velocity(),
                });
                cmds.push(EngineCommand::SetAngle {
                    id: rec.id,
                    angle_deg: character_physics.angle(),
                });
                if !st.is_alive() {
                    let ghost to_destroy_before = to_destroy@;
                    to_destroy.push(rec.id);
                    proof {
                        assert(to_destroy@.last() == rec.id);
                        assert(to_destroy@.contains(rec.id));
                        assert forall|cf: Contact|
                            all_facts.contains(cf) && attack_fact(cf) implies to_destroy@.contains(
                            attack_target(cf),
                        ) by {
                            let w = choose|w: int|
                                0 <= w < to_destroy_before.len() && to_destroy_before[w]
                                    == attack_target(cf);
                            assert(to_destroy@[w] == attack_target(cf));
                        }
                        assert forall|x: u128| to_destroy@.contains(x) implies (exists|cf: Contact|
                            all_facts.contains(cf) && attack_fact(cf) && attack_target(cf) == x)
                            || (exists|j: int|
                            0 <= j < mid.len() && mid[j].id == x && mid[j].body_type is Character) by {
                            let w = choose|w: int|
                                0 <= w < to_destroy@.len() && to_destroy@[w] == x;
                            if w < to_destroy_before.len() {
                                assert(to_destroy_before[w] == x);
                                assert(to_destroy_before.contains(x));
                            } else {
                                assert(x == mid[i].id);
                                assert(mid[i].body_type is Character);
                            }
                        }
                        assert forall|k: int|
                            0 <= k < i && (((#[trigger] self.bodies@[k]).body_type) matches BodyType::Character(
                                ch2,
                            ) && !(ch2.spec_state() is Alive)) implies to_destroy@.contains(
                            self.bodies@[k].id,
                        ) by {
                            let w = choose|w: int|
                                0 <= w < to_destroy_before.len() && to_destroy_before[w]
                                    == self.bodies@[k].id;
                            assert(to_destroy@[w] == self.bodies@[k].id);
                        }
                    }
                }
                let ghost rid = rec.id;
                let ghost rbt = rec.body_type;
                self.bodies.push(rec);
                proof {
                    assert(self.bodies@[i].id == rid && self.bodies@[i].body_type == rbt);
                    assert(rbt == BodyType::Character(ch));
                    if !(ch.spec_state() is Alive) {
                        assert(st == ch.spec_state());
                        assert(to_destroy@.contains(rid));
                    }
                }
            } else {
                self.bodies.push(rec);
            }
            proof {
                i = i + 1;
            }
        }
        let ghost stage2 = self.bodies@;
        proof {
            assert(self.wf());
            assert(forall|a: int, b: int|
                0 <= a < b < stage2.len() ==> stage2[a].id != stage2[b].id);
        }
        let ghost to_destroy_final = to_destroy@;

        // run the lifecycle state machine over everything marked
        let (mut events, dcmds, kept, notes) = self.destroy_bodies_by_id(&to_destroy);
        let mut dcmds = dcmds;
        cmds.append(&mut dcmds);
        let mut ambient = ambient;
        let ghost devents_len = events@.len();
        let ghost ambient_before = ambient@;
        events.append(&mut ambient);

        proof {
            // no record appears from nowhere, and lifecycles only advance
            assert forall|j: int| 0 <= j < self.bodies@.len() implies exists|m: int|
                0 <= m < stage2.len() && self.bodies@[j].id == stage2[m].id && type_rank(
                    stage2[m].body_type,
                ) <= type_rank(#[trigger] self.bodies@[j].body_type) by {
                let m = kept@[j];
                assert(0 <= m < stage2.len());
                assert(self.bodies@[j].id == stage2[m].id);
            }
            assert forall|id: u128| final(self).spec_has_id(id) implies old(self).spec_has_id(
                id,
            ) by {
                let j = choose|j: int| 0 <= j < self.bodies@.len() && self.bodies@[j].id == id;
                let m = kept@[j];
                assert(stage2[m].id == id);
                assert(stage0[m].id == id);
            }
            // a notified passive body is gone from the arena
            assert forall|k: int|
                0 <= k < events@.len() implies ((#[trigger] events@[k]) matches GameEvent::Destroy(
                b,
            ) ==> (b.body_type is Character || !self.spec_has_id(b.id))) by {
                if k < devents_len {
                    match events@[k] {
                        GameEvent::Destroy(b) => if !(b.body_type is Character) {
                            let src = notes@[k];
                            let note = notified(stage2, to_destroy@)[k];
                            assert(note == spec_removal_result(stage2[src]));
                            assert(b.body_type == note.body_type);
                            assert(!(stage2[src].body_type is Character));
                            assert(note == stage2[src]);
                            assert(spec_removal_action(stage2[src]) is DestroyNotify);
                            assert(b.id == stage2[src].id);
                            if self.spec_has_id(b.id) {
                                let j = choose|j: int|
                                    0 <= j < self.bodies@.len() && self.bodies@[j].id == b.id;
                                let m = kept@[j];
                                assert(stage2[m].id == b.id);
                                assert(m == src);
                                assert(spec_removal_action(stage2[m]).keeps());
                                assert(false);
                            }
                        },
                        _ => {},
                    }
                } else {
                    assert(events@[k] == ambient_before[k - devents_len]);
                    assert(!(events@[k] is Destroy));
                }
            }
            // the heavy-collision event comes exactly when a heavy
            // passive fact was classified
            assert(events@.contains(GameEvent::HeavyCollision) == heavy_in_ambient) by {
                if heavy_in_ambient {
                    assert(ambient_before.last() == GameEvent::HeavyCollision);
                    assert(events@[devents_len + ambient_before.len() - 1]
                        == GameEvent::HeavyCollision);
                } else {
                    if events@.contains(GameEvent::HeavyCollision) {
                        let k = choose|k: int|
                            0 <= k < events@.len() && events@[k] == GameEvent::HeavyCollision;
                        if k < devents_len {
                            assert(events@[k] is Destroy);
                            assert(false);
                        } else {
                            assert(ambient_before[k - devents_len] is CharacterAttack);
                            assert(false);
                        }
                    }
                }
            }
            // an attack event comes exactly when an attack fact was
            // classified
            assert((exists|k: int|
                0 <= k < events@.len() && (#[trigger] events@[k]) is CharacterAttack)
                == attack_seen) by {
                if attack_seen {
                    let k2 = choose|k2: int|
                        0 <= k2 < ambient_attacks.len() && (#[trigger] ambient_attacks[k2]) is CharacterAttack;
                    assert(ambient_before[k2] == ambient_attacks[k2]);
                    assert(events@[devents_len + k2] is CharacterAttack);
                } else {
                    if exists|k: int|
                        0 <= k < events@.len() && (#[trigger] events@[k]) is CharacterAttack {
                        let k = choose|k: int|
                            0 <= k < events@.len() && (#[trigger] events@[k]) is CharacterAttack;
                        if k < devents_len {
                            assert(events@[k] is Destroy);
                            assert(false);
                        } else {
                            assert(ambient_before[k - devents_len] is CharacterAttack);
                            assert(false);
                        }
                    }
                }
            }
            // ordering: removal notifications first, the heavy event last
            assert forall|k1: int, k2: int|
                0 <= k1 < k2 < events@.len() && (#[trigger] events@[k2]) is Destroy implies (
            #[trigger] events@[k1]) is Destroy by {
                if k2 >= devents_len {
                    assert(events@[k2] == ambient_before[k2 - devents_len]);
                    if k2 - devents_len < ambient_attacks.len() {
                        assert(ambient_before[k2 - devents_len] is CharacterAttack);
                    } else {
                        assert(ambient_before[k2 - devents_len] is HeavyCollision);
                    }
                    assert(false);
                }
            }
            assert forall|k: int|
                0 <= k < events@.len() && (#[trigger] events@[k]) is HeavyCollision implies k
                == events@.len() - 1 by {
                if k < devents_len {
                    assert(events@[k] is Destroy);
                    assert(false);
                } else {
                    assert(events@[k] == ambient_before[k - devents_len]);
                    if k - devents_len < ambient_attacks.len() {
                        assert(ambient_before[k - devents_len] is CharacterAttack);
                        assert(false);
                    }
                    assert(k - devents_len == ambient_attacks.len());
                    assert(heavy_in_ambient);
                    assert(k == devents_len + ambient_before.len() - 1);
                }
            }
            // every attacked passive body has left the arena
            assert forall|cf: Contact|
                all_facts.contains(cf) && attack_fact(cf) implies !self.spec_has_id(
                attack_target(cf),
            ) by {
                let t = attack_target(cf);
                lemma_tick_fact_target(prof, report.contacts@, threshold, cf);
                let pi = choose|pi: int|
                    0 <= pi < prof.len() && prof[pi] == (t, Option::<CharacterType>::None);
                assert(stage1[pi].id == t);
                assert(!(stage1[pi].body_type is Character));
                assert(stage2[pi].id == t);
                assert(!(stage2[pi].body_type is Character));
                assert(to_destroy_final.contains(t));
                assert(spec_removal_action(stage2[pi]) is DestroyNotify);
                if self.spec_has_id(t) {
                    let j = choose|j: int|
                        0 <= j < self.bodies@.len() && self.bodies@[j].id == t;
                    let m = kept@[j];
                    assert(stage2[m].id == t);
                    if m != pi {
                        assert(stage2[m].id != stage2[pi].id);
                        assert(false);
                    }
                    assert(spec_removal_action(stage2[m]).keeps());
                    assert(false);
                }
            }
            assert(stage0 == old(self).bodies@);
            assert(prof == spec_profile(old(self).bodies@));
            // every attacked passive body is also notified: its removal
            // decision emits the one event
            assert forall|cf: Contact|
                all_facts.contains(cf) && attack_fact(cf) implies destroy_event_for(
                events@,
                attack_target(cf),
            ) by {
                let t = attack_target(cf);
                lemma_tick_fact_target(prof, report.contacts@, threshold, cf);
                let pi = choose|pi: int|
                    0 <= pi < prof.len() && prof[pi] == (t, Option::<CharacterType>::None);
                assert(stage2[pi].id == t);
                assert(!(stage2[pi].body_type is Character));
                assert(to_destroy_final.contains(t));
                assert(spec_removal_action(stage2[pi]).notifies());
                lemma_notified_complete(stage2, to_destroy_final, pi);
                let k = choose|k: int|
                    0 <= k < notified(stage2, to_destroy_final).len() && (#[trigger] notified(
                        stage2,
                        to_destroy_final,
                    )[k]).id == t;
                assert(0 <= k < devents_len);
                match events@[k] {
                    GameEvent::Destroy(b) => {
                        assert(b.id == t);
                        assert(0 <= k < events@.len() && ((#[trigger] events@[k]) matches GameEvent::Destroy(
                            b2,
                        ) && b2.id == t));
                        assert(destroy_event_for(events@, t));
                    },
                    _ => {
                        assert(false);
                    },
                }
            }
            // a passive body leaves the arena this tick only when attacked
            assert forall|i: int|
                0 <= i < old(self).bodies@.len() && !((#[trigger] old(
                    self,
                ).bodies@[i]).body_type is Character) && !self.spec_has_id(old(self).bodies@[i].id) implies was_attacked(
                all_facts,
                old(self).bodies@[i].id,
            ) by {
                let x = old(self).bodies@[i].id;
                assert(stage1[i].id == x && stage1[i].body_type == stage0[i].body_type);
                assert(stage2[i].id == x);
                assert(!(stage2[i].body_type is Character));
                if !to_destroy_final.contains(x) || spec_removal_action(stage2[i]).keeps() {
                    lemma_surviving_complete(stage2, to_destroy_final, i);
                    assert(seq_has_id(self.bodies@, x));
                    assert(self.spec_has_id(x));
                    assert(false);
                }
                assert(to_destroy_final.contains(x));
                if exists|j: int|
                    0 <= j < mid.len() && mid[j].id == x && mid[j].body_type is Character {
                    let j = choose|j: int|
                        0 <= j < mid.len() && mid[j].id == x && mid[j].body_type is Character;
                    if j != i {
                        assert(stage1[j].id != stage1[i].id);
                        assert(false);
                    }
                    assert(false);
                }
                let cf = choose|cf: Contact|
                    all_facts.contains(cf) && attack_fact(cf) && attack_target(cf) == x;
                assert(was_attacked(all_facts, x));
            }
            // a surviving character past its departure is disabled
            assert forall|j: int|
                0 <= j < self.bodies@.len() implies (((#[trigger] self.bodies@[j]).body_type) matches BodyType::Character(
                c,
            ) && !(c.spec_state() is Alive) ==> !self.bodies@[j].enabled) by {
                match self.bodies@[j].body_type {
                    BodyType::Character(c) => {
                        if !(c.spec_state() is Alive) {
                            let m = kept@[j];
                            if to_destroy_final.contains(stage2[m].id) {
                                assert(self.bodies@[j] == spec_removal_result(stage2[m]));
                                assert(!self.bodies@[j].enabled);
                            } else {
                                assert(self.bodies@[j] == stage2[m]);
                                assert(stage2[m].body_type is Character);
                                assert(to_destroy_final.contains(stage2[m].id));
                                assert(false);
                            }
                        }
                    },
                    _ => {},
                }
            }
            // a character is notified only while its body was enabled at
            // the start of the tick
            assert forall|k: int|
                0 <= k < events@.len() implies ((#[trigger] events@[k]) matches GameEvent::Destroy(
                b,
            ) ==> (!(b.body_type is Character) || enabled_source(old(self).bodies@, b.id))) by {
                if k < devents_len {
                    match events@[k] {
                        GameEvent::Destroy(b) => {
                            if b.body_type is Character {
                                let src = notes@[k];
                                let note = notified(stage2, to_destroy_final)[k];
                                assert(note == spec_removal_result(stage2[src]));
                                assert(b.body_type == note.body_type);
                                assert(stage2[src].body_type is Character);
                                assert(spec_removal_action(stage2[src]).notifies());
                                assert(stage2[src].enabled);
                                assert(b.id == stage2[src].id);
                                assert(stage2[src].enabled == mid[src].enabled);
                                assert(stage1[src].enabled == stage0[src].enabled);
                                assert(old(self).bodies@[src].id == b.id);
                                assert(old(self).bodies@[src].enabled);
                                assert(enabled_source(old(self).bodies@, b.id));
                            }
                        },
                        _ => {},
                    }
                } else {
                    assert(!(events@[k] is Destroy));
                }
            }
        }
        (events, cmds)
    }
}


/// The explosion force numerator at a given distance: zero at or beyond
/// the falloff distance, else the peak force times the remaining distance.
/// The force a body receives is this value divided by the falloff
/// distance — the linear falloff `magnitude * (1 - dist / falloff)`.
pub open spec fn spec_radial_force_num(magnitude: i64, falloff: i64, dist: i64) -> int {
    if dist >= falloff {
        0
    } else {
        magnitude * (falloff - dist)
    }
}

/// Whether an explosion command is accepted: the time since the last
/// accepted explosion has reached the minimum interval.
pub open spec fn explosion_accepted(timer_us: u64) -> bool {
    timer_us >= EXPLOSION_MIN_INTERVAL_US
}

/// Law: radial impulse falloff. The explosion force is zero for every body
/// at or beyond the falloff distance, and strictly decreasing in the
/// distance below it.
pub proof fn lemma_radial_impulse_falloff(magnitude: i64, falloff: i64, d1: i64, d2: i64)
    requires
        0 < magnitude,
        0 < falloff,
        0 <= d1 < d2,
        d2 < falloff,
    ensures
        spec_radial_force_num(magnitude, falloff, d1) > spec_radial_force_num(
            magnitude,
            falloff,
            d2,
        ),
        forall|d: i64| d >= falloff ==> spec_radial_force_num(magnitude, falloff, d) == 0,
{
    assert(magnitude * (falloff - d1) > magnitude * (falloff - d2)) by (nonlinear_arith)
        requires
            0 < magnitude,
            0 <= d1 < d2,
            d2 < falloff,
    ;
}

/// Law: explosion rate limit. An accepted explosion resets the interval
/// clock to zero, and a second explosion issued before the minimum
/// interval has passed again finds the clock below the threshold, so it
/// emits nothing: two explosion commands less than the minimum interval
/// apart produce exactly one explosion event.
pub proof fn lemma_explosion_rate_limit(elapsed: u64)
    requires
        elapsed < EXPLOSION_MIN_INTERVAL_US,
    ensures
        !explosion_accepted(crate::animation::sat_add_time(0, elapsed)),
{
}

/// The floor of the square root of a nonnegative number.
pub open spec fn spec_isqrt(n: int) -> int {
    choose|r: int| 0 <= r && #[trigger] (r * r) <= n && n < (r + 1) * (r + 1)
}

/// The floor of the square root is unique: any two nonnegative values
/// whose squares bracket `n` are equal.
pub proof fn lemma_isqrt_unique(n: int, a: int, b: int)
    requires
        0 <= a,
        a * a <= n,
        n < (a + 1) * (a + 1),
        0 <= b,
        b * b <= n,
        n < (b + 1) * (b + 1),
    ensures
        a == b,
{
    assert(a == b) by (nonlinear_arith)
        requires
            0 <= a,
            a * a <= n,
            n < (a + 1) * (a + 1),
            0 <= b,
            b * b <= n,
            n < (b + 1) * (b + 1),
    ;
}

/// Floor of the square root, by binary search.
fn isqrt(n: u64) -> (r: u64)
    ensures
        r * r <= n,
        n < (r + 1) * (r + 1),
        r <= 0xFFFF_FFFF,
        r == spec_isqrt(n as int),
{
    let mut lo: u64 = 0;
    let mut hi: u64 = 0xFFFF_FFFF;
    proof {
        assert((0xFFFF_FFFFu64 + 1) * (0xFFFF_FFFFu64 + 1) > u64::MAX as int) by (nonlinear_arith);
    }
    while lo < hi
        invariant
            lo <= hi <= 0xFFFF_FFFF,
            lo * lo <= n,
            n < (hi + 1) * (hi + 1),
        decreases hi - lo,
    {
        let mid: u64 = lo + (hi - lo + 1) / 2;
        proof {
            assert(mid * mid <= 0xFFFF_FFFFu64 * 0xFFFF_FFFFu64) by (nonlinear_arith)
                requires
                    mid <= 0xFFFF_FFFFu64,
            ;
        }
        let sq: u64 = mid * mid;
        if sq <= n {
            lo = mid;
        } else {
            hi = mid - 1;
            proof {
                assert(n < (hi + 1) * (hi + 1));
            }
        }
    }
    proof {
        assert(exists|r: int| 0 <= r && #[trigger] (r * r) <= n && n < (r + 1) * (r + 1)) by {
            assert(0 <= lo as int && (lo as int) * (lo as int) <= n && n < (lo as int + 1) * (
            lo as int + 1));
        }
        let c = spec_isqrt(n as int);
        lemma_isqrt_unique(n as int, lo as int, c);
    }
    lo
}

/// The explosion commands one accepted explosion at center `c` issues: one
/// radial force per recorded body whose falloff force is still positive,
/// in arena order, directed from the center toward the body.
pub open spec fn spec_explosion_cmds(
    s: Seq<BodyRecord>,
    c: Vec2,
    magnitude: i64,
    falloff: i64,
) -> Seq<EngineCommand>
    decreases s.len(),
{
    if s.len() == 0 {
        Seq::empty()
    } else {
        let dist = spec_isqrt(s[0].position.spec_dist_sq(c));
        let force = spec_radial_force_num(magnitude, falloff, dist as i64) / (falloff as int);
        let head: Seq<EngineCommand> = if force > 0 {
            seq![
                EngineCommand::RadialForce {
                    id: s[0].id,
                    direction: s[0].position.spec_sub(c),
                    force_milli: force as i64,
                },
            ]
        } else {
            Seq::empty()
        };
        head + spec_explosion_cmds(s.drop_first(), c, magnitude, falloff)
    }
}

/// The engine force of a directional push.
pub open spec fn spec_push_force(config: PhysicsConfig, direction: Direction) -> Vec2 {
    let m = config.push_force_milli;
    match direction {
        Direction::Up => Vec2 { x: 0, y: -m as i64 },
        Direction::Down => Vec2 { x: 0, y: m },
        Direction::Left => Vec2 { x: -m as i64, y: 0 },
        Direction::Right => Vec2 { x: m, y: 0 },
    }
}

impl Physics {
    /// The falloff force scalar at a given distance from the explosion
    /// center: the numerator [`spec_radial_force_num`] divided by the
    /// falloff distance. Zero at or beyond the falloff distance, never
    /// above the peak force.
    pub fn radial_force(magnitude: i64, falloff: i64, dist: i64) -> (f: i64)
        requires
            0 <= magnitude <= 1_000_000_000,
            1 <= falloff <= crate::geometry::COORD_LIMIT,
            0 <= dist,
        ensures
            f == spec_radial_force_num(magnitude, falloff, dist) / (falloff as int),
            dist >= falloff ==> f == 0,
            0 <= f <= magnitude,
    {
        if dist >= falloff {
            0
        } else {
            proof {
                let m = magnitude as int;
                let fo = falloff as int;
                let di = dist as int;
                assert(0 <= m * (fo - di) <= m * fo && m * fo <= 1_000_000_000 * (
                crate::geometry::COORD_LIMIT as int)) by (nonlinear_arith)
                    requires
                        0 <= m <= 1_000_000_000,
                        1 <= fo <= crate::geometry::COORD_LIMIT as int,
                        0 <= di,
                        di < fo,
                ;
                vstd::arithmetic::div_mod::lemma_div_is_ordered(m * (fo - di), m * fo, fo);
                vstd::arithmetic::div_mod::lemma_div_by_multiple(m, fo);
                assert((m * fo) / fo == m);
                vstd::arithmetic::div_mod::lemma_div_pos_is_pos(m * (fo - di), fo);
            }
            magnitude * (falloff - dist) / falloff
        }
    }

    /// A bulk action on the world: a directional push of every dynamic
    /// body, or a rate-limited radial explosion at a random spot. An
    /// explosion is accepted only when the minimum interval has passed
    /// since the last accepted one; a rejected one is a silent no-op.
    pub fn action(&mut self, action: PhysicsAction) -> (r: (Vec<GameEvent>, Vec<EngineCommand>))
        requires
            old(self).wf(),
        ensures
            final(self).wf(),
            *final(self) == (Physics {
                rng: final(self).rng,
                time_since_last_explosion: final(self).time_since_last_explosion,
                ..*old(self)
            }),
            action matches PhysicsAction::Push(d) ==> (r.0@.len() == 0 && r.1@ =~= seq![
                EngineCommand::PushAll { force: spec_push_force(old(self).config, d) },
            ] && final(self).time_since_last_explosion == old(self).time_since_last_explosion),
            action is Explode && !explosion_accepted(old(self).time_since_last_explosion) ==> (
            r.0@.len() == 0 && r.1@.len() == 0 && final(self).time_since_last_explosion == old(
                self,
            ).time_since_last_explosion),
            action is Explode && explosion_accepted(old(self).time_since_last_explosion) ==> (
            final(self).time_since_last_explosion == 0 && r.0@.len() == 1 && r.0@[0] is Explosion
                && (exists|c: Vec2|
                0 <= c.x <= old(self).world_width && 0 <= c.y <= old(self).world_height && r.0@
                    == seq![
                    GameEvent::Explosion {
                        x: (c.x * old(self).config.pixels_per_meter / 1000) as i64,
                        y: (c.y * old(self).config.pixels_per_meter / 1000) as i64,
                    },
                ] && r.1@ == spec_explosion_cmds(
                    old(self).bodies@,
                    c,
                    old(self).config.explosion_force_milli,
                    old(self).config.explosion_distance_milli,
                )) && forall|k: int|
                0 <= k < r.1@.len() ==> ((#[trigger] r.1@[k]) matches EngineCommand::RadialForce {
                    id,
                    direction,
                    force_milli,
                } && old(self).spec_has_id(id) && 0 < force_milli <= old(
                    self,
                ).config.explosion_force_milli)),
    {
        let mut events: Vec<GameEvent> = Vec::new();
        let mut cmds: Vec<EngineCommand> = Vec::new();
        match action {
            PhysicsAction::Push(direction) => {
                let magnitude = self.config.push_force_milli;
                let force = match direction {
                    Direction::Up => Vec2 { x: 0, y: -magnitude },
                    Direction::Down => Vec2 { x: 0, y: magnitude },
                    Direction::Left => Vec2 { x: -magnitude, y: 0 },
                    Direction::Right => Vec2 { x: magnitude, y: 0 },
                };
                cmds.push(EngineCommand::PushAll { force });
            },
            PhysicsAction::Explode => {
                // repeated large impulses destabilize the solver, so
                // explosions are rate limited
                if self.time_since_last_explosion < EXPLOSION_MIN_INTERVAL_US {
                    return (events, cmds);
                }
                self.time_since_last_explosion = 0;

                let hw: i64 = 50 + SPAWN_BUFFER_MILLI;
                let hh: i64 = 50 + SPAWN_BUFFER_MILLI;
                let cx: i64 = if hw < self.world_width - hw {
                    gen_range_i64(&mut self.rng, hw, self.world_width - hw)
                } else {
                    self.world_width / 2
                };
                let cy: i64 = if hh < self.world_height - hh {
                    gen_range_i64(&mut self.rng, hh, self.world_height - hh)
                } else {
                    self.world_height / 2
                };
                let location = Vec2 { x: cx, y: cy };
                let ghost magnitude0 = self.config.explosion_force_milli;
                let ghost falloff0 = self.config.explosion_distance_milli;
                proof {
                    assert(self.bodies@.skip(0) =~= self.bodies@);
                }

                let n = self.bodies.len();
                let mut i: usize = 0;
                while i < n
                    invariant
                        self.wf(),
                        n == self.bodies@.len(),
                        i <= n,
                        0 <= location.x <= self.world_width,
                        0 <= location.y <= self.world_height,
                        magnitude0 == self.config.explosion_force_milli,
                        falloff0 == self.config.explosion_distance_milli,
                        cmds@ + spec_explosion_cmds(
                            self.bodies@.skip(i as int),
                            location,
                            magnitude0,
                            falloff0,
                        ) =~= spec_explosion_cmds(self.bodies@, location, magnitude0, falloff0),
                        forall|k: int|
                            0 <= k < cmds@.len() ==> ((#[trigger] cmds@[k]) matches EngineCommand::RadialForce {
                                id,
                                direction,
                                force_milli,
                            } && self.spec_has_id(id) && 0 < force_milli
                                <= self.config.explosion_force_milli),
                    decreases n - i,
                {
                    let body = &self.bodies[i];
                    let d_sq: i64 = body.position.dist_sq(location);
                    proof {
                        assert(d_sq >= 0) by (nonlinear_arith)
                            requires
                                d_sq == body.position.spec_dist_sq(location),
                        ;
                    }
                    let dist: i64 = isqrt(d_sq as u64) as i64;
                    proof {
                        assert(dist == spec_isqrt(d_sq as int));
                        assert(self.bodies@.skip(i as int)[0] == self.bodies@[i as int]);
                        assert(self.bodies@.skip(i as int).drop_first() =~= self.bodies@.skip(
                            i + 1,
                        ));
                    }
                    // force is inversely proportional to the distance
                    // between the body and the explosion center
                    let force = Self::radial_force(
                        self.config.explosion_force_milli,
                        self.config.explosion_distance_milli,
                        dist,
                    );
                    if force > 0 {
                        let direction = body.position.sub(location);
                        let ghost idx = i as int;
                        cmds.push(
                            EngineCommand::RadialForce {
                                id: body.id,
                                direction,
                                force_milli: force,
                            },
                        );
                        proof {
                            assert(self.bodies@[idx].id == cmds@.last()->RadialForce_id);
                        }
                    }
                    proof {
                        assert(cmds@ + spec_explosion_cmds(
                            self.bodies@.skip(i + 1),
                            location,
                            magnitude0,
                            falloff0,
                        ) =~= spec_explosion_cmds(self.bodies@, location, magnitude0, falloff0));
                    }
                    i = i + 1;
                }

                proof {
                    assert(0 <= location.x * self.config.pixels_per_meter <= 10_000_000_000_000
                        && 0 <= location.y * self.config.pixels_per_meter <= 10_000_000_000_000)
                        by (nonlinear_arith)
                        requires
                            0 <= location.x <= WORLD_LIMIT,
                            0 <= location.y <= WORLD_LIMIT,
                            1 <= self.config.pixels_per_meter <= 100_000,
                    ;
                }
                let px: i64 = location.x * self.config.pixels_per_meter / 1000;
                let py: i64 = location.y * self.config.pixels_per_meter / 1000;
                events.push(GameEvent::Explosion { x: px, y: py });
                proof {
                    assert(self.bodies@.skip(n as int) =~= Seq::<BodyRecord>::empty());
                    assert(cmds@ =~= spec_explosion_cmds(
                        self.bodies@,
                        location,
                        magnitude0,
                        falloff0,
                    ));
                    assert(events@ =~= seq![GameEvent::Explosion { x: px, y: py }]);
                }
            },
        }
        (events, cmds)
    }
}


/// The world-space footprint of a sprite asset: its proportional unit
/// extents scaled by the sprite scale, floored at one thousandth.
pub open spec fn spec_asset_extents(config: PhysicsConfig, sprite: crate::assets::SpriteAsset) -> (
    i64,
    i64,
) {
    let u = sprite.spec_unit_scale();
    let w = u.0 * config.polygon_scale_milli / 1000;
    let h = u.1 * config.polygon_scale_milli / 1000;
    ((if w == 0 { 1int } else { w }) as i64, (if h == 0 { 1int } else { h }) as i64)
}

impl Physics {
    /// Spawn an autonomous character: place it (evicting overlapping
    /// bodies only after the retry budget is spent), record it alive and
    /// enabled under a fresh identifier, and emit the eviction
    /// notifications followed by the spawn notification.
    pub fn spawn_character(&mut self, character_type: CharacterType) -> (r: (
        Vec<GameEvent>,
        Vec<EngineCommand>,
    ))
        requires
            old(self).wf(),
            old(self).can_spawn(),
            ({
                let e = CharacterFactory::spec_half_extents(old(self).config, character_type);
                &&& e.0 + SPAWN_BUFFER_MILLI < old(self).world_width - (e.0 + SPAWN_BUFFER_MILLI)
                &&& e.1 + SPAWN_BUFFER_MILLI < old(self).world_height - (e.1 + SPAWN_BUFFER_MILLI)
            }),
        ensures
            final(self).wf(),
            final(self).next_seq == old(self).next_seq + 1,
            final(self).config == old(self).config,
            final(self).world_width == old(self).world_width,
            final(self).world_height == old(self).world_height,
            final(self).time_since_last_explosion == old(self).time_since_last_explosion,
            final(self).bodies@.len() >= 1,
            ({
                let newr = final(self).bodies@.last();
                &&& newr.body_type matches BodyType::Character(c) && c.spec_character_type()
                    == character_type && c.spec_state() is Alive
                &&& newr.enabled
                &&& !old(self).spec_has_id(newr.id)
            }),
            r.0@.len() >= 1,
            (r.0@.last() matches GameEvent::Spawned(b) && body_matches(
                b,
                final(self).bodies@.last(),
                old(self).config.pixels_per_meter,
            )),
            forall|k: int| 0 <= k < r.0@.len() - 1 ==> (#[trigger] r.0@[k]) is Destroy,
            forall|id: u128|
                final(self).spec_has_id(id) ==> old(self).spec_has_id(id)
                    || id == final(self).bodies@.last().id,
            r.1@.len() >= 1,
            (r.1@.last() matches EngineCommand::Create {
                id,
                position,
                circle_radius,
                ..
            } && id == final(self).bodies@.last().id
                && position == final(self).bodies@.last().position && circle_radius is Some),
    {
        let (hw, hh) = self.factory.half_extents(character_type);
        let width: i64 = 2 * hw;
        let height: i64 = 2 * hh;
        proof {
            assert(width / 2 == hw);
            assert(height / 2 == hh);
        }
        let (position, evict) = self.find_position(width, height, SPAWN_MAX_ATTEMPTS);
        let ghost pre_destroy = *self;
        let (mut events, mut cmds, kept, _notes) = self.destroy_bodies_by_id(&evict);
        let ghost post_destroy = *self;
        let character = self.factory.new_character(character_type);
        let id = self.fresh_id();
        let rec = BodyRecord {
            id,
            width,
            height,
            body_type: BodyType::Character(character),
            enabled: true,
            position,
            angle_deg: 0,
            polygons: Vec::new(),
        };
        let snapshot = body_of(&rec, self.config.pixels_per_meter);
        cmds.push(
            EngineCommand::Create {
                id,
                position,
                width,
                height,
                circle_radius: Some(hw),
                triangles: Vec::new(),
            },
        );
        self.bodies.push(rec);
        events.push(GameEvent::Spawned(snapshot));
        proof {
            assert forall|id2: u128| self.spec_has_id(id2) implies old(self).spec_has_id(id2)
                || id2 == self.bodies@.last().id by {
                let j = choose|j: int| 0 <= j < self.bodies@.len() && self.bodies@[j].id == id2;
                if j < self.bodies@.len() - 1 {
                    let m = kept@[j];
                    assert(old(self).bodies@[m].id == id2);
                }
            }
        }
        (events, cmds)
    }

    /// Spawn a passive sprite body: place it like a character, record it
    /// with one render fixture per triangulated convex piece, and emit the
    /// eviction notifications followed by the spawn notification.
    pub fn spawn_asset(&mut self, sprite: &crate::assets::SpriteAsset) -> (r: (
        Vec<GameEvent>,
        Vec<EngineCommand>,
    ))
        requires
            old(self).wf(),
            old(self).can_spawn(),
            sprite.wf(),
            ({
                let e = spec_asset_extents(old(self).config, *sprite);
                &&& e.0 / 2 + SPAWN_BUFFER_MILLI < old(self).world_width - (e.0 / 2
                    + SPAWN_BUFFER_MILLI)
                &&& e.1 / 2 + SPAWN_BUFFER_MILLI < old(self).world_height - (e.1 / 2
                    + SPAWN_BUFFER_MILLI)
            }),
        ensures
            final(self).wf(),
            final(self).next_seq == old(self).next_seq + 1,
            final(self).config == old(self).config,
            final(self).world_width == old(self).world_width,
            final(self).world_height == old(self).world_height,
            final(self).time_since_last_explosion == old(self).time_since_last_explosion,
            final(self).bodies@.len() >= 1,
            ({
                let newr = final(self).bodies@.last();
                &&& newr.body_type matches BodyType::Alphanumeric(a) && a.name == sprite.name
                    && a.alphanumeric == sprite.character
                &&& newr.enabled
                &&& newr.polygons@.len() == sprite.triangles@.len()
                &&& !old(self).spec_has_id(newr.id)
            }),
            r.0@.len() >= 1,
            (r.0@.last() matches GameEvent::Spawned(b) && body_matches(
                b,
                final(self).bodies@.last(),
                old(self).config.pixels_per_meter,
            )),
            forall|k: int| 0 <= k < r.0@.len() - 1 ==> (#[trigger] r.0@[k]) is Destroy,
            forall|id: u128|
                final(self).spec_has_id(id) ==> old(self).spec_has_id(id)
                    || id == final(self).bodies@.last().id,
            r.1@.len() >= 1,
            (r.1@.last() matches EngineCommand::Create {
                id,
                position,
                circle_radius,
                triangles,
                ..
            } && id == final(self).bodies@.last().id
                && position == final(self).bodies@.last().position && circle_radius is None
                && triangles@.len() == sprite.triangles@.len()),
    {
        let polygon_scale = self.config.polygon_scale_milli;
        let (unit_w, unit_h) = sprite.unit_scale();
        proof {
            assert(0 <= unit_w * polygon_scale <= 1_000_000_000 && 0 <= unit_h * polygon_scale
                <= 1_000_000_000) by (nonlinear_arith)
                requires
                    1 <= unit_w <= 1000,
                    1 <= unit_h <= 1000,
                    1 <= polygon_scale <= 1_000_000,
            ;
        }
        let w0: i64 = unit_w * polygon_scale / 1000;
        let h0: i64 = unit_h * polygon_scale / 1000;
        let width: i64 = if w0 == 0 {
            1
        } else {
            w0
        };
        let height: i64 = if h0 == 0 {
            1
        } else {
            h0
        };
        proof {
            assert(width <= 1_000_000 && height <= 1_000_000) by (nonlinear_arith)
                requires
                    0 <= unit_w * polygon_scale <= 1_000_000_000,
                    0 <= unit_h * polygon_scale <= 1_000_000_000,
                    w0 == unit_w * polygon_scale / 1000,
                    h0 == unit_h * polygon_scale / 1000,
                    width == (if w0 == 0 { 1int } else { w0 as int }),
                    height == (if h0 == 0 { 1int } else { h0 as int }),
            ;
        }
        let (position, evict) = self.find_position(width, height, SPAWN_MAX_ATTEMPTS);
        let (mut events, mut cmds, kept, _notes) = self.destroy_bodies_by_id(&evict);
        let id = self.fresh_id();
        let ghost snap = *self;

        // one render fixture per triangulated convex piece, centred so the
        // body's local origin is the footprint's centroid
        let offset_x: i64 = unit_w / 2;
        let offset_y: i64 = unit_h / 2;
        let mut polygons: Vec<crate::world::FixtureRecord> = Vec::new();
        let mut triangles: Vec<crate::geometry::Triangle> = Vec::new();
        let mut ti: usize = 0;
        while ti < sprite.triangles.len()
            invariant
                self.wf(),
                *self == (Physics { rng: self.rng, ..snap }),
                sprite.wf(),
                0 <= offset_x <= 500,
                0 <= offset_y <= 500,
                1 <= polygon_scale <= 1_000_000,
                ti <= sprite.triangles@.len(),
                polygons@.len() == ti,
                triangles@.len() == ti,
            decreases sprite.triangles@.len() - ti,
        {
            let st = sprite.triangles[ti];
            let tri = crate::geometry::Triangle {
                a: scale_sprite_point(st.a, offset_x, offset_y, polygon_scale),
                b: scale_sprite_point(st.b, offset_x, offset_y, polygon_scale),
                c: scale_sprite_point(st.c, offset_x, offset_y, polygon_scale),
                color: st.color,
            };
            let fid = gen_u128(&mut self.rng);
            polygons.push(crate::world::FixtureRecord { id: fid, triangle: tri });
            triangles.push(tri);
            ti = ti + 1;
        }

        let rec = BodyRecord {
            id,
            width,
            height,
            body_type: BodyType::Alphanumeric(
                crate::world::AlphanumericBody {
                    name: clone_string(&sprite.name),
                    alphanumeric: sprite.character,
                },
            ),
            enabled: true,
            position,
            angle_deg: 0,
            polygons,
        };
        let snapshot = body_of(&rec, self.config.pixels_per_meter);
        cmds.push(
            EngineCommand::Create {
                id,
                position,
                width,
                height,
                circle_radius: None,
                triangles,
            },
        );
        self.bodies.push(rec);
        events.push(GameEvent::Spawned(snapshot));
        proof {
            assert forall|id2: u128| self.spec_has_id(id2) implies old(self).spec_has_id(id2)
                || id2 == self.bodies@.last().id by {
                let j = choose|j: int| 0 <= j < self.bodies@.len() && self.bodies@[j].id == id2;
                if j < self.bodies@.len() - 1 {
                    let m = kept@[j];
                    assert(old(self).bodies@[m].id == id2);
                }
            }
        }
        (events, cmds)
    }

    /// The render snapshot of every recorded body, in arena order.
    pub fn bodies(&self) -> (r: Vec<crate::world::Body>)
        requires
            self.wf(),
        ensures
            r@.len() == self.bodies@.len(),
            forall|i: int|
                0 <= i < r@.len() ==> body_matches(
                    #[trigger] r@[i],
                    self.bodies@[i],
                    self.config.pixels_per_meter,
                ),
    {
        let mut r: Vec<crate::world::Body> = Vec::new();
        let mut i: usize = 0;
        let n = self.bodies.len();
        while i < n
            invariant
                self.wf(),
                n == self.bodies@.len(),
                i <= n,
                r@.len() == i,
                forall|k: int|
                    0 <= k < i ==> body_matches(
                        #[trigger] r@[k],
                        self.bodies@[k],
                        self.config.pixels_per_meter,
                    ),
            decreases n - i,
        {
            r.push(body_of(&self.bodies[i], self.config.pixels_per_meter));
            i = i + 1;
        }
        r
    }
}

/// Division by one thousand, rounding toward zero.
pub open spec fn spec_div1000_toward_zero(v: int) -> int {
    if v >= 0 {
        v / 1000
    } else {
        -((-v) / 1000)
    }
}

/// One sprite-space point mapped into body-local world space: shifted to
/// the footprint's centroid and scaled by the sprite scale, rounded toward
/// zero.
fn scale_sprite_point(p: crate::assets::SpritePoint, offset_x: i64, offset_y: i64, scale: i64) -> (r:
    Vec2)
    requires
        -1000 <= p.x <= 1000,
        -1000 <= p.y <= 1000,
        0 <= offset_x <= 500,
        0 <= offset_y <= 500,
        1 <= scale <= 1_000_000,
    ensures
        r.x == spec_div1000_toward_zero(scale * (p.x - offset_x)),
        r.y == spec_div1000_toward_zero(scale * (p.y - offset_y)),
        -2_000_000 <= r.x <= 2_000_000,
        -2_000_000 <= r.y <= 2_000_000,
{
    proof {
        assert(-2_000_000_000 <= scale * (p.x - offset_x) <= 2_000_000_000 && -2_000_000_000
            <= scale * (p.y - offset_y) <= 2_000_000_000) by (nonlinear_arith)
            requires
                -1500 <= p.x - offset_x <= 1500,
                -1500 <= p.y - offset_y <= 1500,
                1 <= scale <= 1_000_000,
        ;
    }
    let sx: i64 = scale * (p.x - offset_x);
    let sy: i64 = scale * (p.y - offset_y);
    let x: i64 = if sx >= 0 {
        sx / 1000
    } else {
        -((-sx) / 1000)
    };
    let y: i64 = if sy >= 0 {
        sy / 1000
    } else {
        -((-sy) / 1000)
    };
    Vec2 { x, y }
}

/// An exact copy of a string (the derived clone carries no specification
/// for arbitrary types, but `String`'s is exact).
fn clone_string(s: &String) -> (r: String)
    ensures
        r == *s,
{
    s.clone()
}

} // verus!
