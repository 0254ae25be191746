//! The command/event boundary between the foreground and the simulation
//! worker.
//!
//! The worker thread owns the physics world exclusively. Each iteration it
//! drains the pending commands and applies them in send order, steps the
//! engine, runs the tick, then publishes the tick's events followed by one
//! complete body snapshot. The foreground drains the published batches in
//! order and keeps the latest complete snapshot: a snapshot is replaced
//! wholesale or not at all.

use vstd::prelude::*;
use crate::action::{Direction, PhysicsAction};
use crate::assets::SpriteAsset;
use crate::characters::{CharacterFactory, CharacterType};
use crate::engine::EngineCommand;
use crate::event::GameEvent;
use crate::physics::{
    notified, removal_cmds, spec_asset_extents, spec_explosion_cmds, spec_push_force, surviving,
    explosion_accepted, Physics, SPAWN_BUFFER_MILLI,
};
use crate::geometry::Vec2;
use crate::world::BodyRecord;
use crate::world::{body_matches, Body, BodyType};

verus! {

/// Nominal step period of the worker loop, in microseconds (60 Hz).
pub const UPDATE_PERIOD_US: u64 = 16_666;

/// A command from the foreground to the simulation worker.
#[derive(Debug, Clone)]
pub enum GameSyncCommand {
    Quit,
    Push(Direction),
    Explosion,
    SpawnAsset(SpriteAsset),
    SpawnCharacter(CharacterType),
    Destroy(u128),
}

/// A message from the worker to the foreground: one domain event, or one
/// complete body snapshot.
#[derive(Debug, Clone)]
pub enum GameSyncEvent {
    GameEvent(GameEvent),
    Bodies(Vec<Body>),
}

/// Whether the world can apply a command: spawns need a mintable
/// identifier and a footprint that fits inside the world bounds.
pub open spec fn command_fits(p: Physics, c: GameSyncCommand) -> bool {
    match c {
        GameSyncCommand::SpawnAsset(s) => {
            let e = spec_asset_extents(p.config, s);
            &&& s.wf()
            &&& e.0 / 2 + SPAWN_BUFFER_MILLI < p.world_width - (e.0 / 2 + SPAWN_BUFFER_MILLI)
            &&& e.1 / 2 + SPAWN_BUFFER_MILLI < p.world_height - (e.1 / 2 + SPAWN_BUFFER_MILLI)
        },
        GameSyncCommand::SpawnCharacter(t) => {
            let e = CharacterFactory::spec_half_extents(p.config, t);
            &&& e.0 + SPAWN_BUFFER_MILLI < p.world_width - (e.0 + SPAWN_BUFFER_MILLI)
            &&& e.1 + SPAWN_BUFFER_MILLI < p.world_height - (e.1 + SPAWN_BUFFER_MILLI)
        },
        _ => true,
    }
}

/// Test [`command_fits`], so an unverified caller can reject an
/// inapplicable command before handing a batch to [`apply_commands`].
pub fn command_fits_now(physics: &Physics, command: &GameSyncCommand) -> (r: bool)
    requires
        physics.wf(),
    ensures
        r == command_fits(*physics, *command),
{
    match command {
        GameSyncCommand::SpawnAsset(s) => {
            if !s.check_wf() {
                return false;
            }
            let polygon_scale = physics.config.polygon_scale_milli;
            let (unit_w, unit_h) = s.unit_scale();
            proof {
                assert(0 <= unit_w * polygon_scale <= 1_000_000_000 && 0 <= unit_h * polygon_scale
                    <= 1_000_000_000) by (nonlinear_arith)
                    requires
                        1 <= unit_w <= 1000,
                        1 <= unit_h <= 1000,
                        1 <= polygon_scale <= 1_000_000,
                ;
            }
            let w0: i64 = unit_w * polygon_scale / 1000;
            let h0: i64 = unit_h * polygon_scale / 1000;
            let w: i64 = if w0 == 0 {
                1
            } else {
                w0
            };
            let h: i64 = if h0 == 0 {
                1
            } else {
                h0
            };
            proof {
                assert(w <= 1_000_000_000 && h <= 1_000_000_000);
            }
            w / 2 + SPAWN_BUFFER_MILLI < physics.world_width - (w / 2 + SPAWN_BUFFER_MILLI) && h / 2
                + SPAWN_BUFFER_MILLI < physics.world_height - (h / 2 + SPAWN_BUFFER_MILLI)
        },
        GameSyncCommand::SpawnCharacter(t) => {
            let (hw, hh) = physics.factory.half_extents(*t);
            hw + SPAWN_BUFFER_MILLI < physics.world_width - (hw + SPAWN_BUFFER_MILLI) && hh
                + SPAWN_BUFFER_MILLI < physics.world_height - (hh + SPAWN_BUFFER_MILLI)
        },
        _ => true,
    }
}


/// The observable effect of applying one non-quit command: what the
/// respective world operation's contract states, as a relation between the
/// world before, the world after, and the events and engine commands the
/// step produced.
#[verifier::opaque]
pub open spec fn command_applied(
    pre: Physics,
    c: GameSyncCommand,
    post: Physics,
    events: Seq<GameEvent>,
    engine: Seq<EngineCommand>,
) -> bool {
    match c {
        GameSyncCommand::Quit => false,
        GameSyncCommand::Push(d) => {
            &&& post == (Physics { rng: post.rng, ..pre })
            &&& events.len() == 0
            &&& engine == seq![EngineCommand::PushAll { force: spec_push_force(pre.config, d) }]
        },
        GameSyncCommand::Explosion => {
            &&& post == (Physics {
                rng: post.rng,
                time_since_last_explosion: post.time_since_last_explosion,
                ..pre
            })
            &&& (!explosion_accepted(pre.time_since_last_explosion) ==> events.len() == 0
                && engine.len() == 0 && post.time_since_last_explosion
                == pre.time_since_last_explosion)
            &&& (explosion_accepted(pre.time_since_last_explosion) ==> (
            post.time_since_last_explosion == 0 && exists|c2: Vec2|
                0 <= c2.x <= pre.world_width && 0 <= c2.y <= pre.world_height && events == seq![
                    GameEvent::Explosion {
                        x: (c2.x * pre.config.pixels_per_meter / 1000) as i64,
                        y: (c2.y * pre.config.pixels_per_meter / 1000) as i64,
                    },
                ] && engine == spec_explosion_cmds(
                    pre.bodies@,
                    c2,
                    pre.config.explosion_force_milli,
                    pre.config.explosion_distance_milli,
                )))
        },
        GameSyncCommand::Destroy(id) => {
            &&& post == (Physics { bodies: post.bodies, ..pre })
            &&& post.bodies@ == surviving(pre.bodies@, seq![id])
            &&& engine == removal_cmds(pre.bodies@, seq![id])
            &&& (notified(pre.bodies@, seq![id]).len() == 0 ==> events.len() == 0)
            &&& (notified(pre.bodies@, seq![id]).len() > 0 ==> events.len() == 1 && (
            events[0] matches GameEvent::Destroy(b) && crate::world::body_matches(
                b,
                notified(pre.bodies@, seq![id])[0],
                pre.config.pixels_per_meter,
            )))
        },
        GameSyncCommand::SpawnAsset(sprite) => {
            &&& post.config == pre.config
            &&& post.world_width == pre.world_width
            &&& post.world_height == pre.world_height
            &&& post.time_since_last_explosion == pre.time_since_last_explosion
            &&& post.next_seq == pre.next_seq + 1
            &&& post.bodies@.len() >= 1
            &&& (post.bodies@.last().body_type matches BodyType::Alphanumeric(a) && a.name
                == sprite.name && a.alphanumeric == sprite.character)
            &&& post.bodies@.last().enabled
            &&& !pre.spec_has_id(post.bodies@.last().id)
            &&& events.len() >= 1
            &&& (events.last() matches GameEvent::Spawned(b) && crate::world::body_matches(
                b,
                post.bodies@.last(),
                pre.config.pixels_per_meter,
            ))
            &&& forall|k: int| 0 <= k < events.len() - 1 ==> (#[trigger] events[k]) is Destroy
            &&& forall|id2: u128|
                post.spec_has_id(id2) ==> pre.spec_has_id(id2) || id2 == post.bodies@.last().id
            &&& engine.len() >= 1
            &&& (engine.last() matches EngineCommand::Create { id, position, circle_radius, .. }
                && id == post.bodies@.last().id && position == post.bodies@.last().position
                && circle_radius is None)
        },
        GameSyncCommand::SpawnCharacter(t) => {
            &&& post.config == pre.config
            &&& post.world_width == pre.world_width
            &&& post.world_height == pre.world_height
            &&& post.time_since_last_explosion == pre.time_since_last_explosion
            &&& post.next_seq == pre.next_seq + 1
            &&& post.bodies@.len() >= 1
            &&& (post.bodies@.last().body_type matches BodyType::Character(c2)
                && c2.spec_character_type() == t && c2.spec_state() is Alive)
            &&& post.bodies@.last().enabled
            &&& !pre.spec_has_id(post.bodies@.last().id)
            &&& events.len() >= 1
            &&& (events.last() matches GameEvent::Spawned(b) && crate::world::body_matches(
                b,
                post.bodies@.last(),
                pre.config.pixels_per_meter,
            ))
            &&& forall|k: int| 0 <= k < events.len() - 1 ==> (#[trigger] events[k]) is Destroy
            &&& forall|id2: u128|
                post.spec_has_id(id2) ==> pre.spec_has_id(id2) || id2 == post.bodies@.last().id
            &&& engine.len() >= 1
            &&& (engine.last() matches EngineCommand::Create { id, position, circle_radius, .. }
                && id == post.bodies@.last().id && position == post.bodies@.last().position
                && circle_radius is Some)
        },
    }
}

/// A witness that a batch of commands was applied in send order: state
/// `k` steps to state `k + 1` by the `k`-th command's own effect, and the
/// boundary sequences cut the events and engine commands into the
/// consecutive segments each step contributed.
#[verifier::opaque]
pub open spec fn trace_ok(
    pre: Physics,
    commands: Seq<GameSyncCommand>,
    post: Physics,
    events: Seq<GameEvent>,
    engine: Seq<EngineCommand>,
    states: Seq<Physics>,
    eb: Seq<int>,
    gb: Seq<int>,
) -> bool {
    &&& states.len() == commands.len() + 1
    &&& eb.len() == commands.len() + 1
    &&& gb.len() == commands.len() + 1
    &&& states[0] == pre
    &&& states.last() == post
    &&& eb[0] == 0
    &&& gb[0] == 0
    &&& eb.last() == events.len()
    &&& gb.last() == engine.len()
    &&& forall|k: int|
        0 <= k < commands.len() ==> 0 <= #[trigger] eb[k] <= eb[k + 1] <= events.len()
    &&& forall|k: int|
        0 <= k < commands.len() ==> 0 <= #[trigger] gb[k] <= gb[k + 1] <= engine.len()
    &&& forall|k: int|
        0 <= k < commands.len() ==> command_applied(
            #[trigger] states[k],
            commands[k],
            states[k + 1],
            events.subrange(eb[k], eb[k + 1]),
            engine.subrange(gb[k], gb[k + 1]),
        )
}

/// The effects of a batch of commands compose in send order: some chain
/// of intermediate states and segment boundaries witnesses each command's
/// effect in turn.
pub open spec fn commands_applied(
    pre: Physics,
    commands: Seq<GameSyncCommand>,
    post: Physics,
    events: Seq<GameEvent>,
    engine: Seq<EngineCommand>,
) -> bool {
    exists|states: Seq<Physics>, eb: Seq<int>, gb: Seq<int>|
        trace_ok(pre, commands, post, events, engine, states, eb, gb)
}

/// The prefix of a batch that is applied: everything up to, and not
/// including, the first `Quit`.
pub open spec fn spec_applied_prefix(commands: Seq<GameSyncCommand>) -> Seq<GameSyncCommand>
    decreases commands.len(),
{
    if commands.len() == 0 {
        Seq::empty()
    } else if commands[0] is Quit {
        Seq::empty()
    } else {
        seq![commands[0]] + spec_applied_prefix(commands.drop_first())
    }
}

/// In a batch whose first `i` commands are not `Quit` and whose `i`-th (if
/// any) is, exactly the first `i` commands are applied.
pub proof fn lemma_applied_prefix_at(commands: Seq<GameSyncCommand>, i: int)
    requires
        0 <= i <= commands.len(),
        forall|k: int| 0 <= k < i ==> !((#[trigger] commands[k]) is Quit),
        i < commands.len() ==> commands[i] is Quit,
    ensures
        spec_applied_prefix(commands) == commands.take(i),
    decreases commands.len(),
{
    if commands.len() == 0 {
        assert(commands.take(i) =~= Seq::<GameSyncCommand>::empty());
    } else if i == 0 {
        assert(commands[0] is Quit);
        assert(commands.take(0) =~= Seq::<GameSyncCommand>::empty());
    } else {
        assert(!(commands[0] is Quit));
        lemma_applied_prefix_at(commands.drop_first(), i - 1);
        assert(commands.take(i) =~= seq![commands[0]] + commands.drop_first().take(i - 1));
    }
}

/// Apply the pending commands in send order, stopping at the first `Quit`;
/// commands after a `Quit` are not applied. Returns whether the worker
/// must shut down, the events the commands produced, and the engine
/// commands to carry out before stepping: the composition, in send order,
/// of each applied command's effect.
#[verifier::rlimit(100)]
pub fn apply_commands(physics: &mut Physics, commands: &Vec<GameSyncCommand>) -> (r: (
    bool,
    Vec<GameEvent>,
    Vec<EngineCommand>,
))
    requires
        old(physics).wf(),
        old(physics).next_seq + commands@.len() < u64::MAX,
        forall|k: int|
            0 <= k < commands@.len() ==> command_fits(*old(physics), #[trigger] commands@[k]),
    ensures
        final(physics).wf(),
        final(physics).config == old(physics).config,
        final(physics).world_width == old(physics).world_width,
        final(physics).world_height == old(physics).world_height,
        final(physics).next_seq <= old(physics).next_seq + commands@.len(),
        r.0 == commands@.contains(GameSyncCommand::Quit),
        commands_applied(
            *old(physics),
            spec_applied_prefix(commands@),
            *final(physics),
            r.1@,
            r.2@,
        ),
{
    let mut events: Vec<GameEvent> = Vec::new();
    let mut cmds: Vec<EngineCommand> = Vec::new();
    let ghost mut applied: Seq<GameSyncCommand> = Seq::empty();
    let ghost mut states: Seq<Physics> = seq![*old(physics)];
    let ghost mut eb: Seq<int> = seq![0int];
    let ghost mut gb: Seq<int> = seq![0int];
    proof {
        reveal(trace_ok);
        assert(applied =~= commands@.take(0));
        assert(trace_ok(*old(physics), applied, *physics, events@, cmds@, states, eb, gb));
    }
    let mut i: usize = 0;
    let n = commands.len();
    while i < n
        invariant
            n == commands@.len(),
            i <= n,
            physics.wf(),
            physics.config == old(physics).config,
            physics.world_width == old(physics).world_width,
            physics.world_height == old(physics).world_height,
            physics.next_seq <= old(physics).next_seq + i,
            old(physics).next_seq + commands@.len() < u64::MAX,
            forall|k: int|
                0 <= k < commands@.len() ==> command_fits(*old(physics), #[trigger] commands@[k]),
            forall|k: int| 0 <= k < i ==> !((#[trigger] commands@[k]) is Quit),
            applied == commands@.take(i as int),
            trace_ok(*old(physics), applied, *physics, events@, cmds@, states, eb, gb),
        decreases n - i,
    {
        let ghost pre_step = *physics;
        let ghost events_before = events@;
        let ghost cmds_before = cmds@;
        let ghost mut eseg: Seq<GameEvent> = Seq::empty();
        let ghost mut gseg: Seq<EngineCommand> = Seq::empty();
        let quit = match &commands[i] {
            GameSyncCommand::Quit => true,
            GameSyncCommand::Push(direction) => {
                let (mut e, mut c) = physics.action(PhysicsAction::Push(*direction));
                proof {
                    reveal(command_applied);
                    eseg = e@;
                    gseg = c@;
                    assert(command_applied(pre_step, commands@[i as int], *physics, eseg, gseg));
                }
                events.append(&mut e);
                cmds.append(&mut c);
                false
            },
            GameSyncCommand::Explosion => {
                let (mut e, mut c) = physics.action(PhysicsAction::Explode);
                proof {
                    reveal(command_applied);
                    eseg = e@;
                    gseg = c@;
                    assert(command_applied(pre_step, commands@[i as int], *physics, eseg, gseg));
                }
                events.append(&mut e);
                cmds.append(&mut c);
                false
            },
            GameSyncCommand::SpawnAsset(sprite) => {
                let (mut e, mut c) = physics.spawn_asset(sprite);
                proof {
                    reveal(command_applied);
                    eseg = e@;
                    gseg = c@;
                    assert(command_applied(pre_step, commands@[i as int], *physics, eseg, gseg));
                }
                events.append(&mut e);
                cmds.append(&mut c);
                false
            },
            GameSyncCommand::SpawnCharacter(character) => {
                let (mut e, mut c) = physics.spawn_character(*character);
                proof {
                    reveal(command_applied);
                    eseg = e@;
                    gseg = c@;
                    assert(command_applied(pre_step, commands@[i as int], *physics, eseg, gseg));
                }
                events.append(&mut e);
                cmds.append(&mut c);
                false
            },
            GameSyncCommand::Destroy(id) => {
                let (e, c) = physics.destroy_body(*id);
                let mut c = c;
                match e {
                    Some(event) => {
                        proof {
                            eseg = seq![event];
                            gseg = c@;
                        }
                        events.push(event);
                    },
                    None => {
                        proof {
                            eseg = Seq::empty();
                            gseg = c@;
                        }
                    },
                }
                proof {
                    reveal(command_applied);
                    assert(command_applied(pre_step, commands@[i as int], *physics, eseg, gseg));
                }
                cmds.append(&mut c);
                false
            },
        };
        if quit {
            proof {
                assert(commands@[i as int] is Quit);
                lemma_applied_prefix_at(commands@, i as int);
                assert(commands_applied(*old(physics), applied, *physics, events@, cmds@)) by {
                    assert(trace_ok(
                        *old(physics),
                        applied,
                        *physics,
                        events@,
                        cmds@,
                        states,
                        eb,
                        gb,
                    ));
                }
            }
            return (true, events, cmds);
        }
        proof {
            reveal(trace_ok);
            reveal(command_applied);
            assert(events@ =~= events_before + eseg);
            assert(cmds@ =~= cmds_before + gseg);
            let ghost n_prev = applied.len() as int;
            applied = applied.push(commands@[i as int]);
            states = states.push(*physics);
            eb = eb.push(events@.len() as int);
            gb = gb.push(cmds@.len() as int);
            assert forall|k: int| 0 <= k < n_prev implies command_applied(
                #[trigger] states[k],
                applied[k],
                states[k + 1],
                events@.subrange(eb[k], eb[k + 1]),
                cmds@.subrange(gb[k], gb[k + 1]),
            ) by {
                assert(events@.subrange(eb[k], eb[k + 1]) =~= events_before.subrange(
                    eb[k],
                    eb[k + 1],
                ));
                assert(cmds@.subrange(gb[k], gb[k + 1]) =~= cmds_before.subrange(
                    gb[k],
                    gb[k + 1],
                ));
            }
            assert(events@.subrange(eb[n_prev], eb[n_prev + 1]) =~= eseg);
            assert(cmds@.subrange(gb[n_prev], gb[n_prev + 1]) =~= gseg);
            assert(trace_ok(
                *old(physics),
                applied,
                *physics,
                events@,
                cmds@,
                states,
                eb,
                gb,
            ));
            assert(applied =~= commands@.take(i + 1));
        }
        i = i + 1;
    }
    proof {
        assert(commands@.take(n as int) =~= commands@);
        lemma_applied_prefix_at(commands@, n as int);
        assert(commands_applied(*old(physics), applied, *physics, events@, cmds@)) by {
            assert(trace_ok(*old(physics), applied, *physics, events@, cmds@, states, eb, gb));
        }
    }
    (false, events, cmds)
}

/// The events a batch of sync messages carries, in order.
pub open spec fn spec_events_of(s: Seq<GameSyncEvent>) -> Seq<GameEvent>
    decreases s.len(),
{
    if s.len() == 0 {
        Seq::empty()
    } else {
        spec_events_of(s.drop_last()) + (match s.last() {
            GameSyncEvent::GameEvent(e) => seq![e],
            GameSyncEvent::Bodies(_) => Seq::empty(),
        })
    }
}

/// The last complete snapshot a batch carries, if any.
pub open spec fn spec_last_snapshot(s: Seq<GameSyncEvent>) -> Option<Vec<Body>>
    decreases s.len(),
{
    if s.len() == 0 {
        None
    } else {
        match s.last() {
            GameSyncEvent::Bodies(b) => Some(b),
            GameSyncEvent::GameEvent(_) => spec_last_snapshot(s.drop_last()),
        }
    }
}

/// Package one tick's outcome for the event channel: every event in
/// order, then the complete body snapshot, last, so a reader that applies
/// the batch in order never sees a snapshot older than an event of the
/// same tick.
pub fn publish(events: Vec<GameEvent>, bodies: Vec<Body>) -> (r: Vec<GameSyncEvent>)
    ensures
        r@.len() == events@.len() + 1,
        forall|k: int|
            0 <= k < events@.len() ==> r@[k] == GameSyncEvent::GameEvent(#[trigger] events@[k]),
        r@.last() == GameSyncEvent::Bodies(bodies),
        spec_last_snapshot(r@) == Some(bodies),
{
    let ghost evs = events@;
    let mut events = events;
    let mut r: Vec<GameSyncEvent> = Vec::new();
    let mut i: usize = 0;
    let n = events.len();
    while i < n
        invariant
            n == evs.len(),
            events@ =~= evs.skip(i as int),
            i <= n,
            r@.len() == i,
            forall|k: int| 0 <= k < i ==> r@[k] == GameSyncEvent::GameEvent(#[trigger] evs[k]),
        decreases n - i,
    {
        let e = events.remove(0);
        proof {
            assert(e == evs[i as int]);
            assert(evs.skip(i as int).drop_first() =~= evs.skip(i + 1));
        }
        r.push(GameSyncEvent::GameEvent(e));
        i = i + 1;
    }
    r.push(GameSyncEvent::Bodies(bodies));
    r
}

/// The foreground's view of the simulation: the latest complete body
/// snapshot the worker has published.
pub struct ForegroundView {
    pub latest_bodies: Vec<Body>,
}

impl ForegroundView {
    pub fn new() -> (r: ForegroundView)
        ensures
            r.latest_bodies@.len() == 0,
    {
        ForegroundView { latest_bodies: Vec::new() }
    }

    /// Drain a batch of received sync messages in order: hand back every
    /// event, and replace the retained snapshot with the last complete one
    /// of the batch — wholesale, or not at all.
    pub fn drain(&mut self, received: Vec<GameSyncEvent>) -> (r: Vec<GameEvent>)
        ensures
            r@ == spec_events_of(received@),
            final(self).latest_bodies == (match spec_last_snapshot(received@) {
                Some(b) => b,
                None => old(self).latest_bodies,
            }),
    {
        let ghost all = received@;
        let mut received = received;
        let mut events: Vec<GameEvent> = Vec::new();
        let mut i: usize = 0;
        let n = received.len();
        proof {
            assert(all.take(0) =~= Seq::<GameSyncEvent>::empty());
        }
        while i < n
            invariant
                n == all.len(),
                received@ =~= all.skip(i as int),
                i <= n,
                events@ == spec_events_of(all.take(i as int)),
                self.latest_bodies == (match spec_last_snapshot(all.take(i as int)) {
                    Some(b) => b,
                    None => old(self).latest_bodies,
                }),
            decreases n - i,
        {
            let m = received.remove(0);
            proof {
                assert(m == all[i as int]);
                assert(all.skip(i as int).drop_first() =~= all.skip(i + 1));
                assert(all.take(i + 1).drop_last() =~= all.take(i as int));
                assert(all.take(i + 1).last() == all[i as int]);
            }
            match m {
                GameSyncEvent::GameEvent(event) => events.push(event),
                GameSyncEvent::Bodies(bodies) => {
                    self.latest_bodies = bodies;
                },
            }
            i = i + 1;
        }
        proof {
            assert(all.take(n as int) =~= all);
        }
        events
    }

    /// The latest complete snapshot, for the render collaborator.
    pub fn bodies(&self) -> (r: &Vec<Body>)
        ensures
            r == self.latest_bodies,
    {
        &self.latest_bodies
    }
}

/// Cap a wall-clock delta at the step budget, so that falling behind slows
/// the simulation down instead of destabilizing the solver.
pub fn clamp_delta(delta: u64, budget: u64) -> (r: u64)
    ensures
        r == (if delta <= budget {
            delta
        } else {
            budget
        }),
        r <= budget,
{
    if delta <= budget {
        delta
    } else {
        budget
    }
}

/// Law: snapshot atomicity for removed bodies. In one published tick, a
/// `Destroy` notification for a passive body never coexists with a
/// snapshot entry carrying that body's identifier: the snapshot is built
/// from the arena after the removal pass. (A character entering its
/// departure stays in the snapshot deliberately, disabled, so its
/// departure animation can still be rendered.)
pub proof fn lemma_snapshot_atomicity(p: Physics, events: Seq<GameEvent>, snapshot: Seq<Body>)
    requires
        snapshot.len() == p.bodies@.len(),
        forall|i: int|
            0 <= i < snapshot.len() ==> body_matches(
                #[trigger] snapshot[i],
                p.bodies@[i],
                p.config.pixels_per_meter,
            ),
        forall|k: int|
            0 <= k < events.len() ==> ((#[trigger] events[k]) matches GameEvent::Destroy(b) ==> (
            b.body_type is Character || !p.spec_has_id(b.id))),
    ensures
        forall|k: int, i: int|
            0 <= k < events.len() && 0 <= i < snapshot.len() ==> ((#[trigger] events[k]) matches GameEvent::Destroy(
                b,
            ) ==> (b.body_type is Character || (#[trigger] snapshot[i]).id
                != b.id)),
{
    assert forall|k: int, i: int|
        0 <= k < events.len() && 0 <= i < snapshot.len() implies ((#[trigger] events[k]) matches GameEvent::Destroy(
            b,
        ) ==> (b.body_type is Character || (#[trigger] snapshot[i]).id
            != b.id)) by {
        match events[k] {
            GameEvent::Destroy(b) => {
                if !(b.body_type is Character) {
                    if snapshot[i].id == b.id {
                        assert(p.bodies@[i].id == b.id);
                        assert(p.spec_has_id(b.id));
                        assert(false);
                    }
                }
            },
            _ => {},
        }
    }
}

} // verus!
