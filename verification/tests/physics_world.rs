//! The simulation world: spawning, placement, removal, explosions, ticks.

use keyboard_zoo::action::PhysicsAction;
use keyboard_zoo::assets::{SpriteAsset, SpriteSnip};
use keyboard_zoo::geometry::Vec2;
use keyboard_zoo::physics::BodyTransform;
use keyboard_zoo::characters::CharacterType;
use keyboard_zoo::config::PhysicsConfig;
use keyboard_zoo::event::GameEvent;
use keyboard_zoo::lifetime::CharacterState;
use keyboard_zoo::physics::{Physics, RawContact, StepReport};
use keyboard_zoo::world::{Body, BodyType};

fn world() -> Physics {
    Physics::new(100_000, 100_000, PhysicsConfig::default())
}

fn sprite(name: &str) -> SpriteAsset {
    SpriteAsset::new(
        name.to_string(),
        'a',
        SpriteSnip::new(0, 0, 100, 100),
        vec![],
    )
}

fn empty_report() -> StepReport {
    StepReport {
        contacts: vec![],
        transforms: vec![],
    }
}

fn destroy_count(events: &[GameEvent], id: u128) -> usize {
    events
        .iter()
        .filter(|e| match e {
            GameEvent::Destroy(b) => b.id == id,
            _ => false,
        })
        .count()
}

fn spawned_id(events: &[GameEvent]) -> u128 {
    match events.last() {
        Some(GameEvent::Spawned(b)) => b.id,
        _ => panic!("expected a spawn event"),
    }
}

fn body_of<'a>(bodies: &'a [Body], id: u128) -> Option<&'a Body> {
    bodies.iter().find(|b| b.id == id)
}

#[test]
fn spawn_asset_records_the_sprite() {
    let mut physics = world();
    let (events, _cmds) = physics.spawn_asset(&sprite("letter"));
    let id = spawned_id(&events);
    let bodies = physics.bodies();
    assert_eq!(bodies.len(), 1);
    let body = body_of(&bodies, id).expect("spawned body is in the snapshot");
    match &body.body_type {
        BodyType::Alphanumeric(a) => {
            assert_eq!(a.name, "letter");
            assert_eq!(a.alphanumeric, 'a');
        }
        _ => panic!("expected a passive body"),
    }
}

#[test]
fn spawn_character_starts_alive() {
    let mut physics = world();
    let (events, _cmds) = physics.spawn_character(CharacterType::PacMan);
    let id = spawned_id(&events);
    let bodies = physics.bodies();
    let body = body_of(&bodies, id).expect("spawned character is in the snapshot");
    match &body.body_type {
        BodyType::Character(c) => assert_eq!(c.state(), CharacterState::Alive),
        _ => panic!("expected a character body"),
    }
}

#[test]
fn find_position_returns_within_the_budget() {
    let mut physics = world();
    // crowd the world so placements keep colliding
    for _ in 0..6 {
        physics.spawn_asset(&sprite("crowd"));
    }
    // returns despite full occupancy; a non-empty eviction set names only
    // recorded bodies
    let (_pos, evict) = physics.find_position(90_000, 90_000, 10);
    let bodies = physics.bodies();
    for id in &evict {
        assert!(body_of(&bodies, *id).is_some());
    }
    assert!(!evict.is_empty(), "a giant footprint in a crowded world must evict");
}

#[test]
fn destroy_passive_removes_and_notifies_once() {
    let mut physics = world();
    let (events, _cmds) = physics.spawn_asset(&sprite("gone"));
    let id = spawned_id(&events);
    let (event, _cmds) = physics.destroy_body(id);
    match event {
        Some(GameEvent::Destroy(b)) => assert_eq!(b.id, id),
        _ => panic!("expected a removal notification"),
    }
    assert!(body_of(&physics.bodies(), id).is_none());
    // a second removal of a vanished id is a silent no-op
    let (event, cmds) = physics.destroy_body(id);
    assert!(event.is_none());
    assert!(cmds.is_empty());
}

#[test]
fn destroy_actor_notifies_exactly_once() {
    let mut physics = world();
    let (events, _cmds) = physics.spawn_character(CharacterType::PacMan);
    let id = spawned_id(&events);

    // the first mark disables the body, starts the departure, notifies
    let (event, _cmds) = physics.destroy_body(id);
    assert!(matches!(event, Some(GameEvent::Destroy(ref b)) if b.id == id));
    let bodies = physics.bodies();
    match &body_of(&bodies, id).expect("departing character stays visible").body_type {
        BodyType::Character(c) => assert_eq!(c.state(), CharacterState::Death),
        _ => panic!("expected a character"),
    }

    // further marks are silent while the departure animation plays
    let (event, _cmds) = physics.destroy_body(id);
    assert!(event.is_none());

    // let the departure animation finish: the body is removed, silently
    let mut total_notifications = 1;
    for _ in 0..40 {
        let (events, _cmds) = physics.update(100_000, &empty_report());
        total_notifications += destroy_count(&events, id);
        let (event, _cmds) = physics.destroy_body(id);
        if let Some(e) = event {
            total_notifications += destroy_count(&[e], id);
        }
        if body_of(&physics.bodies(), id).is_none() {
            break;
        }
    }
    assert!(body_of(&physics.bodies(), id).is_none(), "the dead body is removed");
    assert_eq!(total_notifications, 1, "exactly one notification per entity");
}

#[test]
fn event_ordering_scenario() {
    // one actor simultaneously touches the ground and is destroyed by an
    // explicit command: one notification, and the actor is departing, not
    // dead
    let mut physics = world();
    let (events, _cmds) = physics.spawn_character(CharacterType::PacMan);
    let id = spawned_id(&events);

    let (event, _cmds) = physics.destroy_body(id);
    let mut notifications = destroy_count(&[event.unwrap()], id);

    let report = StepReport {
        contacts: vec![RawContact {
            body_a: Some(id),
            body_b: None,
            speed_milli: 100,
        }],
        transforms: vec![],
    };
    let (events, _cmds) = physics.update(16_666, &report);
    notifications += destroy_count(&events, id);

    assert_eq!(notifications, 1);
    let bodies = physics.bodies();
    match &body_of(&bodies, id).expect("departing actor is still rendered").body_type {
        BodyType::Character(c) => assert_eq!(c.state(), CharacterState::Death),
        _ => panic!("expected a character"),
    }
}

#[test]
fn explosion_rate_limit_two_commands_one_event() {
    let mut physics = world();
    // let the interval clock run past the minimum
    physics.update(200_000, &empty_report());

    let (events1, _cmds) = physics.action(PhysicsAction::Explode);
    assert_eq!(events1.len(), 1);
    assert!(matches!(events1[0], GameEvent::Explosion { .. }));

    // issued again with no interval in between: a silent no-op
    let (events2, cmds2) = physics.action(PhysicsAction::Explode);
    assert!(events2.is_empty());
    assert!(cmds2.is_empty());
}

#[test]
fn explosion_just_after_boot_is_rejected() {
    let mut physics = world();
    let (events, cmds) = physics.action(PhysicsAction::Explode);
    assert!(events.is_empty());
    assert!(cmds.is_empty());
}

#[test]
fn radial_force_is_zero_beyond_falloff_and_decreases() {
    // peak 200 units, falloff over 100 units, in thousandths
    let magnitude = 200_000;
    let falloff = 100_000;
    assert_eq!(Physics::radial_force(magnitude, falloff, falloff), 0);
    assert_eq!(Physics::radial_force(magnitude, falloff, falloff + 5_000), 0);
    assert_eq!(Physics::radial_force(magnitude, falloff, 0), magnitude);
    assert_eq!(Physics::radial_force(magnitude, falloff, falloff / 2), magnitude / 2);
    let mut last = magnitude + 1;
    for d in [0, 10_000, 20_000, 50_000, 99_999] {
        let f = Physics::radial_force(magnitude, falloff, d);
        assert!(f < last, "force must fall as distance grows");
        last = f;
    }
}

#[test]
fn heavy_passive_collision_emits_one_global_event() {
    let mut physics = world();
    let (ea, _) = physics.spawn_asset(&sprite("one"));
    let (eb, _) = physics.spawn_asset(&sprite("two"));
    let a = spawned_id(&ea);
    let b = spawned_id(&eb);
    let report = StepReport {
        contacts: vec![RawContact {
            body_a: Some(a),
            body_b: Some(b),
            speed_milli: 10_000,
        }],
        transforms: vec![],
    };
    let (events, _cmds) = physics.update(16_666, &report);
    let heavy = events
        .iter()
        .filter(|e| matches!(e, GameEvent::HeavyCollision))
        .count();
    assert_eq!(heavy, 1);
}

#[test]
fn light_passive_collision_emits_nothing() {
    let mut physics = world();
    let (ea, _) = physics.spawn_asset(&sprite("one"));
    let (eb, _) = physics.spawn_asset(&sprite("two"));
    let a = spawned_id(&ea);
    let b = spawned_id(&eb);
    let report = StepReport {
        contacts: vec![RawContact {
            body_a: Some(a),
            body_b: Some(b),
            speed_milli: 100,
        }],
        transforms: vec![],
    };
    let (events, _cmds) = physics.update(16_666, &report);
    assert!(events.is_empty());
}

#[test]
fn character_attack_destroys_the_passive_body() {
    let mut physics = world();
    let (ea, _) = physics.spawn_asset(&sprite("food"));
    let food = spawned_id(&ea);
    let (ec, _) = physics.spawn_character(CharacterType::PacMan);
    let hunter = spawned_id(&ec);
    let report = StepReport {
        contacts: vec![RawContact {
            body_a: Some(hunter),
            body_b: Some(food),
            speed_milli: 100,
        }],
        transforms: vec![],
    };
    let (events, _cmds) = physics.update(16_666, &report);
    let attacks = events
        .iter()
        .filter(|e| matches!(e, GameEvent::CharacterAttack(CharacterType::PacMan)))
        .count();
    assert_eq!(attacks, 1);
    assert_eq!(destroy_count(&events, food), 1);
    assert!(body_of(&physics.bodies(), food).is_none());
}

#[test]
fn transforms_are_mirrored_into_snapshots() {
    let mut physics = world();
    let (events, _) = physics.spawn_asset(&sprite("mover"));
    let id = spawned_id(&events);
    let report = StepReport {
        contacts: vec![],
        transforms: vec![BodyTransform {
            id,
            position: Vec2 { x: 30_000, y: 40_000 },
            angle_deg: 90,
        }],
    };
    physics.update(16_666, &empty_report());
    physics.update(16_666, &report);
    let bodies = physics.bodies();
    let body = body_of(&bodies, id).unwrap();
    // pixels per unit is 10: 30 units map to 300 px, minus half the width
    assert_eq!(body.angle_deg, 90);
    let w_px = 20_000 * 10 / 1000;
    assert_eq!(body.aabb.width, w_px);
    assert_eq!(body.aabb.x, 30_000 * 10 / 1000 - w_px / 2);
}
