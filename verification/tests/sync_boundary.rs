//! The worker/foreground boundary: command application, publication order,
//! snapshot atomicity.

use keyboard_zoo::assets::{SpriteAsset, SpriteSnip};
use keyboard_zoo::characters::CharacterType;
use keyboard_zoo::config::PhysicsConfig;
use keyboard_zoo::event::GameEvent;
use keyboard_zoo::physics::{Physics, StepReport};
use keyboard_zoo::sync::{
    apply_commands, clamp_delta, publish, ForegroundView, GameSyncCommand, GameSyncEvent,
};

fn world() -> Physics {
    Physics::new(100_000, 100_000, PhysicsConfig::default())
}

fn empty_report() -> StepReport {
    StepReport {
        contacts: vec![],
        transforms: vec![],
    }
}

#[test]
fn commands_after_quit_are_not_applied() {
    let mut physics = world();
    let commands = vec![
        GameSyncCommand::SpawnCharacter(CharacterType::PacMan),
        GameSyncCommand::Quit,
        GameSyncCommand::SpawnCharacter(CharacterType::PacMan),
    ];
    let (quit, events, _cmds) = apply_commands(&mut physics, &commands);
    assert!(quit);
    // only the command before the quit ran
    assert_eq!(physics.bodies().len(), 1);
    assert_eq!(events.len(), 1);
}

#[test]
fn apply_commands_without_quit_runs_all() {
    let mut physics = world();
    let commands = vec![
        GameSyncCommand::SpawnCharacter(CharacterType::PacMan),
        GameSyncCommand::Push(keyboard_zoo::action::Direction::Left),
    ];
    let (quit, events, cmds) = apply_commands(&mut physics, &commands);
    assert!(!quit);
    assert_eq!(events.len(), 1);
    assert!(!cmds.is_empty());
}

#[test]
fn destroy_command_reaches_the_world() {
    let mut physics = world();
    let (quit, events, _cmds) = apply_commands(
        &mut physics,
        &vec![GameSyncCommand::SpawnCharacter(CharacterType::PacMan)],
    );
    assert!(!quit);
    let id = match events.last() {
        Some(GameEvent::Spawned(b)) => b.id,
        _ => panic!("expected a spawn"),
    };
    let (_quit, events, _cmds) =
        apply_commands(&mut physics, &vec![GameSyncCommand::Destroy(id)]);
    assert!(matches!(events.as_slice(), [GameEvent::Destroy(b)] if b.id == id));
}

#[test]
fn published_batch_ends_with_the_snapshot() {
    let mut physics = world();
    let (events, _cmds) = physics.spawn_character(CharacterType::PacMan);
    let bodies = physics.bodies();
    let batch = publish(events, bodies);
    assert!(batch.len() >= 2);
    assert!(matches!(batch.last(), Some(GameSyncEvent::Bodies(_))));
    for m in &batch[..batch.len() - 1] {
        assert!(matches!(m, GameSyncEvent::GameEvent(_)));
    }
}

#[test]
fn foreground_keeps_the_last_complete_snapshot() {
    let mut view = ForegroundView::new();
    let mut physics = world();
    let (e1, _) = physics.spawn_character(CharacterType::PacMan);
    let snap1 = physics.bodies();
    let (e2, _) = physics.spawn_character(CharacterType::PacMan);
    let snap2 = physics.bodies();
    let mut batch = publish(e1, snap1);
    batch.extend(publish(e2, snap2));
    let events = view.drain(batch);
    assert_eq!(events.len(), 2);
    assert_eq!(view.bodies().len(), 2);
}

#[test]
fn foreground_retains_snapshot_when_batch_has_none() {
    let mut view = ForegroundView::new();
    let mut physics = world();
    let (e1, _) = physics.spawn_character(CharacterType::PacMan);
    let snap1 = physics.bodies();
    view.drain(publish(e1, snap1));
    assert_eq!(view.bodies().len(), 1);
    let events = view.drain(vec![GameSyncEvent::GameEvent(GameEvent::HeavyCollision)]);
    assert_eq!(events.len(), 1);
    assert_eq!(view.bodies().len(), 1, "the old snapshot is retained whole");
}

#[test]
fn snapshot_never_contains_a_destroyed_passive_body() {
    let mut physics = world();
    let (events, _) = physics.spawn_asset(&SpriteAsset::new(
        "prey".to_string(),
        'p',
        SpriteSnip::new(0, 0, 100, 100),
        vec![],
    ));
    let id = match events.last() {
        Some(GameEvent::Spawned(b)) => b.id,
        _ => panic!("expected a spawn"),
    };
    let (event, _cmds) = physics.destroy_body(id);
    let (tick_events, _cmds) = physics.update(16_666, &empty_report());
    let mut all = vec![event.unwrap()];
    all.extend(tick_events);
    let snapshot = physics.bodies();
    let batch = publish(all, snapshot);

    let mut view = ForegroundView::new();
    let events = view.drain(batch);
    // the batch reports the removal, and the snapshot of the same tick no
    // longer carries the body
    assert!(events
        .iter()
        .any(|e| matches!(e, GameEvent::Destroy(b) if b.id == id)));
    assert!(view.bodies().iter().all(|b| b.id != id));
}

#[test]
fn wall_clock_delta_is_capped_at_the_budget() {
    assert_eq!(clamp_delta(10_000, 16_666), 10_000);
    assert_eq!(clamp_delta(16_666, 16_666), 16_666);
    assert_eq!(clamp_delta(1_000_000, 16_666), 16_666);
}
