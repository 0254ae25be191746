//! Lifecycle and animation behavior.

use keyboard_zoo::animation::{SpriteAnimation, SpriteAnimationType};
use keyboard_zoo::characters::pac_man_lifetime;
use keyboard_zoo::lifetime::{CharacterLifetime, CharacterState};
use keyboard_zoo::rng::new_rng;

fn lifetime_with(max_lifetime: u64) -> CharacterLifetime {
    let anim = SpriteAnimationType::Linear {
        frames: 3,
        duration: 100_000,
    }
    .into_animation();
    let death = SpriteAnimationType::Linear {
        frames: 2,
        duration: 100_000,
    }
    .into_animation();
    CharacterLifetime::new(max_lifetime, anim, death)
}

fn rank(state: CharacterState) -> u32 {
    match state {
        CharacterState::Alive => 0,
        CharacterState::Death => 1,
        CharacterState::Dead => 2,
    }
}

#[test]
fn lifecycle_states_never_regress() {
    let mut lifetime = lifetime_with(500_000);
    let mut last = rank(lifetime.state());
    for _ in 0..40 {
        let state = lifetime.update(100_000);
        let now = rank(state);
        assert!(now >= last, "lifecycle moved backwards");
        last = now;
    }
    assert_eq!(lifetime.state(), CharacterState::Dead);
}

#[test]
fn lifecycle_death_after_lifetime_elapses() {
    let mut lifetime = lifetime_with(250_000);
    assert_eq!(lifetime.update(100_000), CharacterState::Alive);
    assert_eq!(lifetime.update(100_000), CharacterState::Alive);
    // the third step crosses the 250 ms lifetime
    assert_eq!(lifetime.update(100_000), CharacterState::Death);
}

#[test]
fn lifecycle_dead_after_one_death_animation_pass() {
    let mut lifetime = lifetime_with(100_000);
    assert_eq!(lifetime.update(100_000), CharacterState::Death);
    // the death animation has 2 frames of 100 ms: one full pass takes two
    // more steps
    assert_eq!(lifetime.update(100_000), CharacterState::Death);
    assert_eq!(lifetime.update(100_000), CharacterState::Dead);
    // terminal: no transition leaves Dead
    assert_eq!(lifetime.update(1_000_000), CharacterState::Dead);
}

#[test]
fn lifecycle_destroy_kills_only_living() {
    let mut lifetime = lifetime_with(10_000_000);
    assert!(lifetime.state().is_alive());
    lifetime.destroy();
    assert_eq!(lifetime.state(), CharacterState::Death);
    lifetime.destroy();
    assert_eq!(lifetime.state(), CharacterState::Death);
}

#[test]
fn randomized_lifetime_stays_within_band() {
    let factory = pac_man_lifetime();
    let mut rng = new_rng();
    for _ in 0..50 {
        let lifetime = pac_man_lifetime();
        assert_eq!(lifetime.average_lifetime, 20_000_000);
        let l = factory.new_lifetime(&mut rng);
        assert!(l.max_lifetime >= 20_000_000 - 2_500_000);
        assert!(l.max_lifetime <= 20_000_000 + 2_500_000);
        assert_eq!(l.state(), CharacterState::Alive);
    }
}

#[test]
fn linear_animation_advances_and_wraps() {
    let mut anim = SpriteAnimation::new(SpriteAnimationType::Linear {
        frames: 3,
        duration: 100_000,
    });
    anim.update(250_000);
    assert_eq!(anim.frame(), 2);
    assert_eq!(anim.iteration(), 0);
    anim.update(100_000);
    // 350 ms total: one full pass of three frames is complete
    assert_eq!(anim.frame(), 0);
    assert_eq!(anim.iteration(), 1);
}

#[test]
fn yoyo_animation_reverses_each_pass() {
    let mut anim = SpriteAnimation::new(SpriteAnimationType::YoYo {
        frames: 3,
        duration: 100_000,
    });
    anim.update(300_000);
    // after one pass the rendered order is reversed: raw frame 0 renders
    // as frame 2
    assert_eq!(anim.iteration(), 1);
    assert_eq!(anim.frame(), 2);
}

#[test]
fn pause_animation_holds_last_frame_then_resumes() {
    let mut anim = SpriteAnimation::new(SpriteAnimationType::LinearWithPause {
        frames: 2,
        duration: 100_000,
        pause_for: 200_000,
        resume_from_frame: 0,
    });
    anim.update(200_000);
    // both frames shown: the last frame holds while the pause runs
    assert_eq!(anim.frame(), 1);
    assert_eq!(anim.iteration(), 0);
    anim.update(100_000);
    assert_eq!(anim.frame(), 1);
    anim.update(100_000);
    // the pause has run out: restart from frame 0, one pass complete
    assert_eq!(anim.frame(), 0);
    assert_eq!(anim.iteration(), 1);
}

#[test]
fn static_animation_stays_on_first_frame() {
    let mut anim = SpriteAnimation::new(SpriteAnimationType::Static);
    anim.update(1_000_000);
    assert_eq!(anim.frame(), 0);
    assert_eq!(anim.iteration(), 0);
}

#[test]
fn animation_reset_returns_to_first_frame() {
    let mut anim = SpriteAnimation::new(SpriteAnimationType::Linear {
        frames: 4,
        duration: 50_000,
    });
    anim.update(120_000);
    assert_eq!(anim.frame(), 2);
    anim.reset();
    assert_eq!(anim.frame(), 0);
}
