//! The smaller pieces: geometry, sprites, directions, animations over the
//! simulation, configuration.

use keyboard_zoo::animate::{AnimationEvent, Animations, NukeAnimation, NukeAnimationState};
use keyboard_zoo::assets::{SpriteAsset, SpriteSnip};
use keyboard_zoo::characters::{
    pac_man_sound, CharacterSoundData, CharacterType, PacManDirection,
};
use keyboard_zoo::config::{PhysicsConfig, VideoConfig, VideoMode};
use keyboard_zoo::geometry::{Aabb, Vec2};
use keyboard_zoo::letter::letter_sound;
use keyboard_zoo::particles::{ParticleModulation, PrescribedParticles};
use keyboard_zoo::sprites::SpriteSheetFormat;

#[test]
fn snip_corners_center_contains() {
    let snip = SpriteSnip::from_corners((10, 20), (30, 60));
    assert_eq!((snip.x(), snip.y()), (10, 20));
    assert_eq!((snip.width(), snip.height()), (20, 40));
    assert_eq!(snip.bottom_right(), (30, 60));
    assert_eq!(snip.center(), (20, 40));

    let inner = SpriteSnip::new(12, 25, 5, 5);
    let outside = SpriteSnip::new(0, 0, 100, 100);
    assert!(snip.contains(&inner));
    assert!(!snip.contains(&outside));
    assert!(outside.contains(&snip));
}

#[test]
fn unit_scale_is_proportional() {
    let wide = SpriteAsset::new("w".to_string(), 'w', SpriteSnip::new(0, 0, 100, 50), vec![]);
    assert_eq!(wide.unit_scale(), (1000, 500));
    let square = SpriteAsset::new("s".to_string(), 's', SpriteSnip::new(0, 0, 64, 64), vec![]);
    assert_eq!(square.unit_scale(), (1000, 1000));
}

#[test]
fn aabb_overlap_is_symmetric_and_tight() {
    let a = Aabb::new(Vec2::new(0, 0), Vec2::new(10, 10));
    let b = Aabb::new(Vec2::new(10, 10), Vec2::new(20, 20));
    let c = Aabb::new(Vec2::new(11, 11), Vec2::new(20, 20));
    assert!(a.overlaps(b));
    assert!(b.overlaps(a));
    assert!(!a.overlaps(c));
}

#[test]
fn directions_have_their_angles_and_others() {
    assert_eq!(PacManDirection::Up.angle(), 270);
    assert_eq!(PacManDirection::Down.angle(), 90);
    assert_eq!(PacManDirection::Left.angle(), 180);
    assert_eq!(PacManDirection::Right.angle(), 0);
    for d in [
        PacManDirection::Up,
        PacManDirection::Down,
        PacManDirection::Left,
        PacManDirection::Right,
    ] {
        let others = d.other_directions();
        assert_eq!(others.len(), 3);
        assert!(others.iter().all(|o| *o != d));
    }
}

#[test]
fn direction_velocity_scales_with_the_sprite_scale() {
    let v = PacManDirection::Right.velocity(20_000);
    assert_eq!((v.x, v.y), (20_000, 0));
    let v = PacManDirection::Up.velocity(20_000);
    assert_eq!((v.x, v.y), (0, -20_000));
}

#[test]
fn character_destroys_on_collision() {
    assert!(CharacterType::PacMan.destroys_on_collision());
}

#[test]
fn character_sound_cues_are_named() {
    let s = pac_man_sound();
    assert_eq!(s.character, CharacterType::PacMan);
    let t = CharacterSoundData::new(CharacterType::PacMan, "a", "b", "c");
    assert_eq!(t.create, "a");
    assert_eq!(t.destroy, "b");
    assert_eq!(t.attack, "c");
}

#[test]
fn letter_sound_indexes_the_alphabet() {
    assert_eq!(letter_sound('a'), 0);
    assert_eq!(letter_sound('m'), 12);
    assert_eq!(letter_sound('z'), 25);
}

#[test]
fn sprite_sheet_linear_frames() {
    let sheet = SpriteSheetFormat::exclusive_linear(vec![1, 2, 3], 3);
    let frames = sheet.frames(300, 40);
    assert_eq!(frames.len(), 3);
    assert_eq!(frames[0], SpriteSnip::new(0, 0, 100, 40));
    assert_eq!(frames[1], SpriteSnip::new(100, 0, 100, 40));
    assert_eq!(frames[2], SpriteSnip::new(200, 0, 100, 40));
}

#[test]
fn sprite_sheet_square_frames() {
    let sheet = SpriteSheetFormat::exclusive_square_linear(vec![]);
    let frames = sheet.frames(120, 40);
    assert_eq!(frames.len(), 3);
    assert_eq!(frames[2], SpriteSnip::new(80, 0, 40, 40));
}

#[test]
fn prescribed_particles_cycle_and_durations() {
    assert_eq!(
        PrescribedParticles::Orbit.into_next(),
        PrescribedParticles::Fireworks
    );
    assert_eq!(
        PrescribedParticles::Fireworks.into_next(),
        PrescribedParticles::SpaceRace
    );
    assert_eq!(
        PrescribedParticles::SpaceRace.into_next(),
        PrescribedParticles::Orbit
    );
    assert_eq!(PrescribedParticles::Orbit.display_for(), 20_000_000);
    assert_eq!(PrescribedParticles::Fireworks.display_for(), 10_000_000);
    let m = ParticleModulation::Constant {
        count: 10,
        step: 100_000,
    };
    assert!(matches!(m, ParticleModulation::Constant { count: 10, .. }));
}

#[test]
fn nuke_sweep_destroys_from_the_back_at_cadence() {
    let mut state = NukeAnimationState::new(vec![1, 2, 3]);
    // the first body goes right away
    let first = state.update(0);
    assert_eq!(first, vec![3]);
    let none = state.update(50_000);
    assert!(none.is_empty());
    let second = state.update(50_000);
    assert_eq!(second, vec![2]);
    let third = state.update(100_000);
    assert_eq!(third, vec![1]);
    assert!(state.is_finished());
}

#[test]
fn nuke_merges_without_duplicates() {
    let mut nuke = NukeAnimation::new();
    nuke.nuke(&vec![2, 1]);
    nuke.nuke(&vec![2, 3]);
    let mut destroyed = vec![];
    for _ in 0..10 {
        for e in nuke.update(100_000) {
            let AnimationEvent::DestroyAsset { id } = e;
            destroyed.push(id);
        }
    }
    assert_eq!(destroyed, vec![3, 2, 1]);
}

#[test]
fn animations_drive_the_nuke() {
    let mut animations = Animations::new();
    animations.nuke(&vec![7]);
    let events = animations.update(0);
    assert_eq!(events, vec![AnimationEvent::DestroyAsset { id: 7 }]);
}

#[test]
fn default_config_is_the_stock_tuning() {
    let c = PhysicsConfig::default();
    assert_eq!(c.pixels_per_meter, 10);
    assert_eq!(c.polygon_scale_milli, 20_000);
    assert_eq!(c.velocity_iterations, 8);
    assert_eq!(c.position_iterations, 3);
    assert_eq!(c.explosion_force_milli, 200_000);
    assert_eq!(c.explosion_distance_milli, 100_000);
    assert!(!c.debug_draw);
    let v = VideoConfig {
        mode: VideoMode::Window {
            width: 1280,
            height: 720,
        },
        vsync: true,
        disable_screensaver: true,
    };
    assert!(matches!(v.mode, VideoMode::Window { width: 1280, .. }));
}

#[test]
fn frame_rate_reports_elapsed_time() {
    let mut frame_rate = keyboard_zoo::frame_rate::FrameRate::new();
    let first = frame_rate.update();
    assert!(first.is_ok());
    let second = frame_rate.update();
    assert!(second.is_ok());
}
