use rust_moteur_3d::game::doom::entities::{door_is_opening, imp_action, ImpAction};
use rust_moteur_3d::renderer::pathtracer::{accumulation_step, is_converged, trace_workgroups};
use rust_moteur_3d::animation::modifier::any_enabled;
use rust_moteur_3d::animation::{locate_keyframe, KeySpan, MeshModifier};
use rust_moteur_3d::game::{CyberCitySystem, FpsPlayer, WeaponState};
use rust_moteur_3d::particles::{compute_dispatch_size, next_random_fraction, ParticleKind};
use rust_moteur_3d::physics::PlayerMovementState;
use rust_moteur_3d::renderer::RenderMode;

fn b(v: f32) -> u32 {
    v.to_bits()
}

#[test]
fn keyframe_spans() {
    let times = [b(0.0), b(1.0), b(2.0)];
    assert_eq!(locate_keyframe(&[], b(0.5)), KeySpan::Empty);
    assert_eq!(locate_keyframe(&[b(4.0)], b(9.0)), KeySpan::Hold(0));
    assert_eq!(locate_keyframe(&times, b(-1.0)), KeySpan::Hold(0));
    assert_eq!(locate_keyframe(&times, b(0.0)), KeySpan::Hold(0));
    assert_eq!(locate_keyframe(&times, b(0.5)), KeySpan::Between(0));
    assert_eq!(locate_keyframe(&times, b(1.0)), KeySpan::Between(0));
    assert_eq!(locate_keyframe(&times, b(1.5)), KeySpan::Between(1));
    assert_eq!(locate_keyframe(&times, b(2.0)), KeySpan::Hold(2));
    assert_eq!(locate_keyframe(&times, b(7.0)), KeySpan::Hold(2));
    assert_eq!(locate_keyframe(&times, b(f32::NAN)), KeySpan::Hold(2));
}

#[test]
fn modifier_flags_and_names() {
    let mut m = MeshModifier::Twist { enabled: true, angle: b(1.57) };
    assert!(m.is_enabled());
    m.set_enabled(false);
    assert_eq!(m, MeshModifier::Twist { enabled: false, angle: b(1.57) });
    assert_eq!(m.name(), "🌀 Twist (Torsion)");
    let stack = [m, MeshModifier::Squash { enabled: false, intensity: b(0.3) }];
    assert!(!any_enabled(&stack));
    assert!(!any_enabled(&[]));
    let stack2 = [m, MeshModifier::Noise { enabled: true, strength: 0, frequency: 0 }];
    assert!(any_enabled(&stack2));
    assert_eq!(stack2[1].name(), "🏔 Noise (Relief)");
}

#[test]
fn weapon_fires_then_locks() {
    let mut w = WeaponState::new_shotgun();
    assert!(w.can_fire());
    assert!(w.fire());
    assert_eq!(w.ammo, 31);
    assert!(!w.can_fire());
    assert!(!w.fire());
    assert_eq!(w.ammo, 31);
    assert_eq!(f32::from_bits(w.current_cooldown), 0.75);
    assert_eq!(f32::from_bits(w.muzzle_flash_time), 0.08);
    w.current_cooldown = 0;
    w.ammo = 0;
    assert!(!w.can_fire());
    assert_eq!(WeaponState::default().max_ammo, 64);
}

#[test]
fn damage_goes_through_armour_first() {
    let mut p = FpsPlayer::new([0, b(1.7), 0]);
    assert_eq!(p.health, 100);
    p.take_damage(40, 16);
    assert_eq!(p.armor, 34);
    assert_eq!(p.health, 76);
    assert!(p.is_alive());
    p.take_damage(500, 200);
    assert_eq!(p.armor, 0);
    assert_eq!(p.health, 0);
    assert!(!p.is_alive());
    assert_eq!(FpsPlayer::default().armor, 50);
}

#[test]
fn race_progression() {
    let mut race = CyberCitySystem::default();
    assert_eq!(race.checkpoints.len(), 7);
    assert_eq!(race.update(b(0.1), false), None);
    for i in 0..7 {
        assert_eq!(race.update(b(1.0 + i as f32), true), Some(i));
    }
    assert!(race.lap_completed);
    assert_eq!(race.score, 3500);
    assert!(race.checkpoints.iter().all(|c| c.passed));
    assert_eq!(race.update(b(9.0), true), None);
    assert_eq!(f32::from_bits(race.race_time), 9.0);
    assert_eq!(f32::from_bits(race.checkpoints[1].position[2]), 90.0);
}

#[test]
fn movement_classification() {
    assert_eq!(PlayerMovementState::classify(false, true, b(9.0)), PlayerMovementState::InAir);
    assert_eq!(PlayerMovementState::classify(true, true, b(9.0)), PlayerMovementState::Crouching);
    assert_eq!(PlayerMovementState::classify(true, false, b(5.5)), PlayerMovementState::Sprinting);
    assert_eq!(PlayerMovementState::classify(true, false, b(5.0)), PlayerMovementState::Walking);
    assert_eq!(PlayerMovementState::classify(true, false, b(0.2)), PlayerMovementState::Idle);
    assert_eq!(PlayerMovementState::classify(true, false, b(0.0)), PlayerMovementState::Idle);
}

#[test]
fn particles_helpers() {
    assert_eq!(ParticleKind::Smoke.gpu_index(), 2);
    assert_eq!(ParticleKind::Debris.gpu_index(), 3);
    let mut seed = 0x9e3779b9u32;
    let expected = 0x9e3779b9u32.wrapping_mul(1664525).wrapping_add(1013904223);
    let r = next_random_fraction(&mut seed);
    assert_eq!(seed, expected);
    assert_eq!(r, expected >> 8);
    assert_eq!(compute_dispatch_size(0, 2000), (0, 0));
    assert_eq!(compute_dispatch_size(65, 2000), (65, 2));
    assert_eq!(compute_dispatch_size(5000, 2000), (2000, 32));
    assert_ne!(RenderMode::VideoGame, RenderMode::PathTrace);
}

#[test]
fn path_tracer_accumulation() {
    assert!(!is_converged(10, 256, false));
    assert!(is_converged(256, 256, false));
    assert!(!is_converged(5000, 256, true));
    assert_eq!(accumulation_step(10, 256, false, false), (true, 11));
    assert_eq!(accumulation_step(10, 256, false, true), (false, 10));
    assert_eq!(accumulation_step(256, 256, false, false), (false, 256));
    assert_eq!(accumulation_step(256, 256, true, false), (true, 257));
    assert_eq!(trace_workgroups(1280, 721), (160, 91));
}

#[test]
fn door_and_imp_decisions() {
    assert!(door_is_opening(false, b(2.0)));
    assert!(!door_is_opening(true, b(7.0)));
    assert!(door_is_opening(true, b(5.0)));
    assert!(!door_is_opening(false, b(5.0)));
    assert_eq!(imp_action(b(0.0), 0, b(1.0)), ImpAction::Inert);
    assert_eq!(imp_action(b(60.0), 0, b(10.0)), ImpAction::Chase);
    assert_eq!(imp_action(b(60.0), 0, b(1.5)), ImpAction::Attack);
    assert_eq!(imp_action(b(60.0), b(0.5), b(1.5)), ImpAction::Idle);
    assert_eq!(imp_action(b(60.0), 0, b(30.0)), ImpAction::Idle);
    assert_eq!(imp_action(b(60.0), 0, b(2.1)), ImpAction::Chase);
    assert_eq!(imp_action(b(60.0), 0, b(2.0)), ImpAction::Attack);
}
