use rust_moteur_3d::runtime::EngineConfig;
use rust_moteur_3d::renderer::RenderMode;
use rust_moteur_3d::audio::{effect_label, AudioSource3D, SoundEffect, SpatialAudioEngine};
use rust_moteur_3d::ecs::{EngineEvent, EntityId, WorldEcs};

#[test]
fn spawn_assigns_increasing_ids_and_announces() {
    let mut w = WorldEcs::new();
    let a = w.spawn_entity();
    let b = w.spawn_entity();
    assert_eq!(a, EntityId(0));
    assert_eq!(b, EntityId(1));
    assert_eq!(w.entities, vec![EntityId(0), EntityId(1)]);
    assert_eq!(w.next_id, 2);
    let events = w.drain_events();
    assert_eq!(events, vec![EngineEvent::EntityCreated(a), EngineEvent::EntityCreated(b)]);
    assert!(w.drain_events().is_empty());
}

#[test]
fn emitted_events_come_out_in_order() {
    let mut w = WorldEcs::default();
    let p = w.spawn_entity();
    w.emit_event(EngineEvent::CollisionEnter { entity_a: p, entity_b: EntityId(7) });
    w.emit_event(EngineEvent::ExplosionTriggered {
        position: [1.0f32.to_bits(), 0, 0],
        radius: 5.5f32.to_bits(),
        force: 85.0f32.to_bits(),
    });
    let events = w.drain_events();
    assert_eq!(events.len(), 3);
    assert_eq!(events[0], EngineEvent::EntityCreated(p));
    assert!(matches!(events[2], EngineEvent::ExplosionTriggered { .. }));
    assert_eq!(w.entities.len(), 1);
}

#[test]
fn labels_of_effects() {
    assert_eq!(effect_label(SoundEffect::Explosion), "💥 Détonation");
    assert_eq!(effect_label(SoundEffect::WindBreeze), "🍃 Brise de Vent");
    let s = AudioSource3D::new(3, "Test", [0, 0, 0], SoundEffect::Jump);
    assert!(s.is_playing && !s.is_looping);
    assert_eq!(f32::from_bits(s.max_distance), 60.0);
    assert_eq!(f32::from_bits(s.min_distance), 2.0);
}

#[test]
fn play_allocates_ids_and_caps_the_log() {
    let mut engine = SpatialAudioEngine::new();
    for i in 0..12u64 {
        let id = engine.play_spatial_sound(SoundEffect::Laser, [0, 0, 0], 1.0f32.to_bits(), format!("e{i}"), i * 100);
        assert_eq!(id, i as usize);
    }
    assert_eq!(engine.sources.len(), 12);
    assert_eq!(engine.sources[11].name, "⚡ Laser");
    assert_eq!(engine.active_events_log.len(), 10);
    assert_eq!(engine.active_events_log[0].0, "e2");
    assert_eq!(engine.active_events_log[9].0, "e11");
}

#[test]
fn update_drops_finished_sources_and_old_log_entries() {
    let mut engine = SpatialAudioEngine::default();
    engine.play_spatial_sound(SoundEffect::Footstep, [0, 0, 0], 0, "a".to_string(), 0);
    engine.play_spatial_sound(SoundEffect::Impact, [0, 0, 0], 0, "b".to_string(), 3_000_000_000);
    engine.play_spatial_sound(SoundEffect::WindBreeze, [0, 0, 0], 0, "c".to_string(), 5_000_000_000);
    engine.sources[0].is_playing = false;
    engine.sources[2].is_playing = false;
    engine.sources[2].is_looping = true;
    engine.update(6_000_000_000);
    let ids: Vec<usize> = engine.sources.iter().map(|s| s.id).collect();
    assert_eq!(ids, vec![1, 2]);
    let texts: Vec<&str> = engine.active_events_log.iter().map(|e| e.0.as_str()).collect();
    assert_eq!(texts, vec!["b", "c"]);
    assert_eq!(engine.next_source_id, 3);
}

#[test]
fn engine_config_defaults() {
    let c = EngineConfig::default();
    assert_eq!(c.title, "AOR 3D Engine");
    assert_eq!((c.width, c.height), (1280, 720));
    assert_eq!(c.render_mode, RenderMode::VideoGame);
    assert_eq!(c.clear_color.map(f64::from_bits), [0.02, 0.015, 0.04, 1.0]);
    assert!(c.enable_taa && c.enable_ssr && c.enable_volumetric_fog);
}

#[test]
fn log_entries_leave_when_their_f32_age_reaches_four_seconds() {
    let mut engine = SpatialAudioEngine::new();
    engine.play_spatial_sound(SoundEffect::Laser, [0, 0, 0], 0, "old".to_string(), 0);
    engine.play_spatial_sound(SoundEffect::Laser, [0, 0, 0], 0, "young".to_string(), 1);
    engine.update(3_999_999_840);
    let texts: Vec<&str> = engine.active_events_log.iter().map(|e| e.0.as_str()).collect();
    assert_eq!(texts, vec!["young"]);
    assert!(std::time::Duration::from_nanos(3_999_999_840).as_secs_f32() >= 4.0);
    assert!(std::time::Duration::from_nanos(3_999_999_839).as_secs_f32() < 4.0);
}
