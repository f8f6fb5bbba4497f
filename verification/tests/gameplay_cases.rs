use std::any::{Any, TypeId};
use std::collections::HashMap;

use rust_moteur_3d::ecs::{EngineEvent, EntityId, WorldEcs};
use rust_moteur_3d::game::{FpsPlayer, WeaponState};

fn f(bits: u32) -> f32 {
    f32::from_bits(bits)
}

/// The per-frame countdown of the weapon timers (`f32` seconds), as the
/// game loop runs it.
fn tick_weapon(w: &mut WeaponState, dt: f32) {
    for t in [&mut w.current_cooldown, &mut w.recoil_time, &mut w.muzzle_flash_time] {
        let v = f32::from_bits(*t);
        if v > 0.0 {
            *t = (v - dt).max(0.0).to_bits();
        }
    }
}

/// One frame of ground movement: velocity eases towards the input direction
/// at walking speed, then moves the player.
fn move_player(p: &mut FpsPlayer, dt: f32, input_forward: f32, input_strafe: f32) {
    let yaw = f(p.yaw);
    let forward = [yaw.sin(), 0.0, -yaw.cos()];
    let right = [yaw.cos(), 0.0, yaw.sin()];
    let mut dir = [0.0f32; 3];
    for k in 0..3 {
        dir[k] = forward[k] * input_forward + right[k] * input_strafe;
    }
    let len = (dir[0] * dir[0] + dir[2] * dir[2]).sqrt();
    if len > 0.0 {
        dir = [dir[0] / len, 0.0, dir[2] / len];
    }
    let speed = f(p.speed);
    let lerp = (dt * 14.0).min(1.0);
    for k in [0usize, 2] {
        let v = f(p.velocity[k]);
        let nv = v + (dir[k] * speed - v) * lerp;
        p.velocity[k] = nv.to_bits();
        p.position[k] = (f(p.position[k]) + nv * dt).to_bits();
    }
    tick_weapon(&mut p.weapon, dt);
}

/// A hit of `amount`, of which 40 % (rounded) is offered to the armour.
fn hit(p: &mut FpsPlayer, amount: i32) {
    let absorbed = (amount as f32 * 0.4).round() as i32;
    p.take_damage(amount, absorbed);
}

#[test]
fn test_weapon_firing_and_cooldown() {
    let mut w = WeaponState::new_shotgun();
    assert!(w.can_fire());
    assert!(w.fire());
    assert_eq!(w.ammo, 31);
    assert!(!w.can_fire());

    tick_weapon(&mut w, 0.8);
    assert!(w.can_fire());
}

#[test]
fn test_player_movement_and_damage() {
    let mut player = FpsPlayer::new([0.0f32.to_bits(), 1.7f32.to_bits(), 0.0f32.to_bits()]);
    assert_eq!(player.health, 100);

    move_player(&mut player, 0.1, 1.0, 0.0);
    assert_ne!(player.position, [0.0f32.to_bits(), 1.7f32.to_bits(), 0.0f32.to_bits()]);

    hit(&mut player, 40);
    assert!(player.is_alive());
    assert!(player.health < 100);
}

struct Health(pub f32);
struct Velocity(pub [f32; 3]);

#[test]
fn test_modular_ecs_components_and_event_bus() {
    let mut world = WorldEcs::new();
    let mut components: HashMap<(TypeId, EntityId), Box<dyn Any>> = HashMap::new();
    let player = world.spawn_entity();

    components.insert((TypeId::of::<Health>(), player), Box::new(Health(100.0)));
    components.insert((TypeId::of::<Velocity>(), player), Box::new(Velocity([0.0, 5.0, 0.0])));

    if let Some(h) = components.get_mut(&(TypeId::of::<Health>(), player)).and_then(|c| c.downcast_mut::<Health>()) {
        h.0 -= 25.0;
    }

    let health = components.get(&(TypeId::of::<Health>(), player)).and_then(|c| c.downcast_ref::<Health>()).unwrap();
    assert_eq!(health.0, 75.0);
    let velocity = components.get(&(TypeId::of::<Velocity>(), player)).and_then(|c| c.downcast_ref::<Velocity>()).unwrap();
    assert_eq!(velocity.0[1], 5.0);

    let events = world.drain_events();
    assert_eq!(events.len(), 1);
    assert_eq!(events[0], EngineEvent::EntityCreated(player));
}
