//! The first-person player: health, armour and its weapon.
use vstd::prelude::*;
use crate::game::doom::weapon::{WeaponState, is_new_shotgun};

verus! {

/// Bit pattern of `1.7_f32`, the eye height in metres.
pub const PLAYER_HEIGHT: u32 = 0x3fd9_999a;

/// Bit pattern of `7.5_f32`, the walking speed in m/s.
pub const PLAYER_SPEED: u32 = 0x40f0_0000;

/// Bit pattern of `1.6_f32`, the sprint multiplier.
pub const PLAYER_SPRINT_MULTIPLIER: u32 = 0x3fcc_cccd;

/// The first-person player; positions, angles and speeds are `f32` bit patterns.
#[derive(Clone, Debug)]
pub struct FpsPlayer {
    pub position: [u32; 3],
    pub velocity: [u32; 3],
    pub yaw: u32,
    pub pitch: u32,
    pub height: u32,
    pub speed: u32,
    pub sprint_multiplier: u32,
    pub is_grounded: bool,
    pub health: i32,
    pub armor: i32,
    pub weapon: WeaponState,
    pub headbob_time: u32,
}

/// Health after a hit of `amount` of which armour absorbs up to `absorbed`.
pub open spec fn health_after_hit(health: int, armor: int, amount: int, absorbed: int) -> int {
    let armor_damage = if absorbed <= armor { absorbed } else { armor };
    let remaining = amount - armor_damage;
    if health - remaining >= 0 { health - remaining } else { 0 }
}

/// Armour after a hit of which it absorbs up to `absorbed`.
pub open spec fn armor_after_hit(armor: int, absorbed: int) -> int {
    let armor_damage = if absorbed <= armor { absorbed } else { armor };
    armor - armor_damage
}

/// A freshly spawned player at `spawn_pos`: grounded, at rest, looking
/// straight ahead, with 100 health, 50 armour and a new shotgun.
pub open spec fn is_new_player(p: FpsPlayer, spawn_pos: [u32; 3]) -> bool {
    &&& p.position == spawn_pos
    &&& p.velocity == [0u32, 0u32, 0u32]
    &&& p.yaw == 0 && p.pitch == 0
    &&& p.height == PLAYER_HEIGHT
    &&& p.speed == PLAYER_SPEED
    &&& p.sprint_multiplier == PLAYER_SPRINT_MULTIPLIER
    &&& p.is_grounded
    &&& p.health == 100
    &&& p.armor == 50
    &&& is_new_shotgun(p.weapon)
    &&& p.headbob_time == 0
}

impl FpsPlayer {
    /// A grounded player at `spawn_pos`, at rest, with 100 health, 50 armour
    /// and the shotgun.
    pub fn new(spawn_pos: [u32; 3]) -> (r: Self)
        ensures
            is_new_player(r, spawn_pos),
    {
        FpsPlayer {
            position: spawn_pos,
            velocity: [0, 0, 0],
            yaw: 0,
            pitch: 0,
            height: PLAYER_HEIGHT,
            speed: PLAYER_SPEED,
            sprint_multiplier: PLAYER_SPRINT_MULTIPLIER,
            is_grounded: true,
            health: 100,
            armor: 50,
            weapon: WeaponState::new_shotgun(),
            headbob_time: 0,
        }
    }

    /// Applies a hit of `amount`. Armour takes `absorbed_by_armor` of it (40 %
    /// of the amount rounded, computed by the caller in `f32`) as far as it
    /// lasts; health takes the rest and stops at 0.
    pub fn take_damage(&mut self, amount: i32, absorbed_by_armor: i32)
        requires
            i32::MIN <= armor_after_hit(old(self).armor as int, absorbed_by_armor as int),
            armor_after_hit(old(self).armor as int, absorbed_by_armor as int) <= i32::MAX,
            i32::MIN <= amount - (old(self).armor - armor_after_hit(
                old(self).armor as int,
                absorbed_by_armor as int,
            )) <= i32::MAX,
            i32::MIN <= old(self).health - (amount - (old(self).armor - armor_after_hit(
                old(self).armor as int,
                absorbed_by_armor as int,
            ))) <= i32::MAX,
        ensures
            final(self).armor == armor_after_hit(old(self).armor as int, absorbed_by_armor as int),
            final(self).health == health_after_hit(
                old(self).health as int,
                old(self).armor as int,
                amount as int,
                absorbed_by_armor as int,
            ),
            final(self).position == old(self).position,
            final(self).velocity == old(self).velocity,
            final(self).yaw == old(self).yaw,
            final(self).pitch == old(self).pitch,
            final(self).height == old(self).height,
            final(self).speed == old(self).speed,
            final(self).sprint_multiplier == old(self).sprint_multiplier,
            final(self).is_grounded == old(self).is_grounded,
            final(self).weapon == old(self).weapon,
            final(self).headbob_time == old(self).headbob_time,
    {
        let actual_armor_damage = if absorbed_by_armor <= self.armor {
            absorbed_by_armor
        } else {
            self.armor
        };
        self.armor = self.armor - actual_armor_damage;
        let remaining = amount - actual_armor_damage;
        let h = self.health - remaining;
        self.health = if h >= 0 { h } else { 0 };
    }

    /// Whether health is above zero.
    pub fn is_alive(&self) -> (r: bool)
        ensures
            r == (self.health > 0),
    {
        self.health > 0
    }
}

impl Default for FpsPlayer {
    fn default() -> (r: Self)
        ensures
            is_new_player(r, [0u32, PLAYER_HEIGHT, 0u32]),
    {
        FpsPlayer::new([0, PLAYER_HEIGHT, 0])
    }
}

/// Taking damage never leaves negative health; armour absorbing a
/// non-negative share never grows and never drops below zero; and a hit no
/// larger than health plus the absorbed share leaves the player alive when
/// strictly smaller.
pub proof fn lemma_damage_bounds(health: int, armor: int, amount: int, absorbed: int)
    ensures
        health_after_hit(health, armor, amount, absorbed) >= 0,
        0 <= absorbed && 0 <= armor ==> 0 <= armor_after_hit(armor, absorbed) <= armor,
        0 <= absorbed <= armor && amount - absorbed < health ==> health_after_hit(
            health,
            armor,
            amount,
            absorbed,
        ) > 0,
{
}

} // verus!
