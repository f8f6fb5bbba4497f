//! The player's shotgun: ammunition and firing cadence.
use vstd::prelude::*;
use vstd::string::*;
use crate::float_bits::{F32_ZERO, f32_le, le_bits};

verus! {

/// Bit pattern of `18.0_f32`, the damage of one pellet.
pub const SHOTGUN_PELLET_DAMAGE: u32 = 0x4190_0000;

/// Bit pattern of `0.045_f32`, the pellet spread.
pub const SHOTGUN_SPREAD: u32 = 0x3d38_51ec;

/// Bit pattern of `0.35_f32`, the recoil animation time in seconds.
pub const SHOTGUN_RECOIL_DURATION: u32 = 0x3eb3_3333;

/// Bit pattern of `0.75_f32`, the time between two shots in seconds.
pub const SHOTGUN_FIRE_COOLDOWN: u32 = 0x3f40_0000;

/// Bit pattern of `0.08_f32`, how long the muzzle flash shows in seconds.
pub const MUZZLE_FLASH_DURATION: u32 = 0x3da3_d70a;

/// State of a weapon; times are `f32` seconds held as bit patterns.
#[derive(Clone, Debug)]
pub struct WeaponState {
    pub name: String,
    pub ammo: u32,
    pub max_ammo: u32,
    pub damage_per_pellet: u32,
    pub pellet_count: u32,
    pub spread: u32,
    pub recoil_time: u32,
    pub recoil_duration: u32,
    pub muzzle_flash_time: u32,
    pub fire_cooldown: u32,
    pub current_cooldown: u32,
}

/// A weapon may fire when its cooldown has run out and it has ammunition.
pub open spec fn weapon_can_fire(w: WeaponState) -> bool {
    f32_le(w.current_cooldown, F32_ZERO) && w.ammo > 0
}

/// The 12-gauge combat shotgun as issued: 32 of 64 shells, 8 pellets of 18
/// damage, 0.75 s between shots, 0.35 s of recoil, ready to fire.
pub open spec fn is_new_shotgun(w: WeaponState) -> bool {
    &&& w.name@ == "Combat Shotgun 12-Gauge"@
    &&& w.ammo == 32
    &&& w.max_ammo == 64
    &&& w.damage_per_pellet == SHOTGUN_PELLET_DAMAGE
    &&& w.pellet_count == 8
    &&& w.spread == SHOTGUN_SPREAD
    &&& w.recoil_time == F32_ZERO
    &&& w.recoil_duration == SHOTGUN_RECOIL_DURATION
    &&& w.muzzle_flash_time == F32_ZERO
    &&& w.fire_cooldown == SHOTGUN_FIRE_COOLDOWN
    &&& w.current_cooldown == F32_ZERO
}

impl WeaponState {
    /// The 12-gauge combat shotgun: 32 of 64 shells, 8 pellets of 18 damage,
    /// 0.75 s between shots, 0.35 s of recoil, ready to fire.
    pub fn new_shotgun() -> (r: Self)
        ensures
            is_new_shotgun(r),
    {
        WeaponState {
            name: String::from_str("Combat Shotgun 12-Gauge"),
            ammo: 32,
            max_ammo: 64,
            damage_per_pellet: SHOTGUN_PELLET_DAMAGE,
            pellet_count: 8,
            spread: SHOTGUN_SPREAD,
            recoil_time: F32_ZERO,
            recoil_duration: SHOTGUN_RECOIL_DURATION,
            muzzle_flash_time: F32_ZERO,
            fire_cooldown: SHOTGUN_FIRE_COOLDOWN,
            current_cooldown: F32_ZERO,
        }
    }

    /// Whether the cooldown has run out and a shell is left.
    pub fn can_fire(&self) -> (r: bool)
        ensures
            r == weapon_can_fire(*self),
    {
        le_bits(self.current_cooldown, F32_ZERO) && self.ammo > 0
    }

    /// Fires once if the weapon can: spends a shell and starts the cooldown,
    /// the recoil and the muzzle flash. Returns whether it fired; a refused
    /// shot changes nothing.
    pub fn fire(&mut self) -> (r: bool)
        ensures
            r == weapon_can_fire(*old(self)),
            r ==> final(self).ammo == old(self).ammo - 1 && final(self).current_cooldown == old(
                self,
            ).fire_cooldown && final(self).recoil_time == old(self).recoil_duration
                && final(self).muzzle_flash_time == MUZZLE_FLASH_DURATION,
            !r ==> final(self).ammo == old(self).ammo && final(self).current_cooldown == old(
                self,
            ).current_cooldown && final(self).recoil_time == old(self).recoil_time
                && final(self).muzzle_flash_time == old(self).muzzle_flash_time,
            final(self).name == old(self).name,
            final(self).max_ammo == old(self).max_ammo,
            final(self).fire_cooldown == old(self).fire_cooldown,
            final(self).recoil_duration == old(self).recoil_duration,
            final(self).damage_per_pellet == old(self).damage_per_pellet,
            final(self).pellet_count == old(self).pellet_count,
            final(self).spread == old(self).spread,
    {
        if !self.can_fire() {
            return false;
        }
        self.ammo = self.ammo - 1;
        self.current_cooldown = self.fire_cooldown;
        self.recoil_time = self.recoil_duration;
        self.muzzle_flash_time = MUZZLE_FLASH_DURATION;
        true
    }
}

impl Default for WeaponState {
    fn default() -> (r: Self)
        ensures
            is_new_shotgun(r),
    {
        WeaponState::new_shotgun()
    }
}

/// A weapon whose cooldown is positive cannot fire again until the cooldown
/// runs out: right after a shot it is locked, and no shot is ever fired
/// without a shell.
pub proof fn lemma_fire_locks_weapon(before: WeaponState, after: WeaponState)
    requires
        weapon_can_fire(before),
        after.ammo == before.ammo - 1,
        after.current_cooldown == before.fire_cooldown,
        !f32_le(before.fire_cooldown, F32_ZERO),
    ensures
        !weapon_can_fire(after),
        before.ammo >= 1,
{
}

} // verus!
