//! Decisions of the hangar's interactive entities: when blast doors open and
//! what a demon imp does. Distances and timers are `f32` bit patterns that
//! the caller computes.
use vstd::prelude::*;
use crate::float_bits::{F32_ZERO, f32_le, f32_lt, le_bits, lt_bits};

verus! {

/// Bit pattern of `4.0_f32`: a door starts opening when the player is closer.
pub const DOOR_OPEN_DISTANCE: u32 = 0x4080_0000;

/// Bit pattern of `6.0_f32`: a door starts closing when the player is farther.
pub const DOOR_CLOSE_DISTANCE: u32 = 0x40c0_0000;

/// Bit pattern of `2.0_f32`: an imp stops chasing this close to the player.
pub const IMP_MIN_CHASE_DISTANCE: u32 = 0x4000_0000;

/// Bit pattern of `18.0_f32`: an imp does not notice the player farther away.
pub const IMP_SIGHT_DISTANCE: u32 = 0x4190_0000;

/// Bit pattern of `2.2_f32`: reach of an imp's attack.
pub const IMP_ATTACK_REACH: u32 = 0x400c_cccd;

/// Bit pattern of `1.2_f32`: time between two imp attacks, in seconds.
pub const IMP_ATTACK_COOLDOWN: u32 = 0x3f99_999a;

/// Damage of an imp's attack.
pub const IMP_ATTACK_DAMAGE: i32 = 15;

/// Whether a door is opening after the player was seen at distance `dist`:
/// it opens within 4 m, closes beyond 6 m and keeps its motion in between.
pub open spec fn door_opening(was_opening: bool, dist: u32) -> bool {
    if f32_lt(dist, DOOR_OPEN_DISTANCE) {
        true
    } else if f32_lt(DOOR_CLOSE_DISTANCE, dist) {
        false
    } else {
        was_opening
    }
}

/// Whether a door is opening after the player was seen at distance `dist`.
pub fn door_is_opening(was_opening: bool, dist: u32) -> (r: bool)
    ensures
        r == door_opening(was_opening, dist),
{
    if lt_bits(dist, DOOR_OPEN_DISTANCE) {
        true
    } else if lt_bits(DOOR_CLOSE_DISTANCE, dist) {
        false
    } else {
        was_opening
    }
}

/// What an imp does during a frame.
#[derive(Clone, Copy, Debug, PartialEq, Eq, Structural)]
pub enum ImpAction {
    /// Dead: nothing happens.
    Inert,
    /// Moves towards the player on the ground plane.
    Chase,
    /// Hits the player and restarts its attack cooldown.
    Attack,
    /// Waits (out of sight, or too close with the attack still cooling down).
    Idle,
}

/// The imp's choice given its health, its cooldown after this frame's tick
/// and its distance to the player.
pub open spec fn imp_choice(health: u32, cooldown: u32, dist: u32) -> ImpAction {
    if f32_le(health, F32_ZERO) {
        ImpAction::Inert
    } else if f32_lt(IMP_MIN_CHASE_DISTANCE, dist) && f32_lt(dist, IMP_SIGHT_DISTANCE) {
        ImpAction::Chase
    } else if f32_le(dist, IMP_ATTACK_REACH) && f32_le(cooldown, F32_ZERO) {
        ImpAction::Attack
    } else {
        ImpAction::Idle
    }
}

/// Decides an imp's action for the frame.
pub fn imp_action(health: u32, cooldown: u32, dist: u32) -> (r: ImpAction)
    ensures
        r == imp_choice(health, cooldown, dist),
{
    if le_bits(health, F32_ZERO) {
        ImpAction::Inert
    } else if lt_bits(IMP_MIN_CHASE_DISTANCE, dist) && lt_bits(dist, IMP_SIGHT_DISTANCE) {
        ImpAction::Chase
    } else if le_bits(dist, IMP_ATTACK_REACH) && le_bits(cooldown, F32_ZERO) {
        ImpAction::Attack
    } else {
        ImpAction::Idle
    }
}

/// A door's motion has hysteresis: once opening (or closing) it keeps doing
/// so until the player crosses the far (or near) threshold: the previous
/// motion matters only for distances in the band between them (or NaN).
pub proof fn lemma_door_hysteresis(was_opening: bool, dist: u32)
    ensures
        f32_lt(dist, DOOR_OPEN_DISTANCE) ==> door_opening(was_opening, dist),
        f32_lt(DOOR_CLOSE_DISTANCE, dist) ==> !door_opening(was_opening, dist),
        door_opening(true, dist) != door_opening(false, dist) ==> !f32_lt(dist, DOOR_OPEN_DISTANCE)
            && !f32_lt(DOOR_CLOSE_DISTANCE, dist),
{
}

/// A dead imp never acts, and an imp only attacks within reach with its
/// cooldown spent.
pub proof fn lemma_imp_attacks_only_when_ready(health: u32, cooldown: u32, dist: u32)
    ensures
        f32_le(health, F32_ZERO) ==> imp_choice(health, cooldown, dist) == ImpAction::Inert,
        imp_choice(health, cooldown, dist) == ImpAction::Attack ==> f32_le(dist, IMP_ATTACK_REACH)
            && f32_le(cooldown, F32_ZERO) && !f32_le(health, F32_ZERO),
{
}

} // verus!
