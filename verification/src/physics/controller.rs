//! Movement state of the kinematic character controller.
use vstd::prelude::*;
use crate::float_bits::{f32_lt, lt_bits};

verus! {

/// Bit pattern of `5.0_f32`: horizontal speed (m/s) above which a grounded
/// player counts as sprinting.
pub const SPRINT_SPEED_THRESHOLD: u32 = 0x40a0_0000;

/// Bit pattern of `0.2_f32`: horizontal speed (m/s) above which a grounded
/// player counts as walking.
pub const WALK_SPEED_THRESHOLD: u32 = 0x3e4c_cccd;

/// What the player is doing, as shown by animations and sounds.
#[derive(Clone, Copy, Debug, PartialEq, Eq, Structural)]
pub enum PlayerMovementState {
    Idle,
    Walking,
    Sprinting,
    Crouching,
    InAir,
}

/// The state after a physics step: in the air unless grounded, crouching
/// takes precedence on the ground, then the horizontal speed decides.
pub open spec fn movement_state(is_grounded: bool, is_crouching: bool, speed_h: u32) -> PlayerMovementState {
    if !is_grounded {
        PlayerMovementState::InAir
    } else if is_crouching {
        PlayerMovementState::Crouching
    } else if f32_lt(SPRINT_SPEED_THRESHOLD, speed_h) {
        PlayerMovementState::Sprinting
    } else if f32_lt(WALK_SPEED_THRESHOLD, speed_h) {
        PlayerMovementState::Walking
    } else {
        PlayerMovementState::Idle
    }
}

impl PlayerMovementState {
    /// Classifies the end of a controller step from the contact flags and
    /// the horizontal speed `speed_h` (an `f32` bit pattern, in m/s).
    pub fn classify(is_grounded: bool, is_crouching: bool, speed_h: u32) -> (r: Self)
        ensures
            r == movement_state(is_grounded, is_crouching, speed_h),
    {
        if !is_grounded {
            PlayerMovementState::InAir
        } else if is_crouching {
            PlayerMovementState::Crouching
        } else if lt_bits(SPRINT_SPEED_THRESHOLD, speed_h) {
            PlayerMovementState::Sprinting
        } else if lt_bits(WALK_SPEED_THRESHOLD, speed_h) {
            PlayerMovementState::Walking
        } else {
            PlayerMovementState::Idle
        }
    }
}

/// The state is monotone in speed on the ground: a faster grounded,
/// standing player is never in a slower state (idle < walking < sprinting).
pub proof fn lemma_movement_state_monotone(a: u32, b: u32)
    requires
        !crate::float_bits::f32_is_nan(a),
        !crate::float_bits::f32_is_nan(b),
        crate::float_bits::f32_le(a, b),
    ensures
        movement_state(true, false, a) == PlayerMovementState::Sprinting ==> movement_state(true, false, b)
            == PlayerMovementState::Sprinting,
        movement_state(true, false, a) == PlayerMovementState::Walking ==> movement_state(true, false, b)
            != PlayerMovementState::Idle,
{
}

/// A player off the ground is in the air whatever it does; a grounded
/// crouching player is crouching whatever its speed; a grounded standing
/// player is never crouching nor in the air: no faster than `0.2` m/s it is
/// idle, faster than `5` m/s it sprints, and in between it walks.
pub proof fn lemma_movement_state_cases(is_crouching: bool, speed_h: u32)
    ensures
        movement_state(false, is_crouching, speed_h) == PlayerMovementState::InAir,
        movement_state(true, true, speed_h) == PlayerMovementState::Crouching,
        movement_state(true, false, speed_h) != PlayerMovementState::Crouching,
        movement_state(true, false, speed_h) != PlayerMovementState::InAir,
        crate::float_bits::f32_le(speed_h, WALK_SPEED_THRESHOLD) ==> movement_state(true, false, speed_h)
            == PlayerMovementState::Idle,
        crate::float_bits::f32_lt(WALK_SPEED_THRESHOLD, speed_h) && crate::float_bits::f32_le(
            speed_h,
            SPRINT_SPEED_THRESHOLD,
        ) ==> movement_state(true, false, speed_h) == PlayerMovementState::Walking,
        crate::float_bits::f32_lt(SPRINT_SPEED_THRESHOLD, speed_h) ==> movement_state(true, false, speed_h)
            == PlayerMovementState::Sprinting,
{
}

} // verus!
