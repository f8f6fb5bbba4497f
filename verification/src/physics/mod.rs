//! Physics: the movement state machine of the character controller.
pub mod controller;

pub use controller::PlayerMovementState;
