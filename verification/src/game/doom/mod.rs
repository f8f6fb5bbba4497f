//! The hangar shooter: the player, the shotgun and the interactive entities.
pub mod entities;
pub mod player;
pub mod weapon;

pub use entities::ImpAction;
pub use player::FpsPlayer;
pub use weapon::WeaponState;
