//! Gameplay: the hangar shooter and the flying-car race.
pub mod cyber_city;
pub mod doom;

pub use cyber_city::{CyberCheckpoint, CyberCitySystem};
pub use doom::{FpsPlayer, WeaponState};
