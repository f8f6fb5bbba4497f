//! Authoring runtime: start-up configuration, fluent material construction
//! and property reflection.
pub mod app;
pub mod builder;
pub mod inspectable;

pub use app::EngineConfig;
pub use builder::MaterialBuilder;
pub use inspectable::{Inspectable, PropertyDesc, PropertyKind, PropertyValue};
