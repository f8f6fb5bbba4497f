//! Verified core of a real-time 3D engine: material parameters, the entity
//! event bus, spatial-audio bookkeeping, gameplay state machines, keyframe
//! lookup and procedural texture and mesh-index generation.
pub mod float_bits;
pub mod scene;
pub mod runtime;
pub mod ecs;
pub mod gpu;
pub mod animation;
pub mod audio;
pub mod game;
pub mod physics;
pub mod renderer;
pub mod particles;
