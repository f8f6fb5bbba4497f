//! Animation: keyframe lookup, the non-destructive modifier stack and
//! procedural deformers.
pub mod clip;
pub mod deformation;
pub mod modifier;

pub use clip::{KeySpan, locate_keyframe};
pub use deformation::MeshDeformer;
pub use modifier::MeshModifier;
