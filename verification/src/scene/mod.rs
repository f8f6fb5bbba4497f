//! Scene data shared by the renderer and the authoring tools.
pub mod mesh;
pub mod node;

pub use node::MaterialUniform;
