//! CPU-side preparation of GPU resources.
pub mod texture;
pub mod imaging;
