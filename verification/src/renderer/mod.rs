//! Rendering configuration and path-tracer accumulation control.
pub mod pathtracer;

use vstd::prelude::*;

verus! {

/// How frames are produced.
#[derive(Clone, Copy, Debug, PartialEq, Eq, Structural)]
pub enum RenderMode {
    /// Light real-time rasterisation for fast editing.
    Rasterize,
    /// Game rendering: real-time reflections, waves, many lights, fog, ACES.
    VideoGame,
    /// Studio rendering: GPU path tracer with progressive accumulation.
    PathTrace,
}

} // verus!
