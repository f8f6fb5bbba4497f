//! Procedural mesh deformers (wind, waves, squash and stretch).
use vstd::prelude::*;

verus! {

/// Real-time procedural mesh deformer. Its deformations displace vertex
/// positions with trigonometric functions of time and position, which the
/// caller evaluates in floating point.
#[derive(Clone, Copy, Debug, PartialEq, Eq)]
pub struct MeshDeformer;

} // verus!
