//! Per-node surface description uploaded to the GPU.
use vstd::prelude::*;
use crate::float_bits::{F32_ZERO, F32_ONE};

verus! {

/// Bit pattern of `0.5_f32`.
pub const F32_HALF: u32 = 0x3f00_0000;

/// Bit pattern of `1.5_f32`.
pub const F32_ONE_AND_HALF: u32 = 0x3fc0_0000;

/// Bit pattern of `0.03_f32`.
pub const F32_CLEARCOAT_ROUGHNESS_DEFAULT: u32 = 0x3cf5_c28f;

/// PBR surface parameters of a scene node, each scalar held as the bit
/// pattern of its `f32` (see `float_bits`).
#[derive(Clone, Copy, Debug, PartialEq)]
pub struct MaterialUniform {
    pub roughness: u32,
    pub metallic: u32,
    pub uv_tiling: [u32; 2],
    pub uv_offset: [u32; 2],
    pub ior: u32,
    pub transmission: u32,
    /// RGB emission colour and, in the last slot, its intensity.
    pub emission_color: [u32; 4],
    pub use_normal_map: u32,
    pub clearcoat: u32,
    pub clearcoat_roughness: u32,
    pub subsurface: u32,
}

/// The default surface: half-rough dielectric, IOR 1.5, no tiling offset,
/// no emission, no clearcoat layer in use, no subsurface scattering.
pub open spec fn default_material() -> MaterialUniform {
    MaterialUniform {
        roughness: F32_HALF,
        metallic: F32_ZERO,
        uv_tiling: [F32_ONE, F32_ONE],
        uv_offset: [F32_ZERO, F32_ZERO],
        ior: F32_ONE_AND_HALF,
        transmission: F32_ZERO,
        emission_color: [F32_ZERO, F32_ZERO, F32_ZERO, F32_ZERO],
        use_normal_map: 0,
        clearcoat: F32_ZERO,
        clearcoat_roughness: F32_CLEARCOAT_ROUGHNESS_DEFAULT,
        subsurface: F32_ZERO,
    }
}

impl Default for MaterialUniform {
    fn default() -> (r: Self)
        ensures
            r == default_material(),
    {
        MaterialUniform {
            roughness: F32_HALF,
            metallic: F32_ZERO,
            uv_tiling: [F32_ONE, F32_ONE],
            uv_offset: [F32_ZERO, F32_ZERO],
            ior: F32_ONE_AND_HALF,
            transmission: F32_ZERO,
            emission_color: [F32_ZERO, F32_ZERO, F32_ZERO, F32_ZERO],
            use_normal_map: 0,
            clearcoat: F32_ZERO,
            clearcoat_roughness: F32_CLEARCOAT_ROUGHNESS_DEFAULT,
            subsurface: F32_ZERO,
        }
    }
}

} // verus!
