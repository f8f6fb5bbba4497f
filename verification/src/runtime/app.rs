//! Start-up configuration of the engine runtime.
use vstd::prelude::*;
use vstd::string::*;
use crate::renderer::RenderMode;

verus! {

/// Window, rendering mode, clear colour (`f64` bit patterns) and effect switches.
#[derive(Clone, Debug)]
pub struct EngineConfig {
    pub title: String,
    pub width: u32,
    pub height: u32,
    pub render_mode: RenderMode,
    pub clear_color: [u64; 4],
    pub enable_taa: bool,
    pub enable_ssr: bool,
    pub enable_volumetric_fog: bool,
}

impl Default for EngineConfig {
    /// A 1280 x 720 window titled "AOR 3D Engine" in game rendering mode,
    /// clearing to a deep violet `(0.02, 0.015, 0.04, 1.0)`, every effect on.
    fn default() -> (r: Self)
        ensures
            r.title@ == "AOR 3D Engine"@,
            r.width == 1280,
            r.height == 720,
            r.render_mode == RenderMode::VideoGame,
            r.clear_color == [0x3f94_7ae1_47ae_147bu64, 0x3f8e_b851_eb85_1eb8u64, 0x3fa4_7ae1_47ae_147bu64, 0x3ff0_0000_0000_0000u64],
            r.enable_taa && r.enable_ssr && r.enable_volumetric_fog,
    {
        EngineConfig {
            title: String::from_str("AOR 3D Engine"),
            width: 1280,
            height: 720,
            render_mode: RenderMode::VideoGame,
            clear_color: [0x3f94_7ae1_47ae_147b, 0x3f8e_b851_eb85_1eb8, 0x3fa4_7ae1_47ae_147b, 0x3ff0_0000_0000_0000],
            enable_taa: true,
            enable_ssr: true,
            enable_volumetric_fog: true,
        }
    }
}

} // verus!
