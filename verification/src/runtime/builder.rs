//! Fluent construction of PBR materials.
use vstd::prelude::*;
use crate::float_bits::{F32_ZERO, F32_ONE, f32_clamp, f32_max_with, f32_is_nan, f32_le, clamp_unit, max_with_bits, lemma_clamp_in_range, lemma_max_with_at_least};
use crate::scene::node::{MaterialUniform, default_material};

verus! {

/// Bit pattern of `0.8_f32`.
pub const F32_CAR_PAINT_METALLIC: u32 = 0x3f4c_cccd;

/// Bit pattern of `0.2_f32`.
pub const F32_CAR_PAINT_ROUGHNESS: u32 = 0x3e4c_cccd;

/// `m` with its roughness set to `v` clamped to `[0, 1]`.
pub open spec fn set_roughness(m: MaterialUniform, v: u32) -> MaterialUniform {
    MaterialUniform { roughness: f32_clamp(v, F32_ZERO, F32_ONE), ..m }
}

/// `m` with its metalness set to `v` clamped to `[0, 1]`.
pub open spec fn set_metallic(m: MaterialUniform, v: u32) -> MaterialUniform {
    MaterialUniform { metallic: f32_clamp(v, F32_ZERO, F32_ONE), ..m }
}

/// `m` with its index of refraction set to `v`, raised to at least `1.0`.
pub open spec fn set_ior(m: MaterialUniform, v: u32) -> MaterialUniform {
    MaterialUniform { ior: f32_max_with(v, F32_ONE), ..m }
}

/// `m` with its transmission set to `v` clamped to `[0, 1]`.
pub open spec fn set_transmission(m: MaterialUniform, v: u32) -> MaterialUniform {
    MaterialUniform { transmission: f32_clamp(v, F32_ZERO, F32_ONE), ..m }
}

/// `m` with its clearcoat layer set, both values clamped to `[0, 1]`.
pub open spec fn set_clearcoat(m: MaterialUniform, c: u32, r: u32) -> MaterialUniform {
    MaterialUniform {
        clearcoat: f32_clamp(c, F32_ZERO, F32_ONE),
        clearcoat_roughness: f32_clamp(r, F32_ZERO, F32_ONE),
        ..m
    }
}

/// `m` with its subsurface scattering set to `v` clamped to `[0, 1]`.
pub open spec fn set_subsurface(m: MaterialUniform, v: u32) -> MaterialUniform {
    MaterialUniform { subsurface: f32_clamp(v, F32_ZERO, F32_ONE), ..m }
}

/// `m` with emission colour `rgb` and intensity `intensity`, unclamped.
pub open spec fn set_emission(m: MaterialUniform, rgb: [u32; 3], intensity: u32) -> MaterialUniform {
    MaterialUniform { emission_color: [rgb[0], rgb[1], rgb[2], intensity], ..m }
}

/// `m` with UV tiling `(u, v)`, unclamped.
pub open spec fn set_uv_tiling(m: MaterialUniform, u: u32, v: u32) -> MaterialUniform {
    MaterialUniform { uv_tiling: [u, v], ..m }
}

/// Builder for `MaterialUniform`: each setter stores its value after the
/// normalisation that the renderer expects (unit interval, IOR of at least 1).
#[derive(Clone, Copy, Debug)]
pub struct MaterialBuilder {
    material: MaterialUniform,
}

impl View for MaterialBuilder {
    type V = MaterialUniform;

    /// The material built so far.
    closed spec fn view(&self) -> MaterialUniform {
        self.material
    }
}

impl Default for MaterialBuilder {
    fn default() -> (r: Self)
        ensures
            r@ == default_material(),
    {
        Self::new()
    }
}

impl MaterialBuilder {
    /// A builder holding the default material.
    pub fn new() -> (r: Self)
        ensures
            r@ == default_material(),
    {
        MaterialBuilder { material: MaterialUniform::default() }
    }

    /// Dielectric plastic with the given roughness.
    pub fn plastic(roughness: u32) -> (r: Self)
        ensures
            r@ == set_metallic(set_roughness(default_material(), roughness), F32_ZERO),
    {
        Self::new().roughness(roughness).metallic(F32_ZERO)
    }

    /// Polished or brushed metal.
    pub fn metal(metallic: u32, roughness: u32) -> (r: Self)
        ensures
            r@ == set_roughness(set_metallic(default_material(), metallic), roughness),
    {
        Self::new().metallic(metallic).roughness(roughness)
    }

    /// Fully transmissive glass or crystal with the given IOR.
    pub fn glass(ior: u32, roughness: u32) -> (r: Self)
        ensures
            r@ == set_metallic(
                set_roughness(set_ior(set_transmission(default_material(), F32_ONE), ior), roughness),
                F32_ZERO,
            ),
    {
        Self::new().transmission(F32_ONE).ior(ior).roughness(roughness).metallic(F32_ZERO)
    }

    /// Multi-layer automotive paint: metallic 0.8, roughness 0.2 and a clearcoat.
    pub fn car_paint(clearcoat: u32, clearcoat_roughness: u32) -> (r: Self)
        ensures
            r@ == set_clearcoat(
                set_roughness(set_metallic(default_material(), F32_CAR_PAINT_METALLIC), F32_CAR_PAINT_ROUGHNESS),
                clearcoat,
                clearcoat_roughness,
            ),
    {
        Self::new().metallic(F32_CAR_PAINT_METALLIC).roughness(F32_CAR_PAINT_ROUGHNESS).clearcoat(
            clearcoat,
            clearcoat_roughness,
        )
    }

    /// Organic matter (skin, wax) with subsurface scattering.
    pub fn organic(subsurface: u32, roughness: u32) -> (r: Self)
        ensures
            r@ == set_metallic(
                set_roughness(set_subsurface(default_material(), subsurface), roughness),
                F32_ZERO,
            ),
    {
        Self::new().subsurface(subsurface).roughness(roughness).metallic(F32_ZERO)
    }

    /// Sets the roughness, clamped to `[0, 1]`.
    pub fn roughness(self, roughness: u32) -> (r: Self)
        ensures
            r@ == set_roughness(self@, roughness),
    {
        let mut b = self;
        b.material.roughness = clamp_unit(roughness);
        b
    }

    /// Sets the metalness, clamped to `[0, 1]`.
    pub fn metallic(self, metallic: u32) -> (r: Self)
        ensures
            r@ == set_metallic(self@, metallic),
    {
        let mut b = self;
        b.material.metallic = clamp_unit(metallic);
        b
    }

    /// Sets the index of refraction, raised to at least `1.0`.
    pub fn ior(self, ior: u32) -> (r: Self)
        ensures
            r@ == set_ior(self@, ior),
    {
        let mut b = self;
        b.material.ior = max_with_bits(ior, F32_ONE);
        b
    }

    /// Sets the transmission, clamped to `[0, 1]`.
    pub fn transmission(self, transmission: u32) -> (r: Self)
        ensures
            r@ == set_transmission(self@, transmission),
    {
        let mut b = self;
        b.material.transmission = clamp_unit(transmission);
        b
    }

    /// Sets the clearcoat layer and its roughness, both clamped to `[0, 1]`.
    pub fn clearcoat(self, clearcoat: u32, roughness: u32) -> (r: Self)
        ensures
            r@ == set_clearcoat(self@, clearcoat, roughness),
    {
        let mut b = self;
        b.material.clearcoat = clamp_unit(clearcoat);
        b.material.clearcoat_roughness = clamp_unit(roughness);
        b
    }

    /// Sets the subsurface scattering, clamped to `[0, 1]`.
    pub fn subsurface(self, subsurface: u32) -> (r: Self)
        ensures
            r@ == set_subsurface(self@, subsurface),
    {
        let mut b = self;
        b.material.subsurface = clamp_unit(subsurface);
        b
    }

    /// Sets the emission colour and intensity as given.
    pub fn emission(self, rgb: [u32; 3], intensity: u32) -> (r: Self)
        ensures
            r@ == set_emission(self@, rgb, intensity),
    {
        let mut b = self;
        b.material.emission_color = [rgb[0], rgb[1], rgb[2], intensity];
        b
    }

    /// Sets the UV tiling as given.
    pub fn uv_tiling(self, u: u32, v: u32) -> (r: Self)
        ensures
            r@ == set_uv_tiling(self@, u, v),
    {
        let mut b = self;
        b.material.uv_tiling = [u, v];
        b
    }

    /// The material built so far.
    pub fn build(self) -> (r: MaterialUniform)
        ensures
            r == self@,
    {
        self.material
    }
}

/// Every setter is idempotent: applying it twice with the same value is
/// applying it once.
pub proof fn lemma_setters_idempotent(m: MaterialUniform, v: u32, w: u32, rgb: [u32; 3])
    ensures
        set_roughness(set_roughness(m, v), v) == set_roughness(m, v),
        set_metallic(set_metallic(m, v), v) == set_metallic(m, v),
        set_ior(set_ior(m, v), v) == set_ior(m, v),
        set_transmission(set_transmission(m, v), v) == set_transmission(m, v),
        set_clearcoat(set_clearcoat(m, v, w), v, w) == set_clearcoat(m, v, w),
        set_subsurface(set_subsurface(m, v), v) == set_subsurface(m, v),
        set_emission(set_emission(m, rgb, v), rgb, v) == set_emission(m, rgb, v),
        set_uv_tiling(set_uv_tiling(m, v, w), v, w) == set_uv_tiling(m, v, w),
{
}

/// Setters of different fields commute: the order of a fluent chain does not
/// matter as long as each field is set once.
pub proof fn lemma_setters_commute(m: MaterialUniform, a: u32, b: u32, c: u32)
    ensures
        set_roughness(set_metallic(m, a), b) == set_metallic(set_roughness(m, b), a),
        set_roughness(set_ior(m, a), b) == set_ior(set_roughness(m, b), a),
        set_roughness(set_transmission(m, a), b) == set_transmission(set_roughness(m, b), a),
        set_roughness(set_clearcoat(m, a, c), b) == set_clearcoat(set_roughness(m, b), a, c),
        set_roughness(set_subsurface(m, a), b) == set_subsurface(set_roughness(m, b), a),
        set_metallic(set_subsurface(m, a), b) == set_subsurface(set_metallic(m, b), a),
        set_metallic(set_clearcoat(m, a, c), b) == set_clearcoat(set_metallic(m, b), a, c),
{
}

/// A clamped parameter always ends in `[0, 1]` unless the value given was NaN,
/// and the IOR set through the builder is never NaN and at least `1.0`.
pub proof fn lemma_setters_normalise(m: MaterialUniform, v: u32)
    ensures
        !f32_is_nan(v) ==> f32_le(F32_ZERO, set_roughness(m, v).roughness) && f32_le(
            set_roughness(m, v).roughness,
            F32_ONE,
        ),
        !f32_is_nan(v) ==> f32_le(F32_ZERO, set_metallic(m, v).metallic) && f32_le(
            set_metallic(m, v).metallic,
            F32_ONE,
        ),
        !f32_is_nan(set_ior(m, v).ior),
        f32_le(F32_ONE, set_ior(m, v).ior),
{
    lemma_clamp_in_range(v, F32_ZERO, F32_ONE);
    lemma_max_with_at_least(v, F32_ONE);
}

/// Whether `v` is a number in `[0, 1]`.
pub open spec fn in_unit_interval(v: u32) -> bool {
    f32_le(F32_ZERO, v) && f32_le(v, F32_ONE)
}

/// The unit-interval setters (roughness, metalness, transmission,
/// subsurface, clearcoat and its roughness) clamp to `[0, 1]`: a value that
/// is a number ends in `[0, 1]`, a value already in `[0, 1]` is stored as
/// given, and NaN is stored as NaN. The IOR setter stores a value of at least
/// `1.0` as given.
pub proof fn lemma_unit_setters_clamp(m: MaterialUniform, v: u32, w: u32)
    ensures
        !f32_is_nan(v) ==> in_unit_interval(set_roughness(m, v).roughness) && in_unit_interval(
            set_metallic(m, v).metallic,
        ) && in_unit_interval(set_transmission(m, v).transmission) && in_unit_interval(
            set_subsurface(m, v).subsurface,
        ) && in_unit_interval(set_clearcoat(m, v, w).clearcoat),
        !f32_is_nan(w) ==> in_unit_interval(set_clearcoat(m, v, w).clearcoat_roughness),
        in_unit_interval(v) ==> set_roughness(m, v).roughness == v && set_metallic(m, v).metallic
            == v && set_transmission(m, v).transmission == v && set_subsurface(m, v).subsurface == v
            && set_clearcoat(m, v, w).clearcoat == v,
        in_unit_interval(w) ==> set_clearcoat(m, v, w).clearcoat_roughness == w,
        f32_is_nan(v) ==> set_roughness(m, v).roughness == v && set_metallic(m, v).metallic == v
            && set_transmission(m, v).transmission == v && set_subsurface(m, v).subsurface == v,
        f32_le(F32_ONE, v) ==> set_ior(m, v).ior == v,
{
    lemma_clamp_in_range(v, F32_ZERO, F32_ONE);
    lemma_clamp_in_range(w, F32_ZERO, F32_ONE);
}

} // verus!
