use rust_moteur_3d::float_bits::{clamp_bits, clamp_unit, is_nan_bits, le_bits, lt_bits, max_with_bits, F32_ONE, F32_ZERO};
use rust_moteur_3d::runtime::inspectable::str_eq;
use rust_moteur_3d::runtime::{Inspectable, MaterialBuilder, PropertyKind, PropertyValue};
use rust_moteur_3d::scene::MaterialUniform;

fn b(v: f32) -> u32 {
    v.to_bits()
}

fn f(v: u32) -> f32 {
    f32::from_bits(v)
}

#[test]
fn bits_order_matches_f32_order() {
    let samples = [
        -f32::INFINITY,
        -1.0e30,
        -2.5,
        -1.0,
        -0.0,
        0.0,
        1.0e-40,
        0.2,
        1.0,
        3.5,
        f32::INFINITY,
        f32::NAN,
    ];
    for &x in samples.iter() {
        for &y in samples.iter() {
            assert_eq!(lt_bits(b(x), b(y)), x < y, "{x} < {y}");
            assert_eq!(le_bits(b(x), b(y)), x <= y, "{x} <= {y}");
        }
        assert_eq!(is_nan_bits(b(x)), x.is_nan());
    }
}

#[test]
fn clamp_matches_f32_clamp() {
    for &x in [-3.0f32, -0.0, 0.0, 0.25, 1.0, 7.0, f32::INFINITY, -f32::INFINITY].iter() {
        assert_eq!(f(clamp_unit(b(x))).to_bits(), x.clamp(0.0, 1.0).to_bits());
        assert_eq!(f(clamp_bits(b(x), b(-1.0), b(2.0))), x.clamp(-1.0, 2.0));
    }
    assert!(f(clamp_unit(b(f32::NAN))).is_nan());
    assert_eq!(clamp_unit(b(-0.0)), b(-0.0));
    assert_eq!(clamp_unit(b(-5.0)), F32_ZERO);
    assert_eq!(clamp_unit(b(5.0)), F32_ONE);
}

#[test]
fn max_with_matches_f32_max() {
    for &x in [-3.0f32, 0.0, 0.5, 1.0, 1.33, 2.4, f32::INFINITY, f32::NAN].iter() {
        assert_eq!(f(max_with_bits(b(x), F32_ONE)), x.max(1.0));
    }
}

#[test]
fn default_material_values() {
    let m = MaterialUniform::default();
    assert_eq!(f(m.roughness), 0.5);
    assert_eq!(f(m.metallic), 0.0);
    assert_eq!(f(m.ior), 1.5);
    assert_eq!([f(m.uv_tiling[0]), f(m.uv_tiling[1])], [1.0, 1.0]);
    assert_eq!(m.use_normal_map, 0);
    assert_eq!(f(m.clearcoat_roughness), 0.03);
}

#[test]
fn builder_presets_and_clamping() {
    let glass = MaterialBuilder::glass(b(0.5), b(1.7)).build();
    assert_eq!(f(glass.transmission), 1.0);
    assert_eq!(f(glass.ior), 1.0); // IOR is raised to at least 1.0
    assert_eq!(f(glass.roughness), 1.0); // clamped to the unit interval
    assert_eq!(f(glass.metallic), 0.0);

    let paint = MaterialBuilder::car_paint(b(2.0), b(-1.0)).build();
    assert_eq!(f(paint.metallic), 0.8);
    assert_eq!(f(paint.roughness), 0.2);
    assert_eq!(f(paint.clearcoat), 1.0);
    assert_eq!(f(paint.clearcoat_roughness), 0.0);

    let metal = MaterialBuilder::metal(b(0.65), b(0.35)).clearcoat(b(0.2), b(0.1)).build();
    assert_eq!(f(metal.metallic), 0.65);
    assert_eq!(f(metal.roughness), 0.35);
    assert_eq!(f(metal.clearcoat), 0.2);

    let plastic = MaterialBuilder::plastic(b(0.4)).uv_tiling(b(20.0), b(20.0)).build();
    assert_eq!(f(plastic.roughness), 0.4);
    assert_eq!(f(plastic.uv_tiling[0]), 20.0);

    let organic = MaterialBuilder::organic(b(0.45), b(0.35)).emission([b(0.8), b(0.1), b(0.05)], b(0.6)).build();
    assert_eq!(f(organic.subsurface), 0.45);
    assert_eq!(f(organic.emission_color[0]), 0.8);
    assert_eq!(f(organic.emission_color[3]), 0.6);

    // idempotence and NaN passing through clamping
    let twice = MaterialBuilder::new().roughness(b(3.0)).roughness(b(3.0)).build();
    assert_eq!(f(twice.roughness), 1.0);
    assert!(f(MaterialBuilder::new().metallic(b(f32::NAN)).build().metallic).is_nan());
    assert_eq!(f(MaterialBuilder::default().build().roughness), 0.5);
}

#[test]
fn inspect_lists_eight_properties_in_order() {
    let m = MaterialBuilder::car_paint(b(0.9), b(0.03)).build();
    let props = m.inspect_properties();
    let ids: Vec<&str> = props.iter().map(|p| p.id.as_str()).collect();
    assert_eq!(
        ids,
        vec!["roughness", "metallic", "ior", "transmission", "clearcoat", "clearcoat_roughness", "subsurface", "emission_color"]
    );
    assert_eq!(props[2].kind, PropertyKind::Float { min: b(1.0), max: b(3.0), step: b(0.02) });
    assert_eq!(props[7].kind, PropertyKind::ColorRgba);
    assert_eq!(props[4].value, PropertyValue::Float(b(0.9)));
    assert_eq!(props[0].name, "Rugosité (Roughness)");
    assert_eq!(props[7].category, "Émission");
}

#[test]
fn set_property_normalises_and_refuses() {
    let mut m = MaterialUniform::default();
    m.set_property("ior", PropertyValue::Float(b(0.3))).unwrap();
    assert_eq!(f(m.ior), 1.0);
    m.set_property("metallic", PropertyValue::Float(b(1.4))).unwrap();
    assert_eq!(f(m.metallic), 1.0);
    m.set_property("emission_color", PropertyValue::ColorRgba([b(1.0), b(2.0), b(3.0), b(4.0)])).unwrap();
    assert_eq!(f(m.emission_color[2]), 3.0);

    let before = m;
    let err = m.set_property("albedo", PropertyValue::Float(b(0.5))).unwrap_err();
    assert_eq!(err, "Propriété inconnue ou type incompatible: albedo");
    let err = m.set_property("roughness", PropertyValue::Bool(true)).unwrap_err();
    assert_eq!(err, "Propriété inconnue ou type incompatible: roughness");
    assert_eq!(m, before);

    // read after write
    m.set_property("transmission", PropertyValue::Float(b(0.25))).unwrap();
    assert_eq!(m.inspect_properties()[3].value, PropertyValue::Float(b(0.25)));
}

#[test]
fn str_eq_compares_characters() {
    assert!(str_eq("ior", "ior"));
    assert!(!str_eq("ior", "io"));
    assert!(!str_eq("", "x"));
}
