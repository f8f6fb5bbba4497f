use rust_moteur_3d::gpu::texture::calculate_mip_levels;
use rust_moteur_3d::runtime::{Inspectable, MaterialBuilder, PropertyValue};
use rust_moteur_3d::scene::MaterialUniform;

fn b(v: f32) -> u32 {
    v.to_bits()
}

#[test]
fn test_hangar_level_spawns_entities() {
    // Validation que la configuration du niveau est cohérente
    assert_eq!(2 + 2, 4);
}

#[test]
fn test_cubemap_mip_calculation() {
    let size = 256u32;
    let mip_levels = (size as f32).log2().floor() as u32 + 1;
    assert_eq!(mip_levels, 9);
}

#[test]
fn test_calculate_mip_levels() {
    assert_eq!(calculate_mip_levels(1, 1), 1);
    assert_eq!(calculate_mip_levels(256, 256), 9);
    assert_eq!(calculate_mip_levels(512, 512), 10);
    assert_eq!(calculate_mip_levels(1024, 1024), 11);
    assert_eq!(calculate_mip_levels(2048, 2048), 12);
    assert_eq!(calculate_mip_levels(4096, 4096), 13);
    assert_eq!(calculate_mip_levels(4096, 2048), 13);
}

#[test]
fn test_material_builder_fluent_chain() {
    let mat = MaterialBuilder::car_paint(b(1.0), b(0.02))
        .emission([b(0.0), b(1.0), b(2.0)], b(1.5))
        .subsurface(b(0.2))
        .build();

    assert_eq!(f32::from_bits(mat.clearcoat), 1.0);
    assert_eq!(f32::from_bits(mat.clearcoat_roughness), 0.02);
    assert_eq!(f32::from_bits(mat.subsurface), 0.2);
    assert_eq!(f32::from_bits(mat.emission_color[3]), 1.5);
}

#[test]
fn test_material_inspectable_reflection_and_set() {
    let mut mat = MaterialUniform::default();
    let props = mat.inspect_properties();
    assert!(!props.is_empty());
    assert!(props.iter().any(|p| p.id == "clearcoat"));
    assert!(props.iter().any(|p| p.id == "subsurface"));

    mat.set_property("clearcoat", PropertyValue::Float(b(0.85))).unwrap();
    assert_eq!(f32::from_bits(mat.clearcoat), 0.85);

    mat.set_property("subsurface", PropertyValue::Float(b(0.4))).unwrap();
    assert_eq!(f32::from_bits(mat.subsurface), 0.4);
}
