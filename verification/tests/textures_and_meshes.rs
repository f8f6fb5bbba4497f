use rust_moteur_3d::gpu::texture::{mip_chain_vram_bytes, mip_extent};
use rust_moteur_3d::gpu::texture::{brick_pixels, calculate_mip_levels, checkered_pixels, grid_pixels};
use rust_moteur_3d::scene::mesh::quad_list_indices;

fn texel(img: &[u8], size: usize, x: usize, y: usize) -> [u8; 4] {
    let k = (y * size + x) * 4;
    [img[k], img[k + 1], img[k + 2], img[k + 3]]
}

#[test]
fn checkered_tiles_alternate() {
    let img = checkered_pixels(64, 8);
    assert_eq!(img.len(), 64 * 64 * 4);
    assert_eq!(texel(&img, 64, 0, 0), [45, 50, 75, 255]);
    assert_eq!(texel(&img, 64, 7, 7), [45, 50, 75, 255]);
    assert_eq!(texel(&img, 64, 8, 0), [190, 205, 250, 255]);
    assert_eq!(texel(&img, 64, 8, 8), [45, 50, 75, 255]);
    // more tiles than texels: one-texel tiles
    let fine = checkered_pixels(4, 16);
    assert_eq!(texel(&fine, 4, 1, 0), [190, 205, 250, 255]);
    assert_eq!(texel(&fine, 4, 1, 1), [45, 50, 75, 255]);
    assert!(checkered_pixels(0, 3).is_empty());
}

#[test]
fn grid_lines_on_cell_borders() {
    let img = grid_pixels(64);
    assert_eq!(texel(&img, 64, 0, 10), [100, 150, 255, 255]);
    assert_eq!(texel(&img, 64, 31, 10), [100, 150, 255, 255]);
    assert_eq!(texel(&img, 64, 10, 32), [100, 150, 255, 255]);
    assert_eq!(texel(&img, 64, 10, 10), [28, 32, 48, 255]);
}

#[test]
fn brick_mortar_and_noise() {
    let img = brick_pixels(128);
    assert_eq!(texel(&img, 128, 1, 10), [160, 160, 160, 255]);
    // row 0, rx = 10, ry = 10: noise = (70 + 130) % 25 = 0
    assert_eq!(texel(&img, 128, 10, 10), [185, 75, 60, 255]);
    // row 0, rx = 11, ry = 10: noise = (77 + 130) % 25 = 7
    assert_eq!(texel(&img, 128, 11, 10), [192, 78, 60, 255]);
    // row 1 is shifted by half a brick: x = 0 gives rx = 32
    assert_eq!(texel(&img, 128, 0, 40), texel(&img, 128, 32, 8));
}

#[test]
fn mip_levels_are_bit_lengths() {
    assert_eq!(calculate_mip_levels(0, 0), 1);
    assert_eq!(calculate_mip_levels(3, 1), 2);
    assert_eq!(calculate_mip_levels(1, 1000), 10);
    assert_eq!(calculate_mip_levels(u32::MAX, 7), 32);
}

#[test]
fn quad_indices_layout() {
    let idx = quad_list_indices(36);
    assert_eq!(idx.len(), 216);
    assert_eq!(idx.len() % 3, 0);
    assert_eq!(&idx[0..6], &[0, 1, 2, 0, 2, 3]);
    assert_eq!(&idx[210..216], &[140, 141, 142, 140, 142, 143]);
    assert!(idx.iter().all(|&i| i < 144));
    assert!(quad_list_indices(0).is_empty());
}

#[test]
fn mip_chain_extents_and_memory() {
    assert_eq!(mip_extent(256, 0), 256);
    assert_eq!(mip_extent(256, 3), 32);
    assert_eq!(mip_extent(256, 9), 1);
    assert_eq!(mip_extent(300, 31), 1);
    assert_eq!(mip_chain_vram_bytes(256, 256, 1), 256 * 256 * 4);
    assert_eq!(mip_chain_vram_bytes(256, 256, 9), 4 * 87381);
    assert_eq!(mip_chain_vram_bytes(4, 1, 3), 4 * (4 + 2 + 1));
}
