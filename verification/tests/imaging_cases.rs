use rust_moteur_3d::gpu::imaging::{decode_image, mip_chain_images};

fn solid(w: u32, h: u32, px: [u8; 4]) -> Vec<u8> {
    let mut v = Vec::new();
    for _ in 0..w * h {
        v.extend_from_slice(&px);
    }
    v
}

#[test]
fn mip_chain_of_a_square_texture_halves_down_to_one_texel() {
    let base = solid(8, 8, [200, 100, 50, 255]);
    let chain = mip_chain_images(&base, 8, 8);
    assert_eq!(chain.len(), 4);
    assert_eq!(chain[0], base);
    assert_eq!(chain[1].len(), 4 * 4 * 4);
    assert_eq!(chain[2].len(), 2 * 2 * 4);
    assert_eq!(chain[3].len(), 4);
    // A uniform image stays uniform under the triangle filter.
    for level in &chain[1..] {
        for texel in level.chunks(4) {
            assert_eq!(texel, &[200, 100, 50, 255]);
        }
    }
}

#[test]
fn mip_chain_of_a_wide_texture_keeps_one_texel_rows() {
    let base = solid(8, 2, [10, 20, 30, 40]);
    let chain = mip_chain_images(&base, 8, 2);
    assert_eq!(chain.len(), 4);
    assert_eq!(chain[1].len(), 4 * 1 * 4);
    assert_eq!(chain[2].len(), 2 * 1 * 4);
    assert_eq!(chain[3].len(), 4);
}

#[test]
fn mip_chain_resamples_a_checkerboard_to_its_mean() {
    // 2 x 2 black and white texels average to mid grey at level 1.
    let base = vec![0, 0, 0, 255, 255, 255, 255, 255, 255, 255, 255, 255, 0, 0, 0, 255];
    let chain = mip_chain_images(&base, 2, 2);
    assert_eq!(chain.len(), 2);
    assert_eq!(chain[1].len(), 4);
    assert_ne!(chain[1][0..3], [0, 0, 0]);
    assert_ne!(chain[1][0..3], [255, 255, 255]);
    assert_eq!(chain[1][3], 255);
}

#[test]
fn short_buffer_uploads_the_base_level_only() {
    let base = solid(4, 3, [1, 2, 3, 4]);
    let chain = mip_chain_images(&base, 4, 4);
    assert_eq!(chain.len(), 1);
    assert_eq!(chain[0], base);
}

#[test]
fn single_texel_has_no_further_level() {
    let chain = mip_chain_images(&vec![255, 255, 255, 255], 1, 1);
    assert_eq!(chain, vec![vec![255, 255, 255, 255]]);
}

#[test]
fn decode_png_gives_rgba_texels() {
    let img = image::RgbaImage::from_raw(2, 1, vec![255, 0, 0, 255, 0, 0, 255, 128]).unwrap();
    let mut png = std::io::Cursor::new(Vec::new());
    img.write_to(&mut png, image::ImageOutputFormat::Png).unwrap();
    let (rgba, w, h) = decode_image(png.get_ref()).unwrap();
    assert_eq!((w, h), (2, 1));
    assert_eq!(rgba, vec![255, 0, 0, 255, 0, 0, 255, 128]);
}

#[test]
fn decode_refuses_garbage_with_the_decoding_message() {
    let bytes = [1u8, 2, 3, 4, 5];
    let err = decode_image(&bytes).unwrap_err();
    let text = image::load_from_memory(&bytes).unwrap_err().to_string();
    assert!(!text.is_empty());
    assert_eq!(err, format!("Erreur de décodage de l'image: {}", text));
}
