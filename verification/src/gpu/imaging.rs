//! Image decoding and mip-chain construction on raw RGBA8 bytes, on top of
//! the `image` crate.
use vstd::prelude::*;
use vstd::arithmetic::div_mod::lemma_div_is_ordered_by_denominator;
use vstd::arithmetic::power2::{pow2, lemma_pow2_pos, lemma_pow2_unfold, lemma2_to64};
use crate::gpu::texture::{calculate_mip_levels, mip_count, mip_extent, mip_extent_spec};

verus! {

/// The RGBA8 bytes of the `nw` x `nh` image that `image::imageops::resize`
/// with the triangle filter makes of the `w` x `h` RGBA8 image held by the
/// first `4 * w * h` bytes of `px`.
pub uninterp spec fn triangle_resized(px: Seq<u8>, w: u32, h: u32, nw: u32, nh: u32) -> Seq<u8>;

/// What `image::load_from_memory` followed by `to_rgba8` makes of an encoded
/// image: its RGBA8 bytes, width and height, or the `Display` text of the
/// decoding error. Only the success, the size, the error text and, for a PNG
/// file, the bytes are tied to this name (see `decode_rgba8`).
pub uninterp spec fn decoded_rgba8(bytes: Seq<u8>) -> Result<(Seq<u8>, u32, u32), Seq<char>>;

/// The eight signature bytes that open a PNG file, by which
/// `image::guess_format` recognises it before any other format.
pub open spec fn has_png_signature(bytes: Seq<u8>) -> bool {
    bytes.len() >= 8 && bytes.subrange(0, 8) == seq![0x89u8, 0x50, 0x4e, 0x47, 0x0d, 0x0a, 0x1a, 0x0a]
}

/// Resizes an RGBA8 image with `image::RgbaImage::from_raw` and
/// `image::imageops::resize` (triangle filter).
///
/// Claimed of the crate: `from_raw` refuses the buffer (here `None`) exactly
/// when it holds fewer than `4 * w * h` bytes (a checked product); otherwise
/// `resize` returns an `nw` x `nh` image, `4 * nw * nh` bytes, whose content is
/// named by `triangle_resized`.
#[verifier::external_body]
fn resize_rgba8(px: &Vec<u8>, w: u32, h: u32, nw: u32, nh: u32) -> (r: Option<Vec<u8>>)
    requires
        1 <= nw <= w,
        1 <= nh <= h,
    ensures
        r is Some <==> 4 * w * h <= px@.len(),
        r matches Some(v) ==> v@ == triangle_resized(px@, w, h, nw, nh) && v@.len() == 4 * nw * nh,
{
    match image::RgbaImage::from_raw(w, h, px.clone()) {
        Some(img) => Some(
            image::imageops::resize(&img, nw, nh, image::imageops::FilterType::Triangle).into_raw(),
        ),
        None => None,
    }
}

/// Decodes an encoded image with `image::load_from_memory`, then converts it
/// with `to_rgba8`; a refused image gives the `Display` text of its
/// `image::ImageError`.
///
/// Claimed of the crate: whether decoding succeeds, the image size and the
/// error text depend on the bytes alone; the RGBA8 buffer that `to_rgba8`
/// allocates holds exactly `4 * width * height` bytes; and the texels of a
/// PNG file depend on the bytes alone (the PNG path has no CPU-specific
/// code). Left unsaid: the texels of a JPEG file, which `jpeg-decoder`
/// computes with an SSSE3 or a scalar routine chosen at run time, whose
/// roundings differ.
#[verifier::external_body]
fn decode_rgba8(bytes: &[u8]) -> (r: Result<(Vec<u8>, u32, u32), String>)
    ensures
        r is Ok <==> decoded_rgba8(bytes@) is Ok,
        r matches Ok(t) ==> t.1 == decoded_rgba8(bytes@)->Ok_0.1 && t.2 == decoded_rgba8(
            bytes@,
        )->Ok_0.2 && t.0@.len() == 4 * t.1 * t.2,
        r matches Ok(t) ==> (has_png_signature(bytes@) ==> t.0@ == decoded_rgba8(bytes@)->Ok_0.0),
        r matches Err(text) ==> text@ == decoded_rgba8(bytes@)->Err_0,
{
    match image::load_from_memory(bytes) {
        Ok(img) => {
            let rgba = img.to_rgba8();
            let (w, h) = rgba.dimensions();
            Ok((rgba.into_raw(), w, h))
        },
        Err(e) => Err(e.to_string()),
    }
}

/// The message of an image that could not be decoded, for the decoder's text.
pub open spec fn image_decode_error(text: Seq<char>) -> Seq<char> {
    "Erreur de décodage de l'image: "@ + text
}

/// Decodes an encoded image (PNG, JPEG) into RGBA8 bytes with its width and
/// height; a refused image gives the decoding error message, which ends with
/// the decoder's own text.
pub fn decode_image(bytes: &[u8]) -> (r: Result<(Vec<u8>, u32, u32), String>)
    ensures
        r is Ok <==> decoded_rgba8(bytes@) is Ok,
        r matches Ok(t) ==> t.1 == decoded_rgba8(bytes@)->Ok_0.1 && t.2 == decoded_rgba8(
            bytes@,
        )->Ok_0.2 && t.0@.len() == 4 * t.1 * t.2,
        r matches Ok(t) ==> (has_png_signature(bytes@) ==> t.0@ == decoded_rgba8(bytes@)->Ok_0.0),
        r matches Err(msg) ==> msg@ == image_decode_error(decoded_rgba8(bytes@)->Err_0),
{
    match decode_rgba8(bytes) {
        Ok(t) => Ok(t),
        Err(text) => {
            let mut msg = String::from_str("Erreur de décodage de l'image: ");
            msg.append(text.as_str());
            Err(msg)
        },
    }
}

/// Mip level `k` of the chain built on `rgba` (`width` x `height`): the base
/// bytes for level 0, then each level the triangle-filtered resize of the one
/// before it to `mip_extent(width, k)` x `mip_extent(height, k)`.
pub open spec fn mip_level_image(rgba: Seq<u8>, width: u32, height: u32, k: nat) -> Seq<u8>
    decreases k,
{
    if k == 0 {
        rgba
    } else {
        let j = (k - 1) as nat;
        triangle_resized(
            mip_level_image(rgba, width, height, j),
            mip_extent_spec(width, j as u32) as u32,
            mip_extent_spec(height, j as u32) as u32,
            mip_extent_spec(width, k as u32) as u32,
            mip_extent_spec(height, k as u32) as u32,
        )
    }
}

/// Mip levels of a `width` x `height` texture, at least one texel on each side.
pub open spec fn texture_mip_levels(width: u32, height: u32) -> nat {
    mip_count(if width >= height && width >= 1 { width as nat } else if height >= 1 {
        height as nat
    } else {
        1
    })
}

/// Number of levels of the chain built on a buffer of `len` bytes: the full
/// chain where the base buffer holds the whole image, else the base alone.
pub open spec fn mip_chain_len(len: nat, width: u32, height: u32) -> nat {
    if texture_mip_levels(width, height) > 1 && 4 * width * height <= len {
        texture_mip_levels(width, height)
    } else {
        1
    }
}

fn copy_bytes(src: &Vec<u8>) -> (r: Vec<u8>)
    ensures
        r@ == src@,
{
    let mut out: Vec<u8> = Vec::new();
    let mut i: usize = 0;
    while i < src.len()
        invariant
            i <= src.len(),
            out@ == src@.subrange(0, i as int),
        decreases src.len() - i,
    {
        out.push(src[i]);
        i = i + 1;
        assert(out@ =~= src@.subrange(0, i as int));
    }
    assert(out@ =~= src@);
    out
}

/// The mip chain of an RGBA8 `width` x `height` texture: level 0 is `rgba`
/// itself, and each further level the triangle-filtered resize of the level
/// before it, down to one texel on the longer side. Where `rgba` holds fewer
/// than `4 * width * height` bytes the image cannot be resized and the chain
/// is the base level alone.
pub fn mip_chain_images(rgba: &Vec<u8>, width: u32, height: u32) -> (r: Vec<Vec<u8>>)
    requires
        1 <= width,
        1 <= height,
    ensures
        r@.len() == mip_chain_len(rgba@.len(), width, height),
        forall|k: int| 0 <= k < r@.len() ==> #[trigger] r@[k]@ == mip_level_image(rgba@, width, height, k as nat),
        forall|k: int|
            1 <= k < r@.len() ==> (#[trigger] r@[k])@.len() == 4 * mip_extent_spec(width, k as u32)
                * mip_extent_spec(height, k as u32),
{
    let levels = calculate_mip_levels(width, height);
    proof {
        lemma2_to64();
    }
    let mut chain: Vec<Vec<u8>> = Vec::new();
    chain.push(copy_bytes(rgba));
    if levels > 1 {
        let mut level: u32 = 1;
        let mut w: u32 = width;
        let mut h: u32 = height;
        assert(mip_extent_spec(width, 0) == width && mip_extent_spec(height, 0) == height) by {
            lemma2_to64();
        }
        while level < levels
            invariant
                1 <= level <= levels <= 32,
                levels == texture_mip_levels(width, height),
                1 <= width,
                1 <= height,
                w == mip_extent_spec(width, (level - 1) as u32),
                h == mip_extent_spec(height, (level - 1) as u32),
                1 <= w <= width,
                1 <= h <= height,
                level == 1 ==> w == width && h == height,
                forall|k: int|
                    1 <= k < chain@.len() ==> (#[trigger] chain@[k])@.len() == 4 * mip_extent_spec(width, k as u32)
                        * mip_extent_spec(height, k as u32),
                chain@.len() == level,
                forall|k: int| 0 <= k < chain@.len() ==> #[trigger] chain@[k]@ == mip_level_image(rgba@, width, height, k as nat),
                level > 1 ==> 4 * width * height <= rgba@.len(),
            decreases levels - level,
        {
            let nw = mip_extent(width, level);
            let nh = mip_extent(height, level);
            proof {
                assert(nw <= w && nh <= h) by {
                    lemma_mip_extent_shrinks(width, (level - 1) as u32);
                    lemma_mip_extent_shrinks(height, (level - 1) as u32);
                }
            }
            let prev = &chain[(level - 1) as usize];
            match resize_rgba8(prev, w, h, nw, nh) {
                Some(next) => {
                    proof {
                        if level == 1 {
                            assert(chain@[0]@ == rgba@);
                        }
                    }
                    chain.push(next);
                },
                None => {
                    // Only the base buffer can be too short: every resized
                    // level holds exactly its own image.
                    assert(level == 1);
                    return chain;
                },
            }
            w = nw;
            h = nh;
            level = level + 1;
        }
    }
    chain
}

/// Each mip level is at most as wide as the one before it.
proof fn lemma_mip_extent_shrinks(dim: u32, j: u32)
    requires
        j < 31,
    ensures
        mip_extent_spec(dim, (j + 1) as u32) <= mip_extent_spec(dim, j),
{
    lemma_pow2_unfold((j + 1) as nat);
    lemma_pow2_pos(j as nat);
    lemma_div_is_ordered_by_denominator(dim as int, pow2(j as nat) as int, pow2((j + 1) as nat) as int);
}

} // verus!
