//! Texel generation for the procedural textures and mip-chain arithmetic.
use vstd::prelude::*;
use vstd::arithmetic::div_mod::{lemma_fundamental_div_mod_converse, lemma_hoist_over_denominator};
use vstd::arithmetic::power2::{pow2, lemma_pow2_unfold, lemma2_to64, lemma_pow2_pos};
use vstd::arithmetic::div_mod::lemma_div_is_ordered_by_denominator;
use vstd::bits::lemma_u32_shr_is_div;

verus! {

/// Edge of a cell of the metric grid texture, in texels.
pub const GRID_CELL: u32 = 32;

/// Height of a row of bricks, in texels.
pub const BRICK_HEIGHT: u32 = 32;

/// Width of a brick, in texels.
pub const BRICK_WIDTH: u32 = 64;

/// A procedural texel pattern.
#[derive(Clone, Copy, Debug, PartialEq, Eq)]
pub enum TexelPattern {
    /// UV checkerboard with square tiles of the given edge.
    Checkered { tile_size: u32 },
    /// Metric grid: lines on the first and last texel of every cell.
    Grid,
    /// Running-bond brickwork with mortar joints and a small colour noise.
    Brick,
}

/// RGBA bytes of one texel.
pub open spec fn rgba(r: u8, g: u8, b: u8, a: u8) -> Seq<u8> {
    seq![r, g, b, a]
}

/// Colour of texel `(x, y)` of a pattern.
pub open spec fn pattern_texel(p: TexelPattern, x: int, y: int) -> Seq<u8> {
    match p {
        TexelPattern::Checkered { tile_size } => {
            if (x / tile_size as int) % 2 == (y / tile_size as int) % 2 {
                rgba(45, 50, 75, 255)
            } else {
                rgba(190, 205, 250, 255)
            }
        },
        TexelPattern::Grid => {
            let c = GRID_CELL as int;
            if x % c == 0 || y % c == 0 || x % c == c - 1 || y % c == c - 1 {
                rgba(100, 150, 255, 255)
            } else {
                rgba(28, 32, 48, 255)
            }
        },
        TexelPattern::Brick => {
            let row = y / BRICK_HEIGHT as int;
            let offset_x = if row % 2 == 1 { BRICK_WIDTH as int / 2 } else { 0 };
            let rx = (x + offset_x) % BRICK_WIDTH as int;
            let ry = y % BRICK_HEIGHT as int;
            if rx < 3 || ry < 3 {
                rgba(160, 160, 160, 255)
            } else {
                let noise = (rx * 7 + ry * 13) % 25;
                rgba((185 + noise) as u8, (75 + noise / 2) as u8, 60, 255)
            }
        },
    }
}

/// The RGBA8 image of a `size` x `size` pattern, row after row: byte `k` is
/// channel `k % 4` of the texel at column `(k / 4) % size`, row `(k / 4) / size`.
pub open spec fn pattern_image(p: TexelPattern, size: nat) -> Seq<u8> {
    Seq::new(
        size * size * 4,
        |k: int| pattern_texel(p, (k / 4) % (size as int), (k / 4) / (size as int))[k % 4],
    )
}

/// Tile edge of a `size` texture cut into `tiles` tiles per side, at least one texel.
pub open spec fn checkered_tile_size(size: u32, tiles: u32) -> u32 {
    if size / tiles >= 1 { size / tiles } else { 1 }
}

proof fn lemma_pixel_index(size: int, x: int, y: int, c: int)
    requires
        0 <= x < size,
        0 <= y,
        0 <= c < 4,
    ensures
        ((y * size + x) * 4 + c) / 4 == y * size + x,
        ((y * size + x) * 4 + c) % 4 == c,
        (y * size + x) % size == x,
        (y * size + x) / size == y,
{
    lemma_fundamental_div_mod_converse((y * size + x) * 4 + c, 4, y * size + x, c);
    lemma_fundamental_div_mod_converse(y * size + x, size, y, x);
}

/// Byte `c` of the texel at column `x`, row `y` of a `size` x `size` pattern
/// image is channel `c` of that texel: the image is laid out row after row,
/// four bytes per texel.
pub proof fn lemma_pattern_image_layout(p: TexelPattern, size: nat, x: int, y: int, c: int)
    requires
        0 <= x < size,
        0 <= y < size,
        0 <= c < 4,
    ensures
        0 <= (y * size + x) * 4 + c < pattern_image(p, size).len(),
        pattern_image(p, size)[(y * size + x) * 4 + c] == pattern_texel(p, x, y)[c],
{
    lemma_pixel_index(size as int, x, y, c);
    assert((y * size + x) * 4 + c < size * size * 4) by (nonlinear_arith)
        requires
            0 <= x < size,
            0 <= y < size,
            0 <= c < 4,
    ;
}

/// The UV checkerboard: every texel is dark `(45, 50, 75)` or light
/// `(190, 205, 250)`, opaque; the tile at the origin is dark; the board is
/// symmetric about its diagonal; and moving one tile along a row or a column
/// swaps the colour. Together these fix every texel: a texel is dark exactly
/// when its column tile and its row tile have the same parity.
pub proof fn lemma_checkerboard_alternates(tile_size: u32, x: int, y: int)
    requires
        tile_size > 0,
        0 <= x,
        0 <= y,
    ensures
        pattern_texel(TexelPattern::Checkered { tile_size }, x, y) == rgba(45, 50, 75, 255)
            || pattern_texel(TexelPattern::Checkered { tile_size }, x, y) == rgba(190, 205, 250, 255),
        x < tile_size && y < tile_size ==> pattern_texel(TexelPattern::Checkered { tile_size }, x, y)
            == rgba(45, 50, 75, 255),
        pattern_texel(TexelPattern::Checkered { tile_size }, x, y) == pattern_texel(
            TexelPattern::Checkered { tile_size },
            y,
            x,
        ),
        pattern_texel(TexelPattern::Checkered { tile_size }, x + tile_size, y) != pattern_texel(
            TexelPattern::Checkered { tile_size },
            x,
            y,
        ),
        pattern_texel(TexelPattern::Checkered { tile_size }, x, y + tile_size) != pattern_texel(
            TexelPattern::Checkered { tile_size },
            x,
            y,
        ),
{
    let d = tile_size as int;
    lemma_hoist_over_denominator(x, 1, tile_size as nat);
    lemma_hoist_over_denominator(y, 1, tile_size as nat);
    assert((x / d + 1) % 2 != (x / d) % 2);
    assert((y / d + 1) % 2 != (y / d) % 2);
    if x < d && y < d {
        assert(x / d == 0 && y / d == 0) by (nonlinear_arith)
            requires
                0 <= x < d,
                0 <= y < d,
        ;
    }
    assert(rgba(45, 50, 75, 255)[0] != rgba(190, 205, 250, 255)[0]);
}

fn pattern_texel_exec(p: TexelPattern, x: u32, y: u32) -> (r: [u8; 4])
    requires
        p matches TexelPattern::Checkered { tile_size } ==> tile_size > 0,
        x < 0x8000_0000,
    ensures
        r@ == pattern_texel(p, x as int, y as int),
{
    match p {
        TexelPattern::Checkered { tile_size } => {
            let tx = (x / tile_size) % 2;
            let ty = (y / tile_size) % 2;
            if tx == ty {
                [45, 50, 75, 255]
            } else {
                [190, 205, 250, 255]
            }
        },
        TexelPattern::Grid => {
            let on_grid = (x % GRID_CELL == 0) || (y % GRID_CELL == 0) || (x % GRID_CELL == GRID_CELL
                - 1) || (y % GRID_CELL == GRID_CELL - 1);
            if on_grid {
                [100, 150, 255, 255]
            } else {
                [28, 32, 48, 255]
            }
        },
        TexelPattern::Brick => {
            let row = y / BRICK_HEIGHT;
            let offset_x = if row % 2 == 1 { BRICK_WIDTH / 2 } else { 0 };
            let rx = (x + offset_x) % BRICK_WIDTH;
            let ry = y % BRICK_HEIGHT;
            if rx < 3 || ry < 3 {
                [160, 160, 160, 255]
            } else {
                let noise = ((rx * 7 + ry * 13) % 25) as u8;
                [185 + noise, 75 + noise / 2, 60, 255]
            }
        },
    }
}

/// Fills the RGBA8 image of a `size` x `size` pattern. The texture upload computes
/// the buffer capacity `size * size * 4` in `u32`, so it must fit there.
pub fn pattern_pixels(p: TexelPattern, size: u32) -> (r: Vec<u8>)
    requires
        p matches TexelPattern::Checkered { tile_size } ==> tile_size > 0,
        size * size * 4 <= u32::MAX,
    ensures
        r@ == pattern_image(p, size as nat),
{
    let ghost img = pattern_image(p, size as nat);
    let mut pixels: Vec<u8> = Vec::new();
    let mut y: u32 = 0;
    assert(size < 0x8000_0000) by (nonlinear_arith)
        requires
            size * size * 4 <= u32::MAX,
    ;
    while y < size
        invariant
            y <= size,
            size * size * 4 <= u32::MAX,
            size < 0x8000_0000,
            p matches TexelPattern::Checkered { tile_size } ==> tile_size > 0,
            img == pattern_image(p, size as nat),
            pixels@.len() == y * size * 4,
            forall|k: int| 0 <= k < pixels@.len() ==> pixels@[k] == #[trigger] img[k],
        decreases size - y,
    {
        let mut x: u32 = 0;
        while x < size
            invariant
                x <= size,
                y < size,
                size * size * 4 <= u32::MAX,
                size < 0x8000_0000,
                p matches TexelPattern::Checkered { tile_size } ==> tile_size > 0,
                img == pattern_image(p, size as nat),
                pixels@.len() == (y * size + x) * 4,
                forall|k: int| 0 <= k < pixels@.len() ==> pixels@[k] == #[trigger] img[k],
            decreases size - x,
        {
            let t = pattern_texel_exec(p, x, y);
            let ghost base = pixels@.len() as int;
            proof {
                assert((y * size + x + 1) * 4 <= size * size * 4) by (nonlinear_arith)
                    requires
                        x < size,
                        y < size,
                ;
                assert forall|c: int| 0 <= c < 4 implies #[trigger] img[base + c] == t@[c] by {
                    lemma_pixel_index(size as int, x as int, y as int, c);
                }
            }
            pixels.push(t[0]);
            pixels.push(t[1]);
            pixels.push(t[2]);
            pixels.push(t[3]);
            proof {
                assert(pixels@.len() == (y * size + (x + 1)) * 4) by (nonlinear_arith)
                    requires
                        pixels@.len() == base + 4,
                        base == (y * size + x) * 4,
                ;
                assert forall|k: int| 0 <= k < pixels@.len() implies pixels@[k] == #[trigger] img[k] by {
                    if k >= base {
                        assert(img[base + (k - base)] == t@[k - base]);
                    }
                }
            }
            x = x + 1;
        }
        assert(pixels@.len() == (y + 1) * size * 4) by (nonlinear_arith)
            requires
                pixels@.len() == (y * size + size) * 4,
        ;
        y = y + 1;
    }
    assert(pixels@ =~= img);
    pixels
}

/// RGBA8 texels of the UV checkerboard texture (`tiles` tiles per side).
pub fn checkered_pixels(size: u32, tiles: u32) -> (r: Vec<u8>)
    requires
        tiles > 0,
        size * size * 4 <= u32::MAX,
    ensures
        r@ == pattern_image(
            TexelPattern::Checkered { tile_size: checkered_tile_size(size, tiles) },
            size as nat,
        ),
{
    let q = size / tiles;
    let tile_size = if q >= 1 { q } else { 1 };
    pattern_pixels(TexelPattern::Checkered { tile_size }, size)
}

/// RGBA8 texels of the metric grid texture.
pub fn grid_pixels(size: u32) -> (r: Vec<u8>)
    requires
        size * size * 4 <= u32::MAX,
    ensures
        r@ == pattern_image(TexelPattern::Grid, size as nat),
{
    pattern_pixels(TexelPattern::Grid, size)
}

/// RGBA8 texels of the brickwork texture.
pub fn brick_pixels(size: u32) -> (r: Vec<u8>)
    requires
        size * size * 4 <= u32::MAX,
    ensures
        r@ == pattern_image(TexelPattern::Brick, size as nat),
{
    pattern_pixels(TexelPattern::Brick, size)
}

/// Number of levels of a full mip chain for an edge of `n` texels:
/// halve down to one texel, counting the base level.
pub open spec fn mip_count(n: nat) -> nat
    decreases n,
{
    if n <= 1 {
        1
    } else {
        1 + mip_count(n / 2)
    }
}

/// `floor(log2(max(width, height, 1))) + 1`: the mip levels of a texture.
pub fn calculate_mip_levels(width: u32, height: u32) -> (r: u32)
    ensures
        r == mip_count(if width >= height && width >= 1 { width as nat } else if height >= 1 {
            height as nat
        } else {
            1
        }),
        1 <= r <= 32,
{
    let mut n: u32 = if width >= height { width } else { height };
    if n < 1 {
        n = 1;
    }
    let ghost n0 = n as nat;
    let mut levels: u32 = 1;
    proof {
        lemma2_to64();
        lemma_mip_count_bounded(n0, 32);
    }
    while n > 1
        invariant
            1 <= n,
            1 <= levels,
            levels + mip_count(n as nat) - 1 == mip_count(n0),
            mip_count(n as nat) <= 33 - levels,
            n < pow2((33 - levels) as nat),
        decreases n,
    {
        proof {
            if levels == 33 {
                lemma2_to64();
            }
            lemma_pow2_unfold((33 - levels) as nat);
        }
        n = n / 2;
        levels = levels + 1;
    }
    levels
}

/// An edge below `2^e` has at most `e` mip levels.
proof fn lemma_mip_count_bounded(n: nat, e: nat)
    requires
        1 <= n < pow2(e),
    ensures
        mip_count(n) <= e,
    decreases n,
{
    if e == 0 {
        lemma2_to64();
    } else if n > 1 {
        lemma_pow2_unfold(e);
        lemma_mip_count_bounded(n / 2, (e - 1) as nat);
    }
}

/// The mip count of an edge `n >= 1` is its bit length `k`:
/// `2^(k - 1) <= n < 2^k`.
pub proof fn lemma_mip_count_is_bit_length(n: nat)
    requires
        n >= 1,
    ensures
        pow2((mip_count(n) - 1) as nat) <= n < pow2(mip_count(n)),
    decreases n,
{
    if n == 1 {
        lemma_pow2_unfold(1);
        lemma2_to64();
    } else {
        lemma_mip_count_is_bit_length(n / 2);
        let k = mip_count(n / 2);
        lemma_pow2_unfold(k);
        lemma_pow2_unfold((k + 1) as nat);
        assert(mip_count(n) == k + 1);
    }
}

/// Edge of mip level `level` of an edge of `dim` texels: `dim >> level`,
/// at least one texel.
pub open spec fn mip_extent_spec(dim: u32, level: u32) -> int {
    let e = dim as nat / pow2(level as nat);
    if e >= 1 { e as int } else { 1 }
}

/// Edge of mip level `level` (below 32) of an edge of `dim` texels.
pub fn mip_extent(dim: u32, level: u32) -> (r: u32)
    requires
        level < 32,
    ensures
        r == mip_extent_spec(dim, level),
        1 <= r,
        r <= dim || dim == 0,
{
    proof {
        lemma_u32_shr_is_div(dim, level);
        lemma_pow2_pos(level as nat);
        lemma_div_is_ordered_by_denominator(dim as int, 1, pow2(level as nat) as int);
    }
    let e = dim >> level;
    if e >= 1 { e } else { 1 }
}

/// Bytes of RGBA8 texture memory taken by mip levels `0 .. levels` of a
/// `width` x `height` texture.
pub open spec fn mip_chain_bytes(width: u32, height: u32, levels: u32) -> int
    decreases levels,
{
    if levels == 0 {
        0
    } else {
        mip_chain_bytes(width, height, (levels - 1) as u32) + 4 * mip_extent_spec(width, (levels - 1) as u32)
            * mip_extent_spec(height, (levels - 1) as u32)
    }
}

/// Texture memory of a mip chain of `levels` levels (at most 32) of a
/// `width` x `height` RGBA8 texture, at least one texel on each side, whose
/// base level fits the `u32` size computation of the upload.
pub fn mip_chain_vram_bytes(width: u32, height: u32, levels: u32) -> (r: u64)
    requires
        1 <= width,
        1 <= height,
        levels <= 32,
        width * height * 4 <= u32::MAX,
    ensures
        r == mip_chain_bytes(width, height, levels),
{
    let mut total: u64 = 0;
    let mut level: u32 = 0;
    while level < levels
        invariant
            level <= levels <= 32,
            1 <= width,
            1 <= height,
            width * height * 4 <= u32::MAX,
            total == mip_chain_bytes(width, height, level),
            total <= level * 0x1_0000_0000,
        decreases levels - level,
    {
        let w = mip_extent(width, level);
        let h = mip_extent(height, level);
        assert(w * h * 4 <= width * height * 4) by (nonlinear_arith)
            requires
                1 <= w <= width,
                1 <= h <= height,
        ;
        let bytes = (w as u64) * (h as u64) * 4;
        assert(bytes == 4 * mip_extent_spec(width, level) * mip_extent_spec(height, level)) by (nonlinear_arith)
            requires
                bytes == w * h * 4,
                w == mip_extent_spec(width, level),
                h == mip_extent_spec(height, level),
        ;
        assert(mip_chain_bytes(width, height, (level + 1) as u32) == mip_chain_bytes(width, height, level)
            + 4 * mip_extent_spec(width, level) * mip_extent_spec(height, level));
        total = total + bytes;
        level = level + 1;
    }
    total
}

} // verus!
