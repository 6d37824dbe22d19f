//! Banded gas-giant surfaces: an equirectangular RGBA image whose rows take
//! their colour from a palette, disturbed per pixel by turbulence and by a
//! seeded random jitter.
//!
//! Colours and variations are fixed-point numbers in ten-thousandths: a
//! channel of `COLOR_ONE` is full intensity. The smooth fields of the
//! surface (the banding phase of each row and the turbulence and storm term
//! of each pixel) are supplied by the caller; this module selects the bands,
//! draws the jitter in row-major order, and quantises the result.

use vstd::prelude::*;
use crate::buffer::{
    all_opaque, grid_pixel, lemma_row_major_before, max_buffer_bytes, rgba_at, PixelBuffer,
    PixelImage, Rgba, TextureError,
};
use crate::rng::seeded_draws;

verus! {

/// Full intensity of a channel.
pub const COLOR_ONE: u16 = 10000;

/// Random draws are mapped to `[0, 1)` in units of `2^-24`, by their top 24 bits.
pub const DRAW_ONE: u64 = 0x100_0000;

/// A palette entry: red, green and blue in ten-thousandths.
#[derive(Clone, Copy, Debug, PartialEq, Eq, Structural)]
pub struct BandColor {
    pub r: u16,
    pub g: u16,
    pub b: u16,
}

/// `clamp(base + variation, 0, 1)` scaled to `0..=255`, rounding down.
pub open spec fn quantize_spec(base: int, variation: int) -> u8 {
    let v = base + variation;
    let c = if v < 0 {
        0
    } else if v > COLOR_ONE {
        COLOR_ONE as int
    } else {
        v
    };
    (c * 255 / COLOR_ONE as int) as u8
}

/// The jitter of one draw: uniform over `[-span / 2, span / 2)`, from the
/// top 24 bits of the draw.
pub open spec fn jitter_spec(draw: u32, span: u16) -> int {
    (draw as int / 256) * span / DRAW_ONE as int - span / 2
}

/// The palette entry of a row: its banding phase, cycled over the palette.
pub open spec fn band_color(palette: Seq<BandColor>, phase: usize) -> BandColor {
    palette[phase as int % palette.len() as int]
}

/// A pixel of the given band under the given total variation.
pub open spec fn surface_pixel(c: BandColor, variation: int) -> Rgba {
    Rgba {
        r: quantize_spec(c.r as int, variation),
        g: quantize_spec(c.g as int, variation),
        b: quantize_spec(c.b as int, variation),
        a: 255,
    }
}

/// The total variation of the pixel at flat index `k`: its turbulence plus
/// the jitter of its draw.
pub open spec fn pixel_variation(turbulence: Seq<i32>, draws: Seq<u32>, span: u16, k: int) -> int {
    turbulence[k] as int + jitter_spec(draws[k], span)
}

/// The parameters are refused: a zero dimension, an empty palette, or a
/// field whose length does not match the dimensions.
pub open spec fn surface_params_invalid(
    width: u32,
    height: u32,
    palette_len: nat,
    phases_len: nat,
    field_len: nat,
) -> bool {
    width == 0 || height == 0 || palette_len == 0 || phases_len != height || field_len != width
        * height
}

/// Bytes of a `width` by `height` image.
pub open spec fn image_bytes(width: u32, height: u32) -> int {
    width * height * 4
}

/// `img` is the banded surface of these inputs, pixel for pixel.
pub open spec fn is_banded_surface(
    img: PixelImage,
    width: u32,
    height: u32,
    palette: Seq<BandColor>,
    jitter_span: u16,
    phases: Seq<usize>,
    turbulence: Seq<i32>,
    draws: Seq<u32>,
) -> bool {
    &&& img.width == width
    &&& img.height == height
    &&& img.wf()
    &&& forall|x: int, y: int|
        0 <= x < width && 0 <= y < height ==> #[trigger] img.pixel(x, y) == surface_pixel(
            band_color(palette, phases[y]),
            pixel_variation(turbulence, draws, jitter_span, y * width + x),
        )
}

/// Quantises one channel: `clamp(base + variation, 0, COLOR_ONE) * 255 / COLOR_ONE`.
pub fn quantize_channel(base: u16, variation: i64) -> (r: u8)
    ensures
        r == quantize_spec(base as int, variation as int),
{
    if variation >= COLOR_ONE as i64 {
        255
    } else if variation <= -(u16::MAX as i64) - 1 {
        0
    } else {
        let v: i64 = base as i64 + variation;
        let c: i64 = if v < 0 {
            0
        } else if v > COLOR_ONE as i64 {
            COLOR_ONE as i64
        } else {
            v
        };
        (c * 255 / COLOR_ONE as i64) as u8
    }
}

/// The jitter of one random draw, for a jitter of total width `span`.
pub fn jitter_from_draw(draw: u32, span: u16) -> (r: i32)
    ensures
        r == jitter_spec(draw, span),
{
    let top: u64 = (draw >> 8u32) as u64;
    assert(top == draw as int / 256) by (bit_vector)
        requires
            top == (draw >> 8u32) as u64,
    ;
    assert(top * span <= 0x100_0000 * 0x1_0000) by (nonlinear_arith)
        requires
            top < 0x100_0000,
            span <= 0xffff,
    ;
    let scaled: u64 = top * span as u64 / DRAW_ONE;
    (scaled as i64 - (span / 2) as i64) as i32
}

/// The palette index of a row with the given banding phase: the phase
/// modulo the palette length, so that bands cycle through the palette.
pub fn band_index(phase: usize, palette_len: usize) -> (r: usize)
    requires
        palette_len > 0,
    ensures
        r == phase % palette_len,
        r < palette_len,
{
    phase % palette_len
}

/// Composes a banded surface from its fields and its random draws.
///
/// Row `y` takes palette entry `band_phases[y] % palette.len()`; pixel
/// `(x, y)` adds to each channel of that entry the variation
/// `turbulence[k] + jitter(draws[k])`, with `k = y * width + x`, then clamps
/// and quantises. Alpha is always opaque.
pub fn compose_banded_surface(
    width: u32,
    height: u32,
    palette: &Vec<BandColor>,
    jitter_span: u16,
    band_phases: &Vec<usize>,
    turbulence: &Vec<i32>,
    draws: &Vec<u32>,
) -> (r: Result<PixelBuffer, TextureError>)
    ensures
        surface_params_invalid(width, height, palette@.len(), band_phases@.len(), turbulence@.len())
            || draws@.len() != width * height <==> r == Err::<PixelBuffer, TextureError>(
            TextureError::InvalidParameter,
        ),
        !surface_params_invalid(width, height, palette@.len(), band_phases@.len(), turbulence@.len())
            && draws@.len() == width * height && image_bytes(width, height) > max_buffer_bytes()
            <==> r == Err::<PixelBuffer, TextureError>(TextureError::AllocationFailure),
        !surface_params_invalid(width, height, palette@.len(), band_phases@.len(), turbulence@.len())
            && draws@.len() == width * height && image_bytes(width, height) <= max_buffer_bytes()
            <==> r is Ok,
        r matches Ok(img) ==> is_banded_surface(
            img@,
            width,
            height,
            palette@,
            jitter_span,
            band_phases@,
            turbulence@,
            draws@,
        ),
{
    assert(width * height <= u32::MAX * u32::MAX) by (nonlinear_arith)
        requires
            width <= u32::MAX,
            height <= u32::MAX,
    ;
    let pixels: u64 = width as u64 * height as u64;
    if width == 0 || height == 0 || palette.len() == 0 || band_phases.len() as u64 != height as u64
        || turbulence.len() as u64 != pixels || draws.len() as u64 != pixels {
        return Err(TextureError::InvalidParameter);
    }
    if pixels > (isize::MAX as u64) / 4 {
        return Err(TextureError::AllocationFailure);
    }
    let w = width as usize;
    let mut bytes: Vec<u8> = Vec::with_capacity((pixels * 4) as usize);
    let mut k: usize = 0;
    let mut y: u32 = 0;
    while y < height
        invariant
            0 < width,
            w == width,
            pixels == width * height,
            pixels <= isize::MAX as int / 4,
            palette@.len() > 0,
            band_phases@.len() == height,
            turbulence@.len() == pixels,
            draws@.len() == pixels,
            y <= height,
            k == y * width,
            bytes@.len() == 4 * k,
            all_opaque(bytes@, k as int),
            forall|xx: int, yy: int|
                0 <= xx < width && 0 <= yy < y ==> #[trigger] grid_pixel(bytes@, xx, yy, w as int)
                    == surface_pixel(
                    band_color(palette@, band_phases@[yy]),
                    pixel_variation(turbulence@, draws@, jitter_span, yy * width + xx),
                ),
        decreases height - y,
    {
        let c = palette[band_index(band_phases[y as usize], palette.len())];
        let mut x: u32 = 0;
        while x < width
            invariant
                0 < width,
                w == width,
                pixels == width * height,
                pixels <= isize::MAX as int / 4,
                palette@.len() > 0,
                band_phases@.len() == height,
                turbulence@.len() == pixels,
                draws@.len() == pixels,
                y < height,
                x <= width,
                c == band_color(palette@, band_phases@[y as int]),
                k == y * width + x,
                bytes@.len() == 4 * k,
                all_opaque(bytes@, k as int),
                forall|xx: int, yy: int|
                    0 <= xx < width && 0 <= yy && (yy < y || (yy == y && xx < x)) ==> #[trigger] grid_pixel(
                        bytes@,
                        xx,
                        yy,
                        w as int,
                    ) == surface_pixel(
                        band_color(palette@, band_phases@[yy]),
                        pixel_variation(turbulence@, draws@, jitter_span, yy * width + xx),
                    ),
            decreases width - x,
        {
            proof {
                lemma_row_major_before(x as int, y as int, 0, (y + 1) as int, width as int);
                assert((y + 1) * width <= height * width) by (nonlinear_arith)
                    requires
                        y < height,
                ;
            }
            let variation: i64 = turbulence[k] as i64 + jitter_from_draw(draws[k], jitter_span) as i64;
            let ghost old_bytes = bytes@;
            bytes.push(quantize_channel(c.r, variation));
            bytes.push(quantize_channel(c.g, variation));
            bytes.push(quantize_channel(c.b, variation));
            bytes.push(255);
            proof {
                assert(rgba_at(bytes@, k as int) == surface_pixel(c, variation as int));
                assert forall|j: int| 0 <= j < k + 1 implies (#[trigger] rgba_at(bytes@, j)).a
                    == 255 by {
                    if j < k {
                        assert(rgba_at(bytes@, j) == rgba_at(old_bytes, j));
                    }
                }
                assert forall|xx: int, yy: int|
                    0 <= xx < width && 0 <= yy && (yy < y || (yy == y && xx < x + 1)) implies #[trigger] grid_pixel(
                        bytes@,
                        xx,
                        yy,
                        w as int,
                    ) == surface_pixel(
                        band_color(palette@, band_phases@[yy]),
                        pixel_variation(turbulence@, draws@, jitter_span, yy * width + xx),
                    ) by {
                    if yy == y && xx == x {
                    } else {
                        lemma_row_major_before(xx, yy, x as int, y as int, width as int);
                        assert(grid_pixel(bytes@, xx, yy, w as int) == grid_pixel(
                            old_bytes,
                            xx,
                            yy,
                            w as int,
                        ));
                    }
                }
            }
            k = k + 1;
            x = x + 1;
        }
        proof {
            assert(y * width + width == (y + 1) * width) by (nonlinear_arith);
        }
        y = y + 1;
    }
    proof {
        assert(k == width * height) by (nonlinear_arith)
            requires
                k == y * width,
                y == height,
        ;
    }
    let image = PixelBuffer::from_rgba_bytes(width, height, bytes);
    Ok(image)
}

/// Generates a banded surface, jittered by the stream that `seed` gives.
///
/// The draws are taken one per pixel in row-major order, so the image is a
/// function of the seed and the other inputs (see `compose_banded_surface`).
pub fn generate_banded_surface(
    seed: u64,
    width: u32,
    height: u32,
    palette: &Vec<BandColor>,
    jitter_span: u16,
    band_phases: &Vec<usize>,
    turbulence: &Vec<i32>,
) -> (r: Result<PixelBuffer, TextureError>)
    ensures
        surface_params_invalid(width, height, palette@.len(), band_phases@.len(), turbulence@.len())
            <==> r == Err::<PixelBuffer, TextureError>(TextureError::InvalidParameter),
        !surface_params_invalid(width, height, palette@.len(), band_phases@.len(), turbulence@.len())
            && image_bytes(width, height) > max_buffer_bytes() <==> r == Err::<
            PixelBuffer,
            TextureError,
        >(TextureError::AllocationFailure),
        !surface_params_invalid(width, height, palette@.len(), band_phases@.len(), turbulence@.len())
            && image_bytes(width, height) <= max_buffer_bytes() <==> r is Ok,
        r matches Ok(img) ==> exists|draws: Seq<u32>|
            draws.len() == width * height && is_banded_surface(
                img@,
                width,
                height,
                palette@,
                jitter_span,
                band_phases@,
                turbulence@,
                draws,
            ),
{
    let draws = seeded_draws(seed, turbulence.len());
    let r = compose_banded_surface(
        width,
        height,
        palette,
        jitter_span,
        band_phases,
        turbulence,
        &draws,
    );
    assert(r is Ok ==> draws@.len() == width * height);
    r
}

/// Determinism: the inputs of a banded surface fix every byte of it. Two
/// images composed from the same dimensions, palette, jitter width, fields
/// and draws are equal.
pub proof fn lemma_banded_surface_unique(
    a: PixelImage,
    b: PixelImage,
    width: u32,
    height: u32,
    palette: Seq<BandColor>,
    jitter_span: u16,
    phases: Seq<usize>,
    turbulence: Seq<i32>,
    draws: Seq<u32>,
)
    requires
        is_banded_surface(a, width, height, palette, jitter_span, phases, turbulence, draws),
        is_banded_surface(b, width, height, palette, jitter_span, phases, turbulence, draws),
    ensures
        a == b,
{
    let w = width as int;
    let h = height as int;
    assert forall|i: int| 0 <= i < a.bytes.len() implies a.bytes[i] == b.bytes[i] by {
        let p = i / 4;
        let x = p % w;
        let y = p / w;
        assert(0 <= p < w * h && i == 4 * p + i % 4) by (nonlinear_arith)
            requires
                0 <= i < w * h * 4,
                p == i / 4,
        ;
        assert(0 <= x < w && 0 <= y < h && p == y * w + x) by (nonlinear_arith)
            requires
                0 <= p < w * h,
                w > 0,
                x == p % w,
                y == p / w,
        ;
        assert(a.pixel(x, y) == b.pixel(x, y));
    }
    assert(a.bytes =~= b.bytes);
}

/// Palette sensitivity: recolouring a palette entry that some row uses
/// changes that row's pixels wherever the change is visible, that is, where
/// one channel moves by at least one quantisation step and neither colour
/// is clamped under the pixel's variation.
pub proof fn lemma_palette_entry_visible(
    a: PixelImage,
    b: PixelImage,
    width: u32,
    height: u32,
    palette: Seq<BandColor>,
    index: int,
    recolor: BandColor,
    jitter_span: u16,
    phases: Seq<usize>,
    turbulence: Seq<i32>,
    draws: Seq<u32>,
    x: int,
    y: int,
)
    requires
        is_banded_surface(a, width, height, palette, jitter_span, phases, turbulence, draws),
        is_banded_surface(
            b,
            width,
            height,
            palette.update(index, recolor),
            jitter_span,
            phases,
            turbulence,
            draws,
        ),
        0 <= index < palette.len(),
        0 <= x < width,
        0 <= y < height,
        phases[y] as int % palette.len() as int == index,
        ({
            let v = pixel_variation(turbulence, draws, jitter_span, y * width + x);
            let old_c = palette[index];
            ||| channel_change_visible(old_c.r as int, recolor.r as int, v)
            ||| channel_change_visible(old_c.g as int, recolor.g as int, v)
            ||| channel_change_visible(old_c.b as int, recolor.b as int, v)
        }),
    ensures
        a.pixel(x, y) != b.pixel(x, y),
{
    let v = pixel_variation(turbulence, draws, jitter_span, y * width + x);
    let old_c = palette[index];
    assert(band_color(palette.update(index, recolor), phases[y]) == recolor);
    if channel_change_visible(old_c.r as int, recolor.r as int, v) {
        lemma_visible_change_quantizes_apart(old_c.r as int, recolor.r as int, v);
    } else if channel_change_visible(old_c.g as int, recolor.g as int, v) {
        lemma_visible_change_quantizes_apart(old_c.g as int, recolor.g as int, v);
    } else {
        lemma_visible_change_quantizes_apart(old_c.b as int, recolor.b as int, v);
    }
}

/// Moving a channel from `c0` to `c1` shows in the quantised byte: the two
/// differ by at least one step of `COLOR_ONE / 255`, and both stay within
/// `[0, COLOR_ONE]` once the variation is added.
pub open spec fn channel_change_visible(c0: int, c1: int, variation: int) -> bool {
    &&& 0 <= c0 + variation <= COLOR_ONE
    &&& 0 <= c1 + variation <= COLOR_ONE
    &&& (c1 - c0) * 255 >= COLOR_ONE || (c0 - c1) * 255 >= COLOR_ONE
}

proof fn lemma_visible_change_quantizes_apart(c0: int, c1: int, v: int)
    requires
        channel_change_visible(c0, c1, v),
    ensures
        quantize_spec(c0, v) != quantize_spec(c1, v),
{
    let a = c0 + v;
    let b = c1 + v;
    assert(a * 255 / 10000 != b * 255 / 10000) by (nonlinear_arith)
        requires
            0 <= a <= 10000,
            0 <= b <= 10000,
            (b - a) * 255 >= 10000 || (a - b) * 255 >= 10000,
    ;
}

} // verus!
