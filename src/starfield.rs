//! The starfield cubemap: six square faces stacked vertically in one RGBA
//! buffer, with stars placed by a hash of each pixel's direction.
//!
//! Hash values are fractions in `[0, 1)` written in units of `2^-24`, the
//! resolution of an `f32` just below 1, so the tier thresholds below are
//! exact.

use vstd::prelude::*;
use crate::buffer::{
    all_opaque, max_buffer_bytes, rgba_at, PixelBuffer, PixelImage, Rgba, TextureError,
};
use crate::cubemap::{
    face_direction, face_direction_spec, lemma_seam_continuity, pixel_on_face, seam_neighbour,
    IVec3, FACE_COUNT,
};

verus! {

/// One in hash units.
pub const HASH_ONE: u32 = 0x100_0000;

/// A coarse hash above this makes a bright star (0.9995).
pub const BRIGHT_THRESHOLD: u32 = 16768827;

/// A medium hash above this makes a medium star (0.9992).
pub const MEDIUM_THRESHOLD: u32 = 16763794;

/// A fine hash above this makes a dim star (0.9990).
pub const DIM_THRESHOLD: u32 = 16760439;

/// Lowest brightness and brightness range of each tier.
pub const BRIGHT_BASE: u32 = 100;
pub const BRIGHT_SPAN: u32 = 150;
pub const MEDIUM_BASE: u32 = 60;
pub const MEDIUM_SPAN: u32 = 100;
pub const DIM_BASE: u32 = 40;
pub const DIM_SPAN: u32 = 80;

/// Extra blue on a star, for a cool white tint.
pub const STAR_BLUE_BOOST: u8 = 15;

/// The background colour: near black with a faint blue bias.
pub const SPACE_RED: u8 = 1;
pub const SPACE_GREEN: u8 = 1;
pub const SPACE_BLUE: u8 = 3;

/// The three direction hashes of a pixel, one per spatial scale, as
/// fractions in units of `2^-24`.
#[derive(Clone, Copy, Debug, PartialEq, Eq, Structural)]
pub struct StarHashes {
    pub coarse: u32,
    pub medium: u32,
    pub fine: u32,
}

/// What a pixel of the sky shows: a star of some tier with its brightness,
/// or the background.
#[derive(Clone, Copy, Debug, PartialEq, Eq, Structural)]
pub enum StarClass {
    Bright(u8),
    Medium(u8),
    Dim(u8),
    Background,
}

/// Brightness within a tier: `base + span * (h - t) / (1 - t)`, saturated at
/// 255 as a cast to a byte would.
pub open spec fn tier_brightness(h: u32, threshold: u32, base: u32, span: u32) -> u8 {
    let level = (h - threshold) * span / (HASH_ONE - threshold) + base;
    if level > 255 {
        255
    } else {
        level as u8
    }
}

/// Tiers are checked in the order bright, medium, dim, each on its own hash;
/// the first that passes wins.
pub open spec fn star_class(h: StarHashes) -> StarClass {
    if h.coarse > BRIGHT_THRESHOLD {
        StarClass::Bright(tier_brightness(h.coarse, BRIGHT_THRESHOLD, BRIGHT_BASE, BRIGHT_SPAN))
    } else if h.medium > MEDIUM_THRESHOLD {
        StarClass::Medium(tier_brightness(h.medium, MEDIUM_THRESHOLD, MEDIUM_BASE, MEDIUM_SPAN))
    } else if h.fine > DIM_THRESHOLD {
        StarClass::Dim(tier_brightness(h.fine, DIM_THRESHOLD, DIM_BASE, DIM_SPAN))
    } else {
        StarClass::Background
    }
}

pub open spec fn saturating_add_u8(a: u8, b: u8) -> u8 {
    if a + b > 255 {
        255
    } else {
        (a + b) as u8
    }
}

/// A star of brightness `v` is `(v, v, v + 15)`; the background is `(1, 1, 3)`.
pub open spec fn star_rgba_spec(c: StarClass) -> Rgba {
    match c {
        StarClass::Bright(v) | StarClass::Medium(v) | StarClass::Dim(v) => Rgba {
            r: v,
            g: v,
            b: saturating_add_u8(v, STAR_BLUE_BOOST),
            a: 255,
        },
        StarClass::Background => Rgba { r: SPACE_RED, g: SPACE_GREEN, b: SPACE_BLUE, a: 255 },
    }
}

fn tier_level(h: u32, threshold: u32, base: u32, span: u32) -> (r: u8)
    requires
        h > threshold,
        threshold < HASH_ONE,
        span <= 255,
        base <= 255,
    ensures
        r == tier_brightness(h, threshold, base, span),
{
    let above: u64 = (h - threshold) as u64;
    assert(above * span <= 0xffff_ffff * 255) by (nonlinear_arith)
        requires
            above <= 0xffff_ffff,
            span <= 255,
    ;
    let scaled: u64 = above * span as u64 / (HASH_ONE - threshold) as u64;
    assert(scaled <= above * span) by (nonlinear_arith)
        requires
            scaled == above * span / (HASH_ONE - threshold) as int,
            HASH_ONE - threshold >= 1,
            above * span >= 0,
    ;
    let level: u64 = scaled + base as u64;
    if level > 255 {
        255
    } else {
        level as u8
    }
}

/// Classifies a pixel from its three hashes. A coarse hash above
/// `BRIGHT_THRESHOLD` always makes a bright star, whatever the other two are.
pub fn classify_star(h: StarHashes) -> (r: StarClass)
    ensures
        r == star_class(h),
        h.coarse > BRIGHT_THRESHOLD ==> r is Bright,
        h.coarse <= BRIGHT_THRESHOLD && h.medium > MEDIUM_THRESHOLD ==> r is Medium,
        h.coarse <= BRIGHT_THRESHOLD && h.medium <= MEDIUM_THRESHOLD && h.fine > DIM_THRESHOLD
            ==> r is Dim,
        h.coarse <= BRIGHT_THRESHOLD && h.medium <= MEDIUM_THRESHOLD && h.fine <= DIM_THRESHOLD
            ==> r is Background,
{
    if h.coarse > BRIGHT_THRESHOLD {
        StarClass::Bright(tier_level(h.coarse, BRIGHT_THRESHOLD, BRIGHT_BASE, BRIGHT_SPAN))
    } else if h.medium > MEDIUM_THRESHOLD {
        StarClass::Medium(tier_level(h.medium, MEDIUM_THRESHOLD, MEDIUM_BASE, MEDIUM_SPAN))
    } else if h.fine > DIM_THRESHOLD {
        StarClass::Dim(tier_level(h.fine, DIM_THRESHOLD, DIM_BASE, DIM_SPAN))
    } else {
        StarClass::Background
    }
}

/// The colour of a classified pixel.
pub fn star_rgba(c: StarClass) -> (r: Rgba)
    ensures
        r == star_rgba_spec(c),
{
    match c {
        StarClass::Bright(v) | StarClass::Medium(v) | StarClass::Dim(v) => Rgba {
            r: v,
            g: v,
            b: v.saturating_add(STAR_BLUE_BOOST),
            a: 255,
        },
        StarClass::Background => Rgba { r: SPACE_RED, g: SPACE_GREEN, b: SPACE_BLUE, a: 255 },
    }
}

/// How the faces are arranged in the buffer: one below the other, face 0
/// at the top.
#[derive(Clone, Copy, Debug, PartialEq, Eq, Structural)]
pub enum FaceStacking {
    Vertical,
}

/// How the consumer is to present the buffer: as an array of six layers
/// viewed as a cube.
#[derive(Clone, Copy, Debug, PartialEq, Eq, Structural)]
pub enum TargetView {
    CubeArray,
}

/// Tells the consumer how to reinterpret a `face_size` by `face_size * 6`
/// buffer as the six faces of a cube.
#[derive(Clone, Copy, Debug, PartialEq, Eq, Structural)]
pub struct CubemapLayout {
    pub face_size: u32,
    pub face_count: u32,
    pub stacking: FaceStacking,
    pub target_view: TargetView,
}

/// A generated starfield: the stacked faces and their layout.
pub struct Starfield {
    pub image: PixelBuffer,
    pub layout: CubemapLayout,
}

/// Bytes of a cubemap with faces of size `n`.
pub open spec fn cubemap_bytes(n: int) -> int {
    6 * n * n * 4
}

/// Pixel `(x, y)` of face `face` in a vertically stacked cubemap.
pub open spec fn cube_pixel(bytes: Seq<u8>, face: int, x: int, y: int, n: int) -> Rgba {
    rgba_at(bytes, (face * n + y) * n + x)
}

/// `px` is what the sky shows at pixel `(x, y)` of `face`: the colour of the
/// class of some hash that `sample` returns for that pixel's direction.
pub open spec fn is_sky_pixel<F: Fn(IVec3) -> StarHashes>(
    sample: F,
    face: int,
    x: int,
    y: int,
    n: int,
    px: Rgba,
) -> bool {
    exists|d: IVec3, h: StarHashes|
        d@ == face_direction_spec(face, x, y, n) && sample.ensures((d,), h) && px
            == star_rgba_spec(star_class(h))
}

/// Renders the starfield cubemap for faces of `face_size` pixels.
///
/// Faces come in the order +X, -X, +Y, -Y, +Z, -Z, stacked from the top.
/// Each pixel shows the class of the hashes that `sample` gives for the
/// direction the pixel looks along (see `face_direction`); since that
/// direction is shared by the pixels of neighbouring faces on an edge, the
/// faces meet without a seam. The stars depend on direction alone: the seed is
/// accepted so that both generators take one, and does not change the sky.
pub fn generate_starfield<F: Fn(IVec3) -> StarHashes>(_seed: u64, face_size: u32, sample: F) -> (r:
    Result<Starfield, TextureError>)
    requires
        forall|d: IVec3| sample.requires((d,)),
    ensures
        face_size == 0 ==> r == Err::<Starfield, TextureError>(TextureError::InvalidParameter),
        face_size > 0 && cubemap_bytes(face_size as int) > max_buffer_bytes() ==> r == Err::<
            Starfield,
            TextureError,
        >(TextureError::AllocationFailure),
        face_size > 0 && cubemap_bytes(face_size as int) <= max_buffer_bytes() <==> r is Ok,
        r matches Ok(s) ==> {
            let n = face_size as int;
            &&& s.layout == (CubemapLayout {
                face_size,
                face_count: FACE_COUNT,
                stacking: FaceStacking::Vertical,
                target_view: TargetView::CubeArray,
            })
            &&& s.image@.width == n
            &&& s.image@.height == 6 * n
            &&& s.image@.wf()
            &&& is_starfield_of(sample, s.image@, n)
        },
{
    let n = face_size;
    if n == 0 {
        return Err(TextureError::InvalidParameter);
    }
    assert(n * n <= u32::MAX * u32::MAX) by (nonlinear_arith)
        requires
            n <= u32::MAX,
    ;
    let pixels: u64 = n as u64 * n as u64;
    assert(cubemap_bytes(n as int) == 24 * pixels) by (nonlinear_arith)
        requires
            pixels == n * n,
    ;
    if pixels > (isize::MAX as u64) / 24 {
        return Err(TextureError::AllocationFailure);
    }
    proof {
        assert(6 * n <= u32::MAX) by (nonlinear_arith)
            requires
                pixels == n * n,
                pixels <= 0x7fff_ffff_ffff_ffffint / 24,
        ;
    }
    let mut bytes: Vec<u8> = Vec::with_capacity((pixels * 24) as usize);
    let mut face: u32 = 0;
    while face < FACE_COUNT
        invariant
            0 < n,
            pixels == n * n,
            6 * n <= u32::MAX,
            forall|d: IVec3| sample.requires((d,)),
            face <= 6,
            bytes@.len() == 4 * (face * n * n),
            all_opaque(bytes@, face * n * n),
            forall|f: int, x: int, y: int|
                0 <= f < face && 0 <= x < n && 0 <= y < n ==> is_sky_pixel(
                    sample,
                    f,
                    x,
                    y,
                    n as int,
                    #[trigger] cube_pixel(bytes@, f, x, y, n as int),
                ),
        decreases 6 - face,
    {
        let mut y: u32 = 0;
        while y < n
            invariant
                0 < n,
                pixels == n * n,
                6 * n <= u32::MAX,
                forall|d: IVec3| sample.requires((d,)),
                face < 6,
                y <= n,
                bytes@.len() == 4 * ((face * n + y) * n),
                all_opaque(bytes@, (face * n + y) * n),
                forall|f: int, x: int, yy: int|
                    0 <= x < n && 0 <= yy < n && (0 <= f < face || (f == face && yy < y))
                        ==> is_sky_pixel(
                        sample,
                        f,
                        x,
                        yy,
                        n as int,
                        #[trigger] cube_pixel(bytes@, f, x, yy, n as int),
                    ),
            decreases n - y,
        {
            let mut x: u32 = 0;
            while x < n
                invariant
                    0 < n,
                    6 * n <= u32::MAX,
                    forall|d: IVec3| sample.requires((d,)),
                    face < 6,
                    y < n,
                    x <= n,
                    bytes@.len() == 4 * ((face * n + y) * n + x),
                    all_opaque(bytes@, (face * n + y) * n + x),
                    forall|f: int, xx: int, yy: int|
                        0 <= xx < n && 0 <= yy < n && (0 <= f < face || (f == face && yy < y) || (f
                            == face && yy == y && xx < x)) ==> is_sky_pixel(
                            sample,
                            f,
                            xx,
                            yy,
                            n as int,
                            #[trigger] cube_pixel(bytes@, f, xx, yy, n as int),
                        ),
                decreases n - x,
            {
                let d = face_direction(face, x, y, n);
                let h = sample(d);
                let px = star_rgba(classify_star(h));
                let ghost old_bytes = bytes@;
                let ghost k = (face * n + y) * n + x;
                bytes.push(px.r);
                bytes.push(px.g);
                bytes.push(px.b);
                bytes.push(px.a);
                proof {
                    assert(rgba_at(bytes@, k) == px);
                    assert(px.a == 255);
                    assert forall|j: int| 0 <= j < k + 1 implies (#[trigger] rgba_at(bytes@, j)).a
                        == 255 by {
                        if j < k {
                            assert(rgba_at(bytes@, j) == rgba_at(old_bytes, j));
                        }
                    }
                    assert forall|j: int| 0 <= j < k implies rgba_at(bytes@, j) == rgba_at(
                        old_bytes,
                        j,
                    ) by {}
                    assert forall|f: int, xx: int, yy: int|
                        0 <= xx < n && 0 <= yy < n && (0 <= f < face || (f == face && yy < y) || (f
                            == face && yy == y && xx < x + 1)) implies is_sky_pixel(
                        sample,
                        f,
                        xx,
                        yy,
                        n as int,
                        #[trigger] cube_pixel(bytes@, f, xx, yy, n as int),
                    ) by {
                        if f == face && yy == y && xx == x {
                            assert(is_sky_pixel(sample, f, xx, yy, n as int, px));
                        } else {
                            lemma_index_before(f, xx, yy, face as int, x as int, y as int, n as int);
                            assert(cube_pixel(bytes@, f, xx, yy, n as int) == cube_pixel(
                                old_bytes,
                                f,
                                xx,
                                yy,
                                n as int,
                            ));
                        }
                    }
                }
                x = x + 1;
            }
            proof {
                assert((face * n + y) * n + n == (face * n + (y + 1)) * n) by (nonlinear_arith);
            }
            y = y + 1;
        }
        proof {
            assert((face * n + n) * n == (face + 1) * n * n) by (nonlinear_arith);
        }
        face = face + 1;
    }
    proof {
        assert(6 * n * n == n * (6 * n)) by (nonlinear_arith);
    }
    let image = PixelBuffer::from_rgba_bytes(n, 6 * n, bytes);
    let layout = CubemapLayout {
        face_size: n,
        face_count: FACE_COUNT,
        stacking: FaceStacking::Vertical,
        target_view: TargetView::CubeArray,
    };
    proof {
        assert forall|f: int, x: int, y: int|
            0 <= f < 6 && 0 <= x < n && 0 <= y < n implies is_sky_pixel(
            sample,
            f,
            x,
            y,
            n as int,
            #[trigger] image@.pixel(x, f * n + y),
        ) by {
            assert(image@.pixel(x, f * n + y) == cube_pixel(bytes@, f, x, y, n as int));
        }
    }
    Ok(Starfield { image, layout })
}

/// Pixels visited before `(x, y)` of `face` have smaller flat indices.
proof fn lemma_index_before(f: int, xx: int, yy: int, face: int, x: int, y: int, n: int)
    requires
        0 <= xx < n,
        0 <= yy < n,
        0 <= x < n,
        0 <= y < n,
        0 <= f,
        f < face || (f == face && yy < y) || (f == face && yy == y && xx < x),
    ensures
        0 <= (f * n + yy) * n + xx < (face * n + y) * n + x,
{
    assert(0 <= (f * n + yy) * n + xx < (face * n + y) * n + x) by (nonlinear_arith)
        requires
            0 <= xx < n,
            0 <= yy < n,
            0 <= x < n,
            0 <= y < n,
            0 <= f,
            f < face || (f == face && yy < y) || (f == face && yy == y && xx < x),
    ;
}

/// `image` shows, at every pixel of every face, the sky that `sample` gives.
pub open spec fn is_starfield_of<F: Fn(IVec3) -> StarHashes>(sample: F, image: PixelImage, n: int) -> bool {
    forall|face: int, x: int, y: int|
        0 <= face < 6 && 0 <= x < n && 0 <= y < n ==> is_sky_pixel(
            sample,
            face,
            x,
            y,
            n,
            #[trigger] image.pixel(x, face * n + y),
        )
}

/// `sample` gives one hash for each direction.
pub open spec fn is_deterministic<F: Fn(IVec3) -> StarHashes>(sample: F) -> bool {
    forall|d: IVec3, h1: StarHashes, h2: StarHashes|
        sample.ensures((d,), h1) && sample.ensures((d,), h2) ==> h1 == h2
}

/// No seam in the sky: when the hashes depend on direction alone, each edge
/// pixel of a face has the same colour as the pixel of the neighbouring face
/// that looks the same way.
pub proof fn lemma_starfield_seamless<F: Fn(IVec3) -> StarHashes>(
    sample: F,
    image: PixelImage,
    n: int,
    face: int,
    x: int,
    y: int,
)
    requires
        is_starfield_of(sample, image, n),
        is_deterministic(sample),
        n >= 2,
        0 <= face < 6,
        0 <= x < n,
        0 <= y < n,
        x == 0 || x == n - 1 || y == 0 || y == n - 1,
    ensures
        ({
            let b = seam_neighbour(face, x, y, n);
            let p = pixel_on_face(b, face_direction_spec(face, x, y, n), n);
            &&& b != face
            &&& 0 <= p.0 < n
            &&& 0 <= p.1 < n
            &&& image.pixel(p.0, b * n + p.1) == image.pixel(x, face * n + y)
        }),
{
    lemma_seam_continuity(face, x, y, n);
    let b = seam_neighbour(face, x, y, n);
    let p = pixel_on_face(b, face_direction_spec(face, x, y, n), n);
    let px1 = image.pixel(x, face * n + y);
    let px2 = image.pixel(p.0, b * n + p.1);
    assert(is_sky_pixel(sample, face, x, y, n, px1));
    assert(is_sky_pixel(sample, b, p.0, p.1, n, px2));
    let (d1, h1) = choose|d: IVec3, h: StarHashes|
        d@ == face_direction_spec(face, x, y, n) && sample.ensures((d,), h) && px1
            == star_rgba_spec(star_class(h));
    let (d2, h2) = choose|d: IVec3, h: StarHashes|
        d@ == face_direction_spec(b, p.0, p.1, n) && sample.ensures((d,), h) && px2
            == star_rgba_spec(star_class(h));
    assert(d1 == d2);
    assert(h1 == h2);
}

} // verus!
