//! The RGBA pixel buffer that every generator hands back, and the errors a
//! generator can report.

use vstd::prelude::*;

verus! {

/// Bytes per pixel: red, green, blue, alpha.
pub const CHANNELS: u32 = 4;

/// Fully opaque alpha.
pub const OPAQUE: u8 = 255;

/// Why a generator refused its parameters.
#[derive(Clone, Copy, Debug, PartialEq, Eq, Structural)]
pub enum TextureError {
    /// A zero dimension, an empty palette, or inputs whose lengths do not
    /// match the requested dimensions.
    InvalidParameter,
    /// The buffer would exceed the largest allocation a `Vec` can make.
    AllocationFailure,
}

/// One pixel.
#[derive(Clone, Copy, Debug, PartialEq, Eq, Structural)]
pub struct Rgba {
    pub r: u8,
    pub g: u8,
    pub b: u8,
    pub a: u8,
}

/// The pixel stored at flat index `k` of a row-major RGBA byte sequence.
pub open spec fn rgba_at(bytes: Seq<u8>, k: int) -> Rgba {
    Rgba { r: bytes[4 * k], g: bytes[4 * k + 1], b: bytes[4 * k + 2], a: bytes[4 * k + 3] }
}

/// The pixel in column `x` of row `y` of a row-major image `width` pixels wide.
pub open spec fn grid_pixel(bytes: Seq<u8>, x: int, y: int, width: int) -> Rgba {
    rgba_at(bytes, y * width + x)
}

/// Every pixel among the first `count` is opaque.
pub open spec fn all_opaque(bytes: Seq<u8>, count: int) -> bool {
    forall|k: int| 0 <= k < count ==> (#[trigger] rgba_at(bytes, k)).a == OPAQUE
}

/// The largest byte count a buffer may have: a `Vec` holds at most
/// `isize::MAX` bytes.
pub open spec fn max_buffer_bytes() -> nat {
    isize::MAX as nat
}

/// The mathematical content of a pixel buffer.
pub struct PixelImage {
    pub width: nat,
    pub height: nat,
    pub bytes: Seq<u8>,
}

impl PixelImage {
    /// Shape and alpha invariant: four bytes for each pixel, every alpha opaque.
    pub open spec fn wf(self) -> bool {
        &&& self.bytes.len() == self.width * self.height * 4
        &&& all_opaque(self.bytes, (self.width * self.height) as int)
    }

    /// The pixel in column `x` of row `y` (row 0 at the top).
    pub open spec fn pixel(self, x: int, y: int) -> Rgba {
        grid_pixel(self.bytes, x, y, self.width as int)
    }
}

/// A row-major RGBA image with its origin at the top left.
pub struct PixelBuffer {
    width: u32,
    height: u32,
    bytes: Vec<u8>,
}

impl View for PixelBuffer {
    type V = PixelImage;

    closed spec fn view(&self) -> PixelImage {
        PixelImage { width: self.width as nat, height: self.height as nat, bytes: self.bytes@ }
    }
}

impl PixelBuffer {
    #[verifier::type_invariant]
    spec fn inv(self) -> bool {
        self@.wf()
    }

    /// Wraps bytes that already hold `width * height` opaque pixels.
    pub(crate) fn from_rgba_bytes(width: u32, height: u32, bytes: Vec<u8>) -> (r: PixelBuffer)
        requires
            bytes@.len() == width * height * 4,
            all_opaque(bytes@, width * height as int),
        ensures
            r@ == (PixelImage { width: width as nat, height: height as nat, bytes: bytes@ }),
    {
        PixelBuffer { width, height, bytes }
    }

    pub fn width(&self) -> (r: u32)
        ensures
            r == self@.width,
    {
        self.width
    }

    pub fn height(&self) -> (r: u32)
        ensures
            r == self@.height,
    {
        self.height
    }

    /// Always `CHANNELS`.
    pub fn channels(&self) -> (r: u32)
        ensures
            r == 4,
    {
        CHANNELS
    }

    /// The raw bytes, row-major, four per pixel.
    pub fn bytes(&self) -> (r: &Vec<u8>)
        ensures
            r@ == self@.bytes,
            r@.len() == self@.width * self@.height * 4,
    {
        proof {
            use_type_invariant(self);
        }
        &self.bytes
    }

    /// Gives up the buffer's bytes.
    pub fn into_bytes(self) -> (r: Vec<u8>)
        ensures
            r@ == self@.bytes,
            r@.len() == self@.width * self@.height * 4,
    {
        proof {
            use_type_invariant(&self);
        }
        self.bytes
    }

    /// The pixel in column `x` of row `y`.
    pub fn pixel(&self, x: u32, y: u32) -> (r: Rgba)
        requires
            x < self@.width,
            y < self@.height,
        ensures
            r == self@.pixel(x as int, y as int),
    {
        let _len = self.bytes.len();
        proof {
            use_type_invariant(self);
            lemma_pixel_in_bounds(x as int, y as int, self@.width as int, self@.height as int);
        }
        let k = y as usize * self.width as usize + x as usize;
        Rgba {
            r: self.bytes[4 * k],
            g: self.bytes[4 * k + 1],
            b: self.bytes[4 * k + 2],
            a: self.bytes[4 * k + 3],
        }
    }
}

/// Pixel `(x, y)` of a `w` by `h` image has a flat index below `w * h`.
pub proof fn lemma_pixel_in_bounds(x: int, y: int, w: int, h: int)
    requires
        0 <= x < w,
        0 <= y < h,
    ensures
        0 <= y * w + x < w * h,
        4 * (y * w + x) + 3 < 4 * (w * h),
{
    assert(y * w + x < w * h) by (nonlinear_arith)
        requires
            0 <= x < w,
            0 <= y < h,
    ;
    assert(0 <= y * w) by (nonlinear_arith)
        requires
            0 <= x < w,
            0 <= y < h,
    ;
}

/// In row-major order, a pixel of an earlier row, or earlier in the same
/// row, has a smaller flat index.
pub proof fn lemma_row_major_before(xx: int, yy: int, x: int, y: int, w: int)
    requires
        0 <= xx < w,
        0 <= x < w,
        0 <= yy,
        yy < y || (yy == y && xx < x),
    ensures
        0 <= yy * w + xx < y * w + x,
{
    assert(0 <= yy * w + xx < y * w + x) by (nonlinear_arith)
        requires
            0 <= xx < w,
            0 <= x < w,
            0 <= yy,
            yy < y || (yy == y && xx < x),
    ;
}

} // verus!
