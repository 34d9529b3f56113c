//! Rasterization: a QR module grid is upscaled into a square grayscale
//! pixel buffer (dark module = 0, light module = 255, no quiet zone), then
//! serialized as PNG container bytes.

use vstd::prelude::*;
use vstd::arithmetic::div_mod::{
    lemma_div_pos_is_pos, lemma_fundamental_div_mod, lemma_fundamental_div_mod_converse,
    lemma_mod_pos_bound, lemma_multiply_divide_lt,
};

use crate::symbol::QrSymbol;

verus! {

/// Side length in pixels of each module's block: the smallest scale at
/// which `width` modules cover at least `size` pixels.
pub open spec fn module_px(width: int, size: u32) -> int {
    (size + width - 1) / width
}

/// Side length in pixels of the raster: the module count times the block
/// size. It is never below `size` and never below `width`.
pub open spec fn raster_side(width: int, size: u32) -> int {
    width * module_px(width, size)
}

/// Value of the raster pixel at flat index `i`: 0 where the module under it
/// is dark, 255 where it is light. `n` is the block size and `side` the
/// raster's side length.
pub open spec fn pixel_value(modules: Seq<bool>, width: int, n: int, side: int, i: int) -> u8 {
    if modules[((i / side) / n) * width + ((i % side) / n)] {
        0u8
    } else {
        255u8
    }
}

/// The raster's pixels, row-major, as a function of the module grid and the
/// requested size.
pub open spec fn raster_pixels(modules: Seq<bool>, width: int, size: u32) -> Seq<u8> {
    let n = module_px(width, size);
    let side = raster_side(width, size);
    Seq::new((side * side) as nat, |i: int| pixel_value(modules, width, n, side, i))
}

/// A square grayscale image: one byte per pixel, 0 dark, 255 light,
/// `side * side` pixels stored row-major.
pub struct RasterImage {
    /// The pixel bytes, row-major.
    pub pixels: Vec<u8>,
    /// Side length in pixels; the image is always square.
    pub side: u32,
}

impl RasterImage {
    /// The buffer holds exactly one byte per pixel.
    pub open spec fn wf(&self) -> bool {
        self.pixels@.len() == self.side * self.side
    }
}

/// The block size covers the requested size: `width` blocks of
/// `module_px(width, size)` pixels span at least `size` pixels, and fewer
/// than `size + width`.
pub proof fn lemma_raster_side_bounds(width: int, size: u32)
    requires
        1 <= width,
        1 <= size,
    ensures
        1 <= module_px(width, size),
        size <= raster_side(width, size) < size + width,
{
    let x = size + width - 1;
    lemma_fundamental_div_mod(x, width);
    lemma_mod_pos_bound(x, width);
    assert(width * (x / width) == x - x % width);
    assert(x - x % width >= x - (width - 1));
    assert(module_px(width, size) >= 1) by (nonlinear_arith)
        requires
            width >= 1,
            width * module_px(width, size) >= size as int,
            size >= 1,
    ;
}

impl QrSymbol {
    /// Renders the module grid to a grayscale raster of at least
    /// `size × size` pixels: each module becomes an `n × n` block of pixels,
    /// where `n` is the smallest integer with `n * width >= size`; dark
    /// modules map to 0 and light modules to 255, with no quiet-zone
    /// padding, so the output is exactly `width * n` pixels on each side.
    pub fn rasterize(&self, size: u32) -> (r: RasterImage)
        requires
            self.wf(),
            50 <= size <= 2000,
        ensures
            r.side as int == raster_side(self.width as int, size),
            r.side >= size,
            r.pixels@ == raster_pixels(self.modules@, self.width as int, size),
            r.wf(),
    {
        let w: usize = self.width;
        proof {
            lemma_raster_side_bounds(w as int, size);
        }
        let n: usize = (size as usize + w - 1) / w;
        let side: usize = w * n;
        let ghost gpix = raster_pixels(self.modules@, w as int, size);
        let mut pixels: Vec<u8> = Vec::new();
        let mut y: usize = 0;
        while y < side
            invariant
                self.wf(),
                w == self.width,
                50 <= size <= 2000,
                1 <= n,
                n as int == module_px(w as int, size),
                side == w * n,
                size <= side < size + w,
                y <= side,
                pixels@.len() == y * side,
                forall|k: int|
                    0 <= k < pixels@.len() ==> pixels@[k] == pixel_value(
                        self.modules@,
                        w as int,
                        n as int,
                        side as int,
                        k,
                    ),
            decreases side - y,
        {
            let mut x: usize = 0;
            while x < side
                invariant
                    self.wf(),
                    w == self.width,
                    50 <= size <= 2000,
                    1 <= n,
                    n as int == module_px(w as int, size),
                    side == w * n,
                    size <= side < size + w,
                    y < side,
                    x <= side,
                    pixels@.len() == y * side + x,
                    forall|k: int|
                        0 <= k < pixels@.len() ==> pixels@[k] == pixel_value(
                            self.modules@,
                            w as int,
                            n as int,
                            side as int,
                            k,
                        ),
                decreases side - x,
            {
                proof {
                    let wi = w as int;
                    let yd = y as int / n as int;
                    let xd = x as int / n as int;
                    lemma_multiply_divide_lt(y as int, n as int, wi);
                    lemma_multiply_divide_lt(x as int, n as int, wi);
                    lemma_div_pos_is_pos(y as int, n as int);
                    lemma_div_pos_is_pos(x as int, n as int);
                    assert(yd * wi + xd < wi * wi && wi * wi <= 31329) by (nonlinear_arith)
                        requires
                            0 <= yd < wi,
                            0 <= xd < wi,
                            1 <= wi <= 177,
                    ;
                }
                let idx: usize = (y / n) * w + x / n;
                let v: u8 = if self.modules[idx] {
                    0
                } else {
                    255
                };
                pixels.push(v);
                proof {
                    let k = y as int * side as int + x as int;
                    lemma_fundamental_div_mod_converse(k, side as int, y as int, x as int);
                    assert(pixels@[k] == pixel_value(
                        self.modules@,
                        w as int,
                        n as int,
                        side as int,
                        k,
                    ));
                }
                x += 1;
            }
            proof {
                assert((y as int + 1) * side as int == y as int * side as int + side as int)
                    by (nonlinear_arith);
            }
            y += 1;
        }
        proof {
            assert(pixels@ =~= gpix);
        }
        RasterImage { pixels, side: side as u32 }
    }
}

/// What the PNG serializer yields for a square grayscale raster: the PNG
/// container bytes on success, the serializer's diagnostic message on
/// failure.
pub uninterp spec fn png_of(side: nat, pixels: Seq<u8>) -> Result<Seq<u8>, Seq<char>>;

/// Relies on `image::ImageBuffer::from_raw`, which wraps a buffer of exactly
/// `side * side` bytes as a grayscale image of those dimensions, and on
/// `image::ImageBuffer::write_to` with `image::ImageFormat::Png`, whose
/// output bytes (or error display message) are a function of the dimensions
/// and pixel contents alone.
#[verifier::external_body]
pub(crate) fn encode_png(side: u32, pixels: Vec<u8>) -> (r: Result<Vec<u8>, String>)
    requires
        pixels@.len() == side * side,
    ensures
        r matches Ok(b) ==> png_of(side as nat, pixels@) matches Ok(bs) && b@ == bs,
        r matches Err(e) ==> png_of(side as nat, pixels@) matches Err(m) && e@ == m,
{
    let img = match image::GrayImage::from_raw(side, side, pixels) {
        Some(i) => i,
        None => return Err("image buffer construction failed".to_string()),
    };
    let mut cursor = std::io::Cursor::new(Vec::new());
    match img.write_to(&mut cursor, image::ImageFormat::Png) {
        Ok(()) => Ok(cursor.into_inner()),
        Err(e) => Err(format!("{e}")),
    }
}

} // verus!
