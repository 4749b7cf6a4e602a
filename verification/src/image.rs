//! The reference image: what the accounts are trying to paint, as palette
//! indices in row-major order from the top-left corner.

use crate::palette::{in_palette, palette_index, quantize, PALETTE_SIZE};
use vstd::prelude::*;

verus! {

/// `bmp::Image`, a decoded bitmap. Nothing inside it is visible here; what
/// it holds is known by `bmp_size` and `bmp_pixels`.
#[verifier::external_type_specification]
#[verifier::external_body]
pub struct ExBitmap(bmp::Image);

/// The pixels of a decoded bitmap as (red, green, blue), row after row from
/// the top, each row from the left.
pub uninterp spec fn bmp_pixels(img: bmp::Image) -> Seq<(u8, u8, u8)>;

/// The (width, height) of a decoded bitmap.
pub uninterp spec fn bmp_size(img: bmp::Image) -> (u32, u32);

/// Calls `bmp::Image::get_width`, which returns the width the bitmap was
/// made or decoded with.
#[verifier::external_body]
fn bitmap_width(img: &bmp::Image) -> (w: u32)
    ensures
        w == bmp_size(*img).0,
{
    img.get_width()
}

/// Calls `bmp::Image::get_height`, which returns the height the bitmap was
/// made or decoded with.
#[verifier::external_body]
fn bitmap_height(img: &bmp::Image) -> (h: u32)
    ensures
        h == bmp_size(*img).1,
{
    img.get_height()
}

/// Calls `bmp::Image::get_pixel`, which returns the pixel in column `x` of
/// row `y`, rows counted from the top. The call indexes the pixel buffer and
/// computes the index in 32 bits, so the coordinate has to lie inside the
/// bitmap and the pixel count has to fit in a `u32`.
#[verifier::external_body]
fn bitmap_pixel(img: &bmp::Image, x: u32, y: u32) -> (c: (u8, u8, u8))
    requires
        x < bmp_size(*img).0,
        y < bmp_size(*img).1,
        bmp_size(*img).0 * bmp_size(*img).1 <= u32::MAX,
    ensures
        c == bmp_pixels(*img)[y * bmp_size(*img).0 + x],
{
    let p = img.get_pixel(x, y);
    (p.r, p.g, p.b)
}

/// Why a reference image could not be built.
#[derive(Clone, Copy, Debug, PartialEq, Eq)]
pub enum ImageError {
    /// Width times height does not fit in 32 bits.
    TooManyPixels,
    /// The number of palette indices is not width times height.
    LengthMismatch,
    /// Some palette index is 16 or more.
    ColorOutOfRange,
}

/// A reference image. Never changed once built, so any number of accounts
/// may read one image at a time.
#[derive(Clone, Debug)]
pub struct ReferenceImage {
    width: u32,
    height: u32,
    palette_indices: Vec<u8>,
}

/// Position of pixel (`x`, `y`) in a row-major sequence of rows `width` long.
pub open spec fn flat_index(width: int, x: int, y: int) -> int {
    y * width + x
}

/// Whether every entry of `s` is a palette index.
pub open spec fn all_palette_indices(s: Seq<u8>) -> bool {
    forall|k: int| 0 <= k < s.len() ==> #[trigger] s[k] < PALETTE_SIZE
}

/// What is wrong with the parts of an image, if anything: the first of too
/// many pixels, a number of indices that is not the number of pixels, and
/// an index that is no palette index.
pub open spec fn image_fault(width: int, height: int, indices: Seq<u8>) -> Option<ImageError> {
    if width * height > u32::MAX {
        Some(ImageError::TooManyPixels)
    } else if indices.len() != width * height {
        Some(ImageError::LengthMismatch)
    } else if !all_palette_indices(indices) {
        Some(ImageError::ColorOutOfRange)
    } else {
        None
    }
}

/// Inside a `width` by `height` grid, the flat index of a pixel is inside
/// the sequence of `width * height` entries.
pub proof fn flat_index_in_bounds(width: int, height: int, x: int, y: int)
    requires
        0 <= x < width,
        0 <= y < height,
    ensures
        0 <= flat_index(width, x, y) < width * height,
{
    assert(y * width >= 0) by (nonlinear_arith)
        requires
            y >= 0,
            width >= 0,
    ;
    assert(y * width + width <= height * width) by (nonlinear_arith)
        requires
            y + 1 <= height,
            width >= 0,
    ;
    assert(height * width == width * height) by (nonlinear_arith);
}

/// The product of two 32-bit numbers fits in 64 bits.
proof fn product_fits(a: u32, b: u32)
    ensures
        0 <= a * b <= u64::MAX,
{
    assert(0 <= a * b <= 0xffff_ffff * 0xffff_ffff) by (nonlinear_arith)
        requires
            0 <= a <= 0xffff_ffff,
            0 <= b <= 0xffff_ffff,
    ;
}

impl ReferenceImage {
    /// Width in pixels.
    pub closed spec fn spec_width(&self) -> u32 {
        self.width
    }

    /// Height in pixels.
    pub closed spec fn spec_height(&self) -> u32 {
        self.height
    }

    /// The palette indices, row after row.
    pub closed spec fn spec_indices(&self) -> Seq<u8> {
        self.palette_indices@
    }

    /// The invariant: one palette index for each pixel.
    pub open spec fn wf(&self) -> bool {
        &&& self.spec_indices().len() == self.spec_width() * self.spec_height()
        &&& self.spec_width() * self.spec_height() <= u32::MAX
        &&& all_palette_indices(self.spec_indices())
    }

    /// The palette index wanted at pixel (`x`, `y`).
    pub open spec fn spec_desired(&self, x: int, y: int) -> u8 {
        self.spec_indices()[flat_index(self.spec_width() as int, x, y)]
    }

    /// Builds an image from its dimensions and its palette indices in
    /// row-major order.
    pub fn new(width: u32, height: u32, palette_indices: Vec<u8>) -> (r: Result<
        ReferenceImage,
        ImageError,
    >)
        ensures
            match image_fault(width as int, height as int, palette_indices@) {
                Some(fault) => r == Err::<ReferenceImage, ImageError>(fault),
                None => r matches Ok(image) && image.wf() && image.spec_width() == width
                    && image.spec_height() == height && image.spec_indices() == palette_indices@,
            },
    {
        proof {
            product_fits(width, height);
        }
        let count: u64 = (width as u64) * (height as u64);
        if count > u32::MAX as u64 {
            return Err(ImageError::TooManyPixels);
        }
        if palette_indices.len() as u64 != count {
            return Err(ImageError::LengthMismatch);
        }
        let mut k: usize = 0;
        while k < palette_indices.len()
            invariant
                k <= palette_indices.len(),
                width * height <= u32::MAX,
                palette_indices@.len() == width * height,
                forall|j: int| 0 <= j < k ==> #[trigger] palette_indices@[j] < PALETTE_SIZE,
            decreases palette_indices.len() - k,
        {
            if palette_indices[k] >= PALETTE_SIZE {
                return Err(ImageError::ColorOutOfRange);
            }
            k = k + 1;
        }
        Ok(ReferenceImage { width, height, palette_indices })
    }

    /// Width in pixels.
    pub fn width(&self) -> (w: u32)
        ensures
            w == self.spec_width(),
    {
        self.width
    }

    /// Height in pixels.
    pub fn height(&self) -> (h: u32)
        ensures
            h == self.spec_height(),
    {
        self.height
    }

    /// The palette indices, row after row.
    pub fn palette_indices(&self) -> (s: &Vec<u8>)
        ensures
            s@ == self.spec_indices(),
    {
        &self.palette_indices
    }

    /// The palette index wanted at pixel (`x`, `y`).
    pub fn desired(&self, x: u32, y: u32) -> (c: u8)
        requires
            self.wf(),
            x < self.spec_width(),
            y < self.spec_height(),
        ensures
            c == self.spec_desired(x as int, y as int),
            c < PALETTE_SIZE,
    {
        proof {
            flat_index_in_bounds(self.width as int, self.height as int, x as int, y as int);
        }
        let at: usize = (y as usize) * (self.width as usize) + (x as usize);
        self.palette_indices[at]
    }
}

/// What decoding a bitmap gives: the image, and how many of its pixels were
/// of no palette colour and fell back to index 0.
#[derive(Clone, Debug)]
pub struct LoadedImage {
    pub image: ReferenceImage,
    pub unmatched: u32,
}

/// Number of colours among the first `n` of `pixels` that the palette does
/// not hold.
pub open spec fn count_unmatched(pixels: Seq<(u8, u8, u8)>, n: nat) -> nat
    decreases n,
{
    if n == 0 {
        0
    } else {
        let last = pixels[n - 1];
        count_unmatched(pixels, (n - 1) as nat) + if in_palette(last.0, last.1, last.2) {
            0nat
        } else {
            1nat
        }
    }
}

/// At most every pixel is unmatched.
pub proof fn count_unmatched_bound(pixels: Seq<(u8, u8, u8)>, n: nat)
    ensures
        count_unmatched(pixels, n) <= n,
    decreases n,
{
    if n > 0 {
        count_unmatched_bound(pixels, (n - 1) as nat);
    }
}

/// Maps every pixel of a decoded bitmap to its palette index, a pixel of no
/// palette colour to index 0.
pub fn load_image(img: &bmp::Image) -> (r: Result<LoadedImage, ImageError>)
    ensures
        r is Err <==> bmp_size(*img).0 * bmp_size(*img).1 > u32::MAX,
        r matches Err(e) ==> e == ImageError::TooManyPixels,
        r matches Ok(loaded) ==> {
            &&& loaded.image.wf()
            &&& loaded.image.spec_width() == bmp_size(*img).0
            &&& loaded.image.spec_height() == bmp_size(*img).1
            &&& forall|k: int|
                0 <= k < loaded.image.spec_indices().len() ==> {
                    let p = #[trigger] bmp_pixels(*img)[k];
                    loaded.image.spec_indices()[k] == palette_index(p.0, p.1, p.2)
                }
            &&& loaded.unmatched == count_unmatched(
                bmp_pixels(*img),
                loaded.image.spec_indices().len(),
            )
        },
{
    let width = bitmap_width(img);
    let height = bitmap_height(img);
    proof {
        product_fits(width, height);
    }
    let count: u64 = (width as u64) * (height as u64);
    if count > u32::MAX as u64 {
        return Err(ImageError::TooManyPixels);
    }
    let ghost pixels = bmp_pixels(*img);
    let mut indices: Vec<u8> = Vec::new();
    let mut unmatched: u32 = 0;
    let mut y: u32 = 0;
    while y < height
        invariant
            y <= height,
            width == bmp_size(*img).0,
            height == bmp_size(*img).1,
            width * height <= u32::MAX,
            pixels == bmp_pixels(*img),
            indices@.len() == y * width,
            all_palette_indices(indices@),
            forall|k: int|
                0 <= k < indices@.len() ==> {
                    let p = #[trigger] pixels[k];
                    indices@[k] == palette_index(p.0, p.1, p.2)
                },
            unmatched == count_unmatched(pixels, indices@.len()),
        decreases height - y,
    {
        let mut x: u32 = 0;
        while x < width
            invariant
                x <= width,
                y < height,
                width == bmp_size(*img).0,
                height == bmp_size(*img).1,
                width * height <= u32::MAX,
                pixels == bmp_pixels(*img),
                indices@.len() == y * width + x,
                all_palette_indices(indices@),
                forall|k: int|
                    0 <= k < indices@.len() ==> {
                        let p = #[trigger] pixels[k];
                        indices@[k] == palette_index(p.0, p.1, p.2)
                    },
                unmatched == count_unmatched(pixels, indices@.len()),
            decreases width - x,
        {
            let c = bitmap_pixel(img, x, y);
            let found = quantize(c.0, c.1, c.2);
            proof {
                flat_index_in_bounds(width as int, height as int, x as int, y as int);
                count_unmatched_bound(pixels, indices@.len());
            }
            indices.push(found.0);
            if !found.1 {
                unmatched = unmatched + 1;
            }
            x = x + 1;
        }
        proof {
            assert((y + 1) * width == y * width + width) by (nonlinear_arith);
        }
        y = y + 1;
    }
    proof {
        assert(height * width == width * height) by (nonlinear_arith);
    }
    Ok(LoadedImage { image: ReferenceImage { width, height, palette_indices: indices }, unmatched })
}

} // verus!
