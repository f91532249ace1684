//! A render target backed by the `image` crate's in-memory RGB
//! buffer, addressed with row 0 at the bottom (the buffer itself
//! keeps row 0 at the top, so both accessors flip the row).
//! Encoding the buffer to a persisted file happens outside the
//! library, from the cells `get` hands out.
use vstd::prelude::*;

use crate::framebuffer::Rgb8;

verus! {

/// The `image` crate's RGB buffer, held behind an opaque struct:
/// Verus sees it only through `img_pixels`, `img_width` and
/// `img_height` and the trusted accessors below.
#[verifier::external_body]
pub struct RgbBuffer {
    inner: image::RgbImage,
}

/// The pixel grid held by an RGB image buffer, keyed by `(x, y)`
/// with row 0 at the buffer's top.
pub uninterp spec fn img_pixels(img: RgbBuffer) -> Map<(int, int), (u8, u8, u8)>;

/// The width the buffer was created with.
pub uninterp spec fn img_width(img: RgbBuffer) -> u32;

/// The height the buffer was created with.
pub uninterp spec fn img_height(img: RgbBuffer) -> u32;

/// Relies on image::ImageBuffer::new: a buffer of the given
/// dimensions with every sample zero, i.e. every pixel black.
#[verifier::external_body]
fn img_new(width: u32, height: u32) -> (r: RgbBuffer)
    requires
        width <= 4096,
        height <= 4096,
    ensures
        img_width(r) == width,
        img_height(r) == height,
        forall|x: int, y: int|
            0 <= x < width && 0 <= y < height ==> (#[trigger] img_pixels(r)[(x, y)]) == (
            0u8,
            0u8,
            0u8,
            ),
{
    RgbBuffer { inner: image::RgbImage::new(width, height) }
}

/// Relies on image::ImageBuffer::put_pixel: stores the pixel at
/// `(x, y)` (panicking out of bounds, which the precondition rules
/// out) and touches nothing else.
#[verifier::external_body]
fn img_put(img: &mut RgbBuffer, x: u32, y: u32, c: Rgb8)
    requires
        x < img_width(*old(img)),
        y < img_height(*old(img)),
    ensures
        img_width(*final(img)) == img_width(*old(img)),
        img_height(*final(img)) == img_height(*old(img)),
        img_pixels(*final(img)) == img_pixels(*old(img)).insert(
            (x as int, y as int),
            (c.r, c.g, c.b),
        ),
{
    img.inner.put_pixel(x, y, image::Rgb([c.r, c.g, c.b]))
}

/// Relies on image::ImageBuffer::get_pixel: returns the pixel stored
/// at `(x, y)` (panicking out of bounds, which the precondition
/// rules out).
#[verifier::external_body]
fn img_get(img: &RgbBuffer, x: u32, y: u32) -> (r: Rgb8)
    requires
        x < img_width(*img),
        y < img_height(*img),
    ensures
        (r.r, r.g, r.b) == img_pixels(*img)[(x as int, y as int)],
{
    let p = img.inner.get_pixel(x, y);
    Rgb8 { r: p.0[0], g: p.0[1], b: p.0[2] }
}

/// Relies on image::ImageBuffer::dimensions: returns the width and
/// height the buffer was created with.
#[verifier::external_body]
fn img_dims(img: &RgbBuffer) -> (r: (u32, u32))
    ensures
        r.0 == img_width(*img),
        r.1 == img_height(*img),
{
    img.inner.dimensions()
}

/// An RGB render target with bottom-origin addressing.
pub struct MyImage {
    img: RgbBuffer,
}

impl MyImage {
    /// Dimensions are positive and bounded.
    pub closed spec fn wf(self) -> bool {
        &&& 1 <= img_width(self.img) <= 4096
        &&& 1 <= img_height(self.img) <= 4096
    }

    pub closed spec fn spec_width(self) -> u32 {
        img_width(self.img)
    }

    pub closed spec fn spec_height(self) -> u32 {
        img_height(self.img)
    }

    /// The color addressed at `(x, y)`, row 0 at the bottom: the
    /// underlying buffer keeps row 0 at the top, so the row index is
    /// flipped.
    pub closed spec fn pix(self, x: int, y: int) -> (u8, u8, u8) {
        img_pixels(self.img)[(x, img_height(self.img) - 1 - y)]
    }

    /// A black image of the given dimensions.
    pub fn new(width: u32, height: u32) -> (r: MyImage)
        requires
            1 <= width <= 4096,
            1 <= height <= 4096,
        ensures
            r.wf(),
            r.spec_width() == width,
            r.spec_height() == height,
            forall|x: int, y: int|
                0 <= x < width && 0 <= y < height ==> (#[trigger] r.pix(x, y)) == (0u8, 0u8, 0u8),
    {
        MyImage { img: img_new(width, height) }
    }

    pub fn dimensions(&self) -> (r: (u32, u32))
        ensures
            r.0 == self.spec_width(),
            r.1 == self.spec_height(),
    {
        img_dims(&self.img)
    }

    /// Store `rgb` at `(x, y)`; every other cell keeps its color.
    pub fn set(&mut self, x: u32, y: u32, rgb: Rgb8)
        requires
            old(self).wf(),
            x < old(self).spec_width(),
            y < old(self).spec_height(),
        ensures
            final(self).wf(),
            final(self).spec_width() == old(self).spec_width(),
            final(self).spec_height() == old(self).spec_height(),
            final(self).pix(x as int, y as int) == (rgb.r, rgb.g, rgb.b),
            forall|i: int, j: int|
                0 <= i < old(self).spec_width() && 0 <= j < old(self).spec_height() && !(i == x && j
                    == y) ==> (#[trigger] final(self).pix(i, j)) == old(self).pix(i, j),
    {
        let (_, h) = self.dimensions();
        img_put(&mut self.img, x, h - 1 - y, rgb);
    }

    /// The color at `(x, y)`.
    pub fn get(&self, x: u32, y: u32) -> (r: Rgb8)
        requires
            self.wf(),
            x < self.spec_width(),
            y < self.spec_height(),
        ensures
            (r.r, r.g, r.b) == self.pix(x as int, y as int),
    {
        let (_, h) = self.dimensions();
        img_get(&self.img, x, h - 1 - y)
    }

}

} // verus!
