//! The RGBA pixel buffer the badge is painted into, backed by `image`.

use vstd::prelude::*;

verus! {

/// One RGBA pixel value.
#[derive(Clone, Copy, Debug, PartialEq, Eq, Structural)]
pub struct Rgba8 {
    pub r: u8,
    pub g: u8,
    pub b: u8,
    pub a: u8,
}

impl Rgba8 {
    /// Sample `k` of the pixel, in the order r, g, b, a.
    pub open spec fn sample(self, k: int) -> u8 {
        if k == 0 {
            self.r
        } else if k == 1 {
            self.g
        } else if k == 2 {
            self.b
        } else {
            self.a
        }
    }
}

/// An RGBA image of `image`'s `RgbaImage` kind, seen through its samples and
/// its dimensions.
#[verifier::external_body]
pub struct Canvas {
    img: image::RgbaImage,
}

/// The samples of a canvas: row-major, four samples (r, g, b, a) per pixel.
pub uninterp spec fn canvas_samples(c: Canvas) -> Seq<u8>;

/// The width in pixels of a canvas.
pub uninterp spec fn canvas_width(c: Canvas) -> nat;

/// The height in pixels of a canvas.
pub uninterp spec fn canvas_height(c: Canvas) -> nat;

/// Relies on `image::ImageBuffer::new`: a `width` x `height` image whose
/// `width * height * 4` samples are all zero (fully transparent black).
#[verifier::external_body]
pub(crate) fn blank_canvas(width: u32, height: u32) -> (r: Canvas)
    requires
        width * height * 4 <= usize::MAX,
    ensures
        canvas_width(r) == width,
        canvas_height(r) == height,
        canvas_samples(r) == Seq::new((width * height * 4) as nat, |i: int| 0u8),
{
    Canvas { img: image::RgbaImage::new(width, height) }
}

/// Relies on `image::ImageBuffer::put_pixel`: the four samples of pixel
/// `(x, y)`, which start at `(y * width + x) * 4`, become `px`; it panics
/// outside the image, which `requires` rules out.
#[verifier::external_body]
pub(crate) fn put_rgba(c: &mut Canvas, x: u32, y: u32, px: Rgba8)
    requires
        x < canvas_width(*old(c)),
        y < canvas_height(*old(c)),
        canvas_samples(*old(c)).len() == canvas_width(*old(c)) * canvas_height(*old(c)) * 4,
    ensures
        canvas_width(*final(c)) == canvas_width(*old(c)),
        canvas_height(*final(c)) == canvas_height(*old(c)),
        canvas_samples(*final(c)) == Seq::new(
            canvas_samples(*old(c)).len(),
            |i: int|
                {
                    let base = (y * canvas_width(*old(c)) + x) * 4;
                    if base <= i < base + 4 {
                        px.sample(i - base)
                    } else {
                        canvas_samples(*old(c))[i]
                    }
                },
        ),
{
    c.img.put_pixel(x, y, image::Rgba([px.r, px.g, px.b, px.a]))
}

/// Relies on `image::ImageBuffer::into_raw`: hands back the sample buffer as it is.
#[verifier::external_body]
pub(crate) fn canvas_into_raw(c: Canvas) -> (r: Vec<u8>)
    ensures
        r@ == canvas_samples(c),
{
    c.img.into_raw()
}

} // verus!
