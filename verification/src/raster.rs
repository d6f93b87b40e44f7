//! The in-memory model of a decoded image: an opaque pixel buffer from the
//! image codec, together with its dimensions held as plain integers so that
//! the resize policy can reason about them.

use vstd::prelude::*;

verus! {

#[verifier::external_type_specification]
#[verifier::external_body]
pub struct ExDynamicImage(image::DynamicImage);

/// A decoded raster image. The pixel buffer itself is opaque; `width` and
/// `height` record its dimensions, which is what the resize policy reads.
///
/// The fields are private: every raster is built by this crate's own
/// constructors, which record the buffer's true dimensions, so a caller
/// cannot pair a buffer with dimensions that are not its own.
///
/// A well-formed raster (see [`RasterImage::wf`]) has both dimensions at
/// least one pixel.
#[derive(Debug)]
pub struct RasterImage {
    /// The decoded pixel buffer, as the image codec produced it.
    img: image::DynamicImage,
    /// The width of `img` in pixels.
    width: u32,
    /// The height of `img` in pixels.
    height: u32,
}

impl RasterImage {
    /// The recorded width in pixels.
    pub closed spec fn spec_width(self) -> u32 {
        self.width
    }

    /// The recorded height in pixels.
    pub closed spec fn spec_height(self) -> u32 {
        self.height
    }

    /// The pixel buffer.
    pub closed spec fn spec_img(self) -> image::DynamicImage {
        self.img
    }

    /// A raster is well-formed when it is at least one pixel wide and tall.
    pub open spec fn wf(self) -> bool {
        self.spec_width() >= 1 && self.spec_height() >= 1
    }

    /// Relies on `image::DynamicImage::width` and `image::DynamicImage::height`
    /// to read the dimensions of a decoded pixel buffer.
    #[verifier::external_body]
    fn dynamic_dims(img: &image::DynamicImage) -> (r: (u32, u32)) {
        (img.width(), img.height())
    }

    /// Pairs a pixel buffer with the dimensions to record for it. Only this
    /// crate's trusted constructors call it, with the dimensions the codec
    /// reported for that very buffer.
    pub(crate) fn from_parts(img: image::DynamicImage, width: u32, height: u32) -> (r: RasterImage)
        ensures
            r.spec_width() == width,
            r.spec_height() == height,
            r.spec_img() == img,
    {
        RasterImage { img, width, height }
    }

    /// Wraps a decoded pixel buffer, recording its dimensions. Returns `None`
    /// when the buffer is degenerate (zero pixels wide or tall), so that a
    /// well-formed raster always exists behind `Some`.
    pub fn from_dynamic(img: image::DynamicImage) -> (r: Option<RasterImage>)
        ensures
            r is Some ==> r.unwrap().wf(),
    {
        let (width, height) = Self::dynamic_dims(&img);
        if width >= 1 && height >= 1 {
            Some(RasterImage { img, width, height })
        } else {
            None
        }
    }

    /// The width in pixels.
    pub fn width(&self) -> (r: u32)
        ensures
            r == self.spec_width(),
    {
        self.width
    }

    /// The height in pixels.
    pub fn height(&self) -> (r: u32)
        ensures
            r == self.spec_height(),
    {
        self.height
    }

    /// A view of the pixel buffer.
    pub fn as_dynamic(&self) -> (r: &image::DynamicImage)
        ensures
            r == self.spec_img(),
    {
        &self.img
    }

    /// Hands the pixel buffer back, consuming the raster.
    pub(crate) fn into_dynamic(self) -> (r: image::DynamicImage)
        ensures
            r == self.spec_img(),
    {
        self.img
    }
}

} // verus!
