//! The image resource that a brush can paint with.

use vstd::prelude::*;

use crate::blob::{Blob, bytes_eq};
use crate::float32::{ONE_BITS, is_finite_bits, is_nan_bits, is_zero_bits, mul_bits};

verus! {

/// Layout of the pixel data an image holds.
#[derive(Clone, Copy, PartialEq, Eq, Debug, Structural)]
pub enum Format {
    /// 32-bit pixels: red, green, blue, alpha, one byte each.
    Rgba8,
}

/// Owned shareable image resource: an opaque pixel buffer with a format
/// tag, a size, and a global alpha factor as binary32 bits. The pixel
/// bytes themselves are never interpreted here.
#[derive(Debug)]
pub struct Image {
    /// Blob containing the image data.
    pub data: Blob<u8>,
    /// Pixel format of the image.
    pub format: Format,
    /// Width of the image in pixels.
    pub width: u32,
    /// Height of the image in pixels.
    pub height: u32,
    /// Alpha multiplier applied when rendering, binary32 bits.
    pub alpha: u32,
}

/// Equality of two images: the same pixel bytes, format, size and alpha.
pub open spec fn image_eq_spec(a: Image, b: Image) -> bool {
    &&& a.data@ == b.data@
    &&& a.format == b.format
    &&& a.width == b.width
    &&& a.height == b.height
    &&& a.alpha == b.alpha
}

impl Image {
    /// Creates a new image with the given data, format and size, fully
    /// opaque.
    pub fn new(data: Blob<u8>, format: Format, width: u32, height: u32) -> (r: Self)
        ensures
            r.data == data,
            r.format == format,
            r.width == width,
            r.height == height,
            r.alpha == ONE_BITS,
    {
        Image { data, format, width, height, alpha: ONE_BITS }
    }

    /// Returns the image with the alpha multiplier multiplied by the given
    /// factor; everything else is shared unchanged, and a factor of one
    /// changes nothing.
    #[must_use]
    pub fn with_alpha_factor(self, alpha: u32) -> (r: Self)
        ensures
            r.data == self.data,
            r.format == self.format,
            r.width == self.width,
            r.height == self.height,
            r.alpha == mul_bits(self.alpha, alpha),
            alpha == ONE_BITS && !is_nan_bits(self.alpha) ==> r == self,
            is_zero_bits(alpha) && is_finite_bits(self.alpha) ==> is_zero_bits(r.alpha),
    {
        Image { alpha: crate::float32::f32_mul(self.alpha, alpha), ..self }
    }
}

impl Clone for Image {
    /// The copy shares the same pixel data and keeps every field.
    fn clone(&self) -> (r: Self)
        ensures
            r == *self,
    {
        Image {
            data: self.data.clone(),
            format: self.format,
            width: self.width,
            height: self.height,
            alpha: self.alpha,
        }
    }
}

impl PartialEq for Image {
    /// Compares the pixel bytes, format, size and alpha.
    fn eq(&self, other: &Self) -> (r: bool)
        ensures
            r == image_eq_spec(*self, *other),
    {
        bytes_eq(self.data.as_slice(), other.data.as_slice()) && self.format == other.format
            && self.width == other.width && self.height == other.height
            && self.alpha == other.alpha
    }
}

impl vstd::std_specs::cmp::PartialEqSpecImpl for Image {
    open spec fn obeys_eq_spec() -> bool {
        true
    }

    open spec fn eq_spec(&self, other: &Self) -> bool {
        image_eq_spec(*self, *other)
    }
}

} // verus!
