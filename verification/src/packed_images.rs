//! Single-plane images: greyscale luma planes and packed pixel formats.
use vstd::prelude::*;
use crate::error::Error;
use crate::geometry::ImageSize;
use crate::layout::{Direction, Unit, check_luma, check_packed, luma_result, packed_result};

verus! {

/// I400 image (greyscale, BT.601 limited range).
#[derive(Debug)]
pub struct I400Image<'a> {
    /// Luma plane.
    pub y: &'a [u8],
    /// Luma row pitch, in bytes.
    pub y_stride: usize,
}

impl I400Image<'_> {
    /// The outcome of validating the image for `size` pixels.
    pub open spec fn spec_validate(&self, size: ImageSize, function: &'static str) -> Result<(), Error> {
        luma_result(self.y@.len(), self.y_stride, size, function, Direction::Source)
    }

    /// Checks that the image is a source of `size` pixels libyuv can read in bounds.
    pub fn validate(&self, size: ImageSize, function: &'static str) -> (r: Result<(), Error>)
        ensures
            r == self.spec_validate(size, function),
    {
        check_luma(self.y.len(), self.y_stride, size, function, Direction::Source)
    }
}

/// I400 image (greyscale, BT.601 limited range), writable.
#[derive(Debug)]
pub struct I400ImageMut<'a> {
    /// Luma plane.
    pub y: &'a mut [u8],
    /// Luma row pitch, in bytes.
    pub y_stride: usize,
}

impl I400ImageMut<'_> {
    /// The same image, read-only.
    pub fn as_ref(&self) -> (r: I400Image<'_>)
        ensures
            r.y@ == old(self.y)@ && r.y_stride == self.y_stride,
    {
        I400Image { y: self.y, y_stride: self.y_stride }
    }

    /// The outcome of validating the image for `size` pixels.
    pub open spec fn spec_validate(&self, size: ImageSize, function: &'static str) -> Result<(), Error> {
        luma_result(self.y@.len(), self.y_stride, size, function, Direction::Destination)
    }

    /// Checks that the image is a destination of `size` pixels libyuv can write in bounds.
    pub fn validate(&self, size: ImageSize, function: &'static str) -> (r: Result<(), Error>)
        ensures
            r == self.spec_validate(size, function),
    {
        check_luma(self.y.len(), self.y_stride, size, function, Direction::Destination)
    }
}

/// J400 image (greyscale, BT.601 full range).
#[derive(Debug)]
pub struct J400Image<'a> {
    /// Luma plane.
    pub y: &'a [u8],
    /// Luma row pitch, in bytes.
    pub y_stride: usize,
}

impl J400Image<'_> {
    /// The outcome of validating the image for `size` pixels.
    pub open spec fn spec_validate(&self, size: ImageSize, function: &'static str) -> Result<(), Error> {
        luma_result(self.y@.len(), self.y_stride, size, function, Direction::Source)
    }

    /// Checks that the image is a source of `size` pixels libyuv can read in bounds.
    pub fn validate(&self, size: ImageSize, function: &'static str) -> (r: Result<(), Error>)
        ensures
            r == self.spec_validate(size, function),
    {
        check_luma(self.y.len(), self.y_stride, size, function, Direction::Source)
    }
}

/// J400 image (greyscale, BT.601 full range), writable.
#[derive(Debug)]
pub struct J400ImageMut<'a> {
    /// Luma plane.
    pub y: &'a mut [u8],
    /// Luma row pitch, in bytes.
    pub y_stride: usize,
}

impl J400ImageMut<'_> {
    /// The same image, read-only.
    pub fn as_ref(&self) -> (r: J400Image<'_>)
        ensures
            r.y@ == old(self.y)@ && r.y_stride == self.y_stride,
    {
        J400Image { y: self.y, y_stride: self.y_stride }
    }

    /// The outcome of validating the image for `size` pixels.
    pub open spec fn spec_validate(&self, size: ImageSize, function: &'static str) -> Result<(), Error> {
        luma_result(self.y@.len(), self.y_stride, size, function, Direction::Destination)
    }

    /// Checks that the image is a destination of `size` pixels libyuv can write in bounds.
    pub fn validate(&self, size: ImageSize, function: &'static str) -> (r: Result<(), Error>)
        ensures
            r == self.spec_validate(size, function),
    {
        check_luma(self.y.len(), self.y_stride, size, function, Direction::Destination)
    }
}

/// ARGB image (4 bytes per pixel).
#[derive(Debug)]
pub struct ArgbImage<'a> {
    /// Pixel data.
    pub data: &'a [u8],
    /// Row pitch, in bytes.
    pub stride: usize,
}

impl ArgbImage<'_> {
    /// The outcome of validating the image for `size` pixels.
    pub open spec fn spec_validate(&self, size: ImageSize, function: &'static str) -> Result<(), Error> {
        packed_result(self.data@.len(), self.stride, size, 4, Unit::Byte, function, Direction::Source)
    }

    /// Checks that the image is a source of `size` pixels libyuv can read in bounds.
    pub fn validate(&self, size: ImageSize, function: &'static str) -> (r: Result<(), Error>)
        ensures
            r == self.spec_validate(size, function),
    {
        check_packed(self.data.len(), self.stride, size, 4, Unit::Byte, function, Direction::Source)
    }
}

/// ARGB image (4 bytes per pixel), writable.
#[derive(Debug)]
pub struct ArgbImageMut<'a> {
    /// Pixel data.
    pub data: &'a mut [u8],
    /// Row pitch, in bytes.
    pub stride: usize,
}

impl ArgbImageMut<'_> {
    /// The same image, read-only.
    pub fn as_ref(&self) -> (r: ArgbImage<'_>)
        ensures
            r.data@ == old(self.data)@ && r.stride == self.stride,
    {
        ArgbImage { data: self.data, stride: self.stride }
    }

    /// The outcome of validating the image for `size` pixels.
    pub open spec fn spec_validate(&self, size: ImageSize, function: &'static str) -> Result<(), Error> {
        packed_result(self.data@.len(), self.stride, size, 4, Unit::Byte, function, Direction::Destination)
    }

    /// Checks that the image is a destination of `size` pixels libyuv can write in bounds.
    pub fn validate(&self, size: ImageSize, function: &'static str) -> (r: Result<(), Error>)
        ensures
            r == self.spec_validate(size, function),
    {
        check_packed(self.data.len(), self.stride, size, 4, Unit::Byte, function, Direction::Destination)
    }
}

/// ABGR image (4 bytes per pixel).
#[derive(Debug)]
pub struct AbgrImage<'a> {
    /// Pixel data.
    pub data: &'a [u8],
    /// Row pitch, in bytes.
    pub stride: usize,
}

impl AbgrImage<'_> {
    /// The outcome of validating the image for `size` pixels.
    pub open spec fn spec_validate(&self, size: ImageSize, function: &'static str) -> Result<(), Error> {
        packed_result(self.data@.len(), self.stride, size, 4, Unit::Byte, function, Direction::Source)
    }

    /// Checks that the image is a source of `size` pixels libyuv can read in bounds.
    pub fn validate(&self, size: ImageSize, function: &'static str) -> (r: Result<(), Error>)
        ensures
            r == self.spec_validate(size, function),
    {
        check_packed(self.data.len(), self.stride, size, 4, Unit::Byte, function, Direction::Source)
    }
}

/// ABGR image (4 bytes per pixel), writable.
#[derive(Debug)]
pub struct AbgrImageMut<'a> {
    /// Pixel data.
    pub data: &'a mut [u8],
    /// Row pitch, in bytes.
    pub stride: usize,
}

impl AbgrImageMut<'_> {
    /// The same image, read-only.
    pub fn as_ref(&self) -> (r: AbgrImage<'_>)
        ensures
            r.data@ == old(self.data)@ && r.stride == self.stride,
    {
        AbgrImage { data: self.data, stride: self.stride }
    }

    /// The outcome of validating the image for `size` pixels.
    pub open spec fn spec_validate(&self, size: ImageSize, function: &'static str) -> Result<(), Error> {
        packed_result(self.data@.len(), self.stride, size, 4, Unit::Byte, function, Direction::Destination)
    }

    /// Checks that the image is a destination of `size` pixels libyuv can write in bounds.
    pub fn validate(&self, size: ImageSize, function: &'static str) -> (r: Result<(), Error>)
        ensures
            r == self.spec_validate(size, function),
    {
        check_packed(self.data.len(), self.stride, size, 4, Unit::Byte, function, Direction::Destination)
    }
}

/// RGBA image (4 bytes per pixel).
#[derive(Debug)]
pub struct RgbaImage<'a> {
    /// Pixel data.
    pub data: &'a [u8],
    /// Row pitch, in bytes.
    pub stride: usize,
}

impl RgbaImage<'_> {
    /// The outcome of validating the image for `size` pixels.
    pub open spec fn spec_validate(&self, size: ImageSize, function: &'static str) -> Result<(), Error> {
        packed_result(self.data@.len(), self.stride, size, 4, Unit::Byte, function, Direction::Source)
    }

    /// Checks that the image is a source of `size` pixels libyuv can read in bounds.
    pub fn validate(&self, size: ImageSize, function: &'static str) -> (r: Result<(), Error>)
        ensures
            r == self.spec_validate(size, function),
    {
        check_packed(self.data.len(), self.stride, size, 4, Unit::Byte, function, Direction::Source)
    }
}

/// RGBA image (4 bytes per pixel), writable.
#[derive(Debug)]
pub struct RgbaImageMut<'a> {
    /// Pixel data.
    pub data: &'a mut [u8],
    /// Row pitch, in bytes.
    pub stride: usize,
}

impl RgbaImageMut<'_> {
    /// The same image, read-only.
    pub fn as_ref(&self) -> (r: RgbaImage<'_>)
        ensures
            r.data@ == old(self.data)@ && r.stride == self.stride,
    {
        RgbaImage { data: self.data, stride: self.stride }
    }

    /// The outcome of validating the image for `size` pixels.
    pub open spec fn spec_validate(&self, size: ImageSize, function: &'static str) -> Result<(), Error> {
        packed_result(self.data@.len(), self.stride, size, 4, Unit::Byte, function, Direction::Destination)
    }

    /// Checks that the image is a destination of `size` pixels libyuv can write in bounds.
    pub fn validate(&self, size: ImageSize, function: &'static str) -> (r: Result<(), Error>)
        ensures
            r == self.spec_validate(size, function),
    {
        check_packed(self.data.len(), self.stride, size, 4, Unit::Byte, function, Direction::Destination)
    }
}

/// BGRA image (4 bytes per pixel).
#[derive(Debug)]
pub struct BgraImage<'a> {
    /// Pixel data.
    pub data: &'a [u8],
    /// Row pitch, in bytes.
    pub stride: usize,
}

impl BgraImage<'_> {
    /// The outcome of validating the image for `size` pixels.
    pub open spec fn spec_validate(&self, size: ImageSize, function: &'static str) -> Result<(), Error> {
        packed_result(self.data@.len(), self.stride, size, 4, Unit::Byte, function, Direction::Source)
    }

    /// Checks that the image is a source of `size` pixels libyuv can read in bounds.
    pub fn validate(&self, size: ImageSize, function: &'static str) -> (r: Result<(), Error>)
        ensures
            r == self.spec_validate(size, function),
    {
        check_packed(self.data.len(), self.stride, size, 4, Unit::Byte, function, Direction::Source)
    }
}

/// BGRA image (4 bytes per pixel), writable.
#[derive(Debug)]
pub struct BgraImageMut<'a> {
    /// Pixel data.
    pub data: &'a mut [u8],
    /// Row pitch, in bytes.
    pub stride: usize,
}

impl BgraImageMut<'_> {
    /// The same image, read-only.
    pub fn as_ref(&self) -> (r: BgraImage<'_>)
        ensures
            r.data@ == old(self.data)@ && r.stride == self.stride,
    {
        BgraImage { data: self.data, stride: self.stride }
    }

    /// The outcome of validating the image for `size` pixels.
    pub open spec fn spec_validate(&self, size: ImageSize, function: &'static str) -> Result<(), Error> {
        packed_result(self.data@.len(), self.stride, size, 4, Unit::Byte, function, Direction::Destination)
    }

    /// Checks that the image is a destination of `size` pixels libyuv can write in bounds.
    pub fn validate(&self, size: ImageSize, function: &'static str) -> (r: Result<(), Error>)
        ensures
            r == self.spec_validate(size, function),
    {
        check_packed(self.data.len(), self.stride, size, 4, Unit::Byte, function, Direction::Destination)
    }
}

/// AR30, 10-bit packed image (4 bytes per pixel).
#[derive(Debug)]
pub struct Ar30Image<'a> {
    /// Pixel data.
    pub data: &'a [u8],
    /// Row pitch, in bytes.
    pub stride: usize,
}

impl Ar30Image<'_> {
    /// The outcome of validating the image for `size` pixels.
    pub open spec fn spec_validate(&self, size: ImageSize, function: &'static str) -> Result<(), Error> {
        packed_result(self.data@.len(), self.stride, size, 4, Unit::Byte, function, Direction::Source)
    }

    /// Checks that the image is a source of `size` pixels libyuv can read in bounds.
    pub fn validate(&self, size: ImageSize, function: &'static str) -> (r: Result<(), Error>)
        ensures
            r == self.spec_validate(size, function),
    {
        check_packed(self.data.len(), self.stride, size, 4, Unit::Byte, function, Direction::Source)
    }
}

/// AR30, 10-bit packed image (4 bytes per pixel), writable.
#[derive(Debug)]
pub struct Ar30ImageMut<'a> {
    /// Pixel data.
    pub data: &'a mut [u8],
    /// Row pitch, in bytes.
    pub stride: usize,
}

impl Ar30ImageMut<'_> {
    /// The same image, read-only.
    pub fn as_ref(&self) -> (r: Ar30Image<'_>)
        ensures
            r.data@ == old(self.data)@ && r.stride == self.stride,
    {
        Ar30Image { data: self.data, stride: self.stride }
    }

    /// The outcome of validating the image for `size` pixels.
    pub open spec fn spec_validate(&self, size: ImageSize, function: &'static str) -> Result<(), Error> {
        packed_result(self.data@.len(), self.stride, size, 4, Unit::Byte, function, Direction::Destination)
    }

    /// Checks that the image is a destination of `size` pixels libyuv can write in bounds.
    pub fn validate(&self, size: ImageSize, function: &'static str) -> (r: Result<(), Error>)
        ensures
            r == self.spec_validate(size, function),
    {
        check_packed(self.data.len(), self.stride, size, 4, Unit::Byte, function, Direction::Destination)
    }
}

/// AB30, 10-bit packed image (4 bytes per pixel).
#[derive(Debug)]
pub struct Ab30Image<'a> {
    /// Pixel data.
    pub data: &'a [u8],
    /// Row pitch, in bytes.
    pub stride: usize,
}

impl Ab30Image<'_> {
    /// The outcome of validating the image for `size` pixels.
    pub open spec fn spec_validate(&self, size: ImageSize, function: &'static str) -> Result<(), Error> {
        packed_result(self.data@.len(), self.stride, size, 4, Unit::Byte, function, Direction::Source)
    }

    /// Checks that the image is a source of `size` pixels libyuv can read in bounds.
    pub fn validate(&self, size: ImageSize, function: &'static str) -> (r: Result<(), Error>)
        ensures
            r == self.spec_validate(size, function),
    {
        check_packed(self.data.len(), self.stride, size, 4, Unit::Byte, function, Direction::Source)
    }
}

/// AB30, 10-bit packed image (4 bytes per pixel), writable.
#[derive(Debug)]
pub struct Ab30ImageMut<'a> {
    /// Pixel data.
    pub data: &'a mut [u8],
    /// Row pitch, in bytes.
    pub stride: usize,
}

impl Ab30ImageMut<'_> {
    /// The same image, read-only.
    pub fn as_ref(&self) -> (r: Ab30Image<'_>)
        ensures
            r.data@ == old(self.data)@ && r.stride == self.stride,
    {
        Ab30Image { data: self.data, stride: self.stride }
    }

    /// The outcome of validating the image for `size` pixels.
    pub open spec fn spec_validate(&self, size: ImageSize, function: &'static str) -> Result<(), Error> {
        packed_result(self.data@.len(), self.stride, size, 4, Unit::Byte, function, Direction::Destination)
    }

    /// Checks that the image is a destination of `size` pixels libyuv can write in bounds.
    pub fn validate(&self, size: ImageSize, function: &'static str) -> (r: Result<(), Error>)
        ensures
            r == self.spec_validate(size, function),
    {
        check_packed(self.data.len(), self.stride, size, 4, Unit::Byte, function, Direction::Destination)
    }
}

/// AYUV image (4 bytes per pixel).
#[derive(Debug)]
pub struct AyuvImage<'a> {
    /// Pixel data.
    pub data: &'a [u8],
    /// Row pitch, in bytes.
    pub stride: usize,
}

impl AyuvImage<'_> {
    /// The outcome of validating the image for `size` pixels.
    pub open spec fn spec_validate(&self, size: ImageSize, function: &'static str) -> Result<(), Error> {
        packed_result(self.data@.len(), self.stride, size, 4, Unit::Byte, function, Direction::Source)
    }

    /// Checks that the image is a source of `size` pixels libyuv can read in bounds.
    pub fn validate(&self, size: ImageSize, function: &'static str) -> (r: Result<(), Error>)
        ensures
            r == self.spec_validate(size, function),
    {
        check_packed(self.data.len(), self.stride, size, 4, Unit::Byte, function, Direction::Source)
    }
}

/// AYUV image (4 bytes per pixel), writable.
#[derive(Debug)]
pub struct AyuvImageMut<'a> {
    /// Pixel data.
    pub data: &'a mut [u8],
    /// Row pitch, in bytes.
    pub stride: usize,
}

impl AyuvImageMut<'_> {
    /// The same image, read-only.
    pub fn as_ref(&self) -> (r: AyuvImage<'_>)
        ensures
            r.data@ == old(self.data)@ && r.stride == self.stride,
    {
        AyuvImage { data: self.data, stride: self.stride }
    }

    /// The outcome of validating the image for `size` pixels.
    pub open spec fn spec_validate(&self, size: ImageSize, function: &'static str) -> Result<(), Error> {
        packed_result(self.data@.len(), self.stride, size, 4, Unit::Byte, function, Direction::Destination)
    }

    /// Checks that the image is a destination of `size` pixels libyuv can write in bounds.
    pub fn validate(&self, size: ImageSize, function: &'static str) -> (r: Result<(), Error>)
        ensures
            r == self.spec_validate(size, function),
    {
        check_packed(self.data.len(), self.stride, size, 4, Unit::Byte, function, Direction::Destination)
    }
}

/// RGB24 image (3 bytes per pixel).
#[derive(Debug)]
pub struct Rgb24Image<'a> {
    /// Pixel data.
    pub data: &'a [u8],
    /// Row pitch, in bytes.
    pub stride: usize,
}

impl Rgb24Image<'_> {
    /// The outcome of validating the image for `size` pixels.
    pub open spec fn spec_validate(&self, size: ImageSize, function: &'static str) -> Result<(), Error> {
        packed_result(self.data@.len(), self.stride, size, 3, Unit::Byte, function, Direction::Source)
    }

    /// Checks that the image is a source of `size` pixels libyuv can read in bounds.
    pub fn validate(&self, size: ImageSize, function: &'static str) -> (r: Result<(), Error>)
        ensures
            r == self.spec_validate(size, function),
    {
        check_packed(self.data.len(), self.stride, size, 3, Unit::Byte, function, Direction::Source)
    }
}

/// RGB24 image (3 bytes per pixel), writable.
#[derive(Debug)]
pub struct Rgb24ImageMut<'a> {
    /// Pixel data.
    pub data: &'a mut [u8],
    /// Row pitch, in bytes.
    pub stride: usize,
}

impl Rgb24ImageMut<'_> {
    /// The same image, read-only.
    pub fn as_ref(&self) -> (r: Rgb24Image<'_>)
        ensures
            r.data@ == old(self.data)@ && r.stride == self.stride,
    {
        Rgb24Image { data: self.data, stride: self.stride }
    }

    /// The outcome of validating the image for `size` pixels.
    pub open spec fn spec_validate(&self, size: ImageSize, function: &'static str) -> Result<(), Error> {
        packed_result(self.data@.len(), self.stride, size, 3, Unit::Byte, function, Direction::Destination)
    }

    /// Checks that the image is a destination of `size` pixels libyuv can write in bounds.
    pub fn validate(&self, size: ImageSize, function: &'static str) -> (r: Result<(), Error>)
        ensures
            r == self.spec_validate(size, function),
    {
        check_packed(self.data.len(), self.stride, size, 3, Unit::Byte, function, Direction::Destination)
    }
}

/// RAW, RGB24 in reverse order image (3 bytes per pixel).
#[derive(Debug)]
pub struct RawImage<'a> {
    /// Pixel data.
    pub data: &'a [u8],
    /// Row pitch, in bytes.
    pub stride: usize,
}

impl RawImage<'_> {
    /// The outcome of validating the image for `size` pixels.
    pub open spec fn spec_validate(&self, size: ImageSize, function: &'static str) -> Result<(), Error> {
        packed_result(self.data@.len(), self.stride, size, 3, Unit::Byte, function, Direction::Source)
    }

    /// Checks that the image is a source of `size` pixels libyuv can read in bounds.
    pub fn validate(&self, size: ImageSize, function: &'static str) -> (r: Result<(), Error>)
        ensures
            r == self.spec_validate(size, function),
    {
        check_packed(self.data.len(), self.stride, size, 3, Unit::Byte, function, Direction::Source)
    }
}

/// RAW, RGB24 in reverse order image (3 bytes per pixel), writable.
#[derive(Debug)]
pub struct RawImageMut<'a> {
    /// Pixel data.
    pub data: &'a mut [u8],
    /// Row pitch, in bytes.
    pub stride: usize,
}

impl RawImageMut<'_> {
    /// The same image, read-only.
    pub fn as_ref(&self) -> (r: RawImage<'_>)
        ensures
            r.data@ == old(self.data)@ && r.stride == self.stride,
    {
        RawImage { data: self.data, stride: self.stride }
    }

    /// The outcome of validating the image for `size` pixels.
    pub open spec fn spec_validate(&self, size: ImageSize, function: &'static str) -> Result<(), Error> {
        packed_result(self.data@.len(), self.stride, size, 3, Unit::Byte, function, Direction::Destination)
    }

    /// Checks that the image is a destination of `size` pixels libyuv can write in bounds.
    pub fn validate(&self, size: ImageSize, function: &'static str) -> (r: Result<(), Error>)
        ensures
            r == self.spec_validate(size, function),
    {
        check_packed(self.data.len(), self.stride, size, 3, Unit::Byte, function, Direction::Destination)
    }
}

/// YUV24 image (3 bytes per pixel).
#[derive(Debug)]
pub struct Yuv24Image<'a> {
    /// Pixel data.
    pub data: &'a [u8],
    /// Row pitch, in bytes.
    pub stride: usize,
}

impl Yuv24Image<'_> {
    /// The outcome of validating the image for `size` pixels.
    pub open spec fn spec_validate(&self, size: ImageSize, function: &'static str) -> Result<(), Error> {
        packed_result(self.data@.len(), self.stride, size, 3, Unit::Byte, function, Direction::Source)
    }

    /// Checks that the image is a source of `size` pixels libyuv can read in bounds.
    pub fn validate(&self, size: ImageSize, function: &'static str) -> (r: Result<(), Error>)
        ensures
            r == self.spec_validate(size, function),
    {
        check_packed(self.data.len(), self.stride, size, 3, Unit::Byte, function, Direction::Source)
    }
}

/// YUV24 image (3 bytes per pixel), writable.
#[derive(Debug)]
pub struct Yuv24ImageMut<'a> {
    /// Pixel data.
    pub data: &'a mut [u8],
    /// Row pitch, in bytes.
    pub stride: usize,
}

impl Yuv24ImageMut<'_> {
    /// The same image, read-only.
    pub fn as_ref(&self) -> (r: Yuv24Image<'_>)
        ensures
            r.data@ == old(self.data)@ && r.stride == self.stride,
    {
        Yuv24Image { data: self.data, stride: self.stride }
    }

    /// The outcome of validating the image for `size` pixels.
    pub open spec fn spec_validate(&self, size: ImageSize, function: &'static str) -> Result<(), Error> {
        packed_result(self.data@.len(), self.stride, size, 3, Unit::Byte, function, Direction::Destination)
    }

    /// Checks that the image is a destination of `size` pixels libyuv can write in bounds.
    pub fn validate(&self, size: ImageSize, function: &'static str) -> (r: Result<(), Error>)
        ensures
            r == self.spec_validate(size, function),
    {
        check_packed(self.data.len(), self.stride, size, 3, Unit::Byte, function, Direction::Destination)
    }
}

/// RGB565 image (2 bytes per pixel).
#[derive(Debug)]
pub struct Rgb565Image<'a> {
    /// Pixel data.
    pub data: &'a [u8],
    /// Row pitch, in bytes.
    pub stride: usize,
}

impl Rgb565Image<'_> {
    /// The outcome of validating the image for `size` pixels.
    pub open spec fn spec_validate(&self, size: ImageSize, function: &'static str) -> Result<(), Error> {
        packed_result(self.data@.len(), self.stride, size, 2, Unit::Byte, function, Direction::Source)
    }

    /// Checks that the image is a source of `size` pixels libyuv can read in bounds.
    pub fn validate(&self, size: ImageSize, function: &'static str) -> (r: Result<(), Error>)
        ensures
            r == self.spec_validate(size, function),
    {
        check_packed(self.data.len(), self.stride, size, 2, Unit::Byte, function, Direction::Source)
    }
}

/// RGB565 image (2 bytes per pixel), writable.
#[derive(Debug)]
pub struct Rgb565ImageMut<'a> {
    /// Pixel data.
    pub data: &'a mut [u8],
    /// Row pitch, in bytes.
    pub stride: usize,
}

impl Rgb565ImageMut<'_> {
    /// The same image, read-only.
    pub fn as_ref(&self) -> (r: Rgb565Image<'_>)
        ensures
            r.data@ == old(self.data)@ && r.stride == self.stride,
    {
        Rgb565Image { data: self.data, stride: self.stride }
    }

    /// The outcome of validating the image for `size` pixels.
    pub open spec fn spec_validate(&self, size: ImageSize, function: &'static str) -> Result<(), Error> {
        packed_result(self.data@.len(), self.stride, size, 2, Unit::Byte, function, Direction::Destination)
    }

    /// Checks that the image is a destination of `size` pixels libyuv can write in bounds.
    pub fn validate(&self, size: ImageSize, function: &'static str) -> (r: Result<(), Error>)
        ensures
            r == self.spec_validate(size, function),
    {
        check_packed(self.data.len(), self.stride, size, 2, Unit::Byte, function, Direction::Destination)
    }
}

/// ARGB1555 image (2 bytes per pixel).
#[derive(Debug)]
pub struct Argb1555Image<'a> {
    /// Pixel data.
    pub data: &'a [u8],
    /// Row pitch, in bytes.
    pub stride: usize,
}

impl Argb1555Image<'_> {
    /// The outcome of validating the image for `size` pixels.
    pub open spec fn spec_validate(&self, size: ImageSize, function: &'static str) -> Result<(), Error> {
        packed_result(self.data@.len(), self.stride, size, 2, Unit::Byte, function, Direction::Source)
    }

    /// Checks that the image is a source of `size` pixels libyuv can read in bounds.
    pub fn validate(&self, size: ImageSize, function: &'static str) -> (r: Result<(), Error>)
        ensures
            r == self.spec_validate(size, function),
    {
        check_packed(self.data.len(), self.stride, size, 2, Unit::Byte, function, Direction::Source)
    }
}

/// ARGB1555 image (2 bytes per pixel), writable.
#[derive(Debug)]
pub struct Argb1555ImageMut<'a> {
    /// Pixel data.
    pub data: &'a mut [u8],
    /// Row pitch, in bytes.
    pub stride: usize,
}

impl Argb1555ImageMut<'_> {
    /// The same image, read-only.
    pub fn as_ref(&self) -> (r: Argb1555Image<'_>)
        ensures
            r.data@ == old(self.data)@ && r.stride == self.stride,
    {
        Argb1555Image { data: self.data, stride: self.stride }
    }

    /// The outcome of validating the image for `size` pixels.
    pub open spec fn spec_validate(&self, size: ImageSize, function: &'static str) -> Result<(), Error> {
        packed_result(self.data@.len(), self.stride, size, 2, Unit::Byte, function, Direction::Destination)
    }

    /// Checks that the image is a destination of `size` pixels libyuv can write in bounds.
    pub fn validate(&self, size: ImageSize, function: &'static str) -> (r: Result<(), Error>)
        ensures
            r == self.spec_validate(size, function),
    {
        check_packed(self.data.len(), self.stride, size, 2, Unit::Byte, function, Direction::Destination)
    }
}

/// ARGB4444 image (2 bytes per pixel).
#[derive(Debug)]
pub struct Argb4444Image<'a> {
    /// Pixel data.
    pub data: &'a [u8],
    /// Row pitch, in bytes.
    pub stride: usize,
}

impl Argb4444Image<'_> {
    /// The outcome of validating the image for `size` pixels.
    pub open spec fn spec_validate(&self, size: ImageSize, function: &'static str) -> Result<(), Error> {
        packed_result(self.data@.len(), self.stride, size, 2, Unit::Byte, function, Direction::Source)
    }

    /// Checks that the image is a source of `size` pixels libyuv can read in bounds.
    pub fn validate(&self, size: ImageSize, function: &'static str) -> (r: Result<(), Error>)
        ensures
            r == self.spec_validate(size, function),
    {
        check_packed(self.data.len(), self.stride, size, 2, Unit::Byte, function, Direction::Source)
    }
}

/// ARGB4444 image (2 bytes per pixel), writable.
#[derive(Debug)]
pub struct Argb4444ImageMut<'a> {
    /// Pixel data.
    pub data: &'a mut [u8],
    /// Row pitch, in bytes.
    pub stride: usize,
}

impl Argb4444ImageMut<'_> {
    /// The same image, read-only.
    pub fn as_ref(&self) -> (r: Argb4444Image<'_>)
        ensures
            r.data@ == old(self.data)@ && r.stride == self.stride,
    {
        Argb4444Image { data: self.data, stride: self.stride }
    }

    /// The outcome of validating the image for `size` pixels.
    pub open spec fn spec_validate(&self, size: ImageSize, function: &'static str) -> Result<(), Error> {
        packed_result(self.data@.len(), self.stride, size, 2, Unit::Byte, function, Direction::Destination)
    }

    /// Checks that the image is a destination of `size` pixels libyuv can write in bounds.
    pub fn validate(&self, size: ImageSize, function: &'static str) -> (r: Result<(), Error>)
        ensures
            r == self.spec_validate(size, function),
    {
        check_packed(self.data.len(), self.stride, size, 2, Unit::Byte, function, Direction::Destination)
    }
}

/// YUY2, packed YUV 4:2:2 image (2 bytes per pixel).
#[derive(Debug)]
pub struct Yuy2Image<'a> {
    /// Pixel data.
    pub data: &'a [u8],
    /// Row pitch, in bytes.
    pub stride: usize,
}

impl Yuy2Image<'_> {
    /// The outcome of validating the image for `size` pixels.
    pub open spec fn spec_validate(&self, size: ImageSize, function: &'static str) -> Result<(), Error> {
        packed_result(self.data@.len(), self.stride, size, 2, Unit::Byte, function, Direction::Source)
    }

    /// Checks that the image is a source of `size` pixels libyuv can read in bounds.
    pub fn validate(&self, size: ImageSize, function: &'static str) -> (r: Result<(), Error>)
        ensures
            r == self.spec_validate(size, function),
    {
        check_packed(self.data.len(), self.stride, size, 2, Unit::Byte, function, Direction::Source)
    }
}

/// YUY2, packed YUV 4:2:2 image (2 bytes per pixel), writable.
#[derive(Debug)]
pub struct Yuy2ImageMut<'a> {
    /// Pixel data.
    pub data: &'a mut [u8],
    /// Row pitch, in bytes.
    pub stride: usize,
}

impl Yuy2ImageMut<'_> {
    /// The same image, read-only.
    pub fn as_ref(&self) -> (r: Yuy2Image<'_>)
        ensures
            r.data@ == old(self.data)@ && r.stride == self.stride,
    {
        Yuy2Image { data: self.data, stride: self.stride }
    }

    /// The outcome of validating the image for `size` pixels.
    pub open spec fn spec_validate(&self, size: ImageSize, function: &'static str) -> Result<(), Error> {
        packed_result(self.data@.len(), self.stride, size, 2, Unit::Byte, function, Direction::Destination)
    }

    /// Checks that the image is a destination of `size` pixels libyuv can write in bounds.
    pub fn validate(&self, size: ImageSize, function: &'static str) -> (r: Result<(), Error>)
        ensures
            r == self.spec_validate(size, function),
    {
        check_packed(self.data.len(), self.stride, size, 2, Unit::Byte, function, Direction::Destination)
    }
}

/// UYVY, packed YUV 4:2:2 image (2 bytes per pixel).
#[derive(Debug)]
pub struct UyvyImage<'a> {
    /// Pixel data.
    pub data: &'a [u8],
    /// Row pitch, in bytes.
    pub stride: usize,
}

impl UyvyImage<'_> {
    /// The outcome of validating the image for `size` pixels.
    pub open spec fn spec_validate(&self, size: ImageSize, function: &'static str) -> Result<(), Error> {
        packed_result(self.data@.len(), self.stride, size, 2, Unit::Byte, function, Direction::Source)
    }

    /// Checks that the image is a source of `size` pixels libyuv can read in bounds.
    pub fn validate(&self, size: ImageSize, function: &'static str) -> (r: Result<(), Error>)
        ensures
            r == self.spec_validate(size, function),
    {
        check_packed(self.data.len(), self.stride, size, 2, Unit::Byte, function, Direction::Source)
    }
}

/// UYVY, packed YUV 4:2:2 image (2 bytes per pixel), writable.
#[derive(Debug)]
pub struct UyvyImageMut<'a> {
    /// Pixel data.
    pub data: &'a mut [u8],
    /// Row pitch, in bytes.
    pub stride: usize,
}

impl UyvyImageMut<'_> {
    /// The same image, read-only.
    pub fn as_ref(&self) -> (r: UyvyImage<'_>)
        ensures
            r.data@ == old(self.data)@ && r.stride == self.stride,
    {
        UyvyImage { data: self.data, stride: self.stride }
    }

    /// The outcome of validating the image for `size` pixels.
    pub open spec fn spec_validate(&self, size: ImageSize, function: &'static str) -> Result<(), Error> {
        packed_result(self.data@.len(), self.stride, size, 2, Unit::Byte, function, Direction::Destination)
    }

    /// Checks that the image is a destination of `size` pixels libyuv can write in bounds.
    pub fn validate(&self, size: ImageSize, function: &'static str) -> (r: Result<(), Error>)
        ensures
            r == self.spec_validate(size, function),
    {
        check_packed(self.data.len(), self.stride, size, 2, Unit::Byte, function, Direction::Destination)
    }
}

/// AR64, 16-bit ARGB image (4 elements per pixel).
#[derive(Debug)]
pub struct Ar64Image<'a> {
    /// Pixel data.
    pub data: &'a [u16],
    /// Row pitch, in elements.
    pub stride: usize,
}

impl Ar64Image<'_> {
    /// The outcome of validating the image for `size` pixels.
    pub open spec fn spec_validate(&self, size: ImageSize, function: &'static str) -> Result<(), Error> {
        packed_result(self.data@.len(), self.stride, size, 4, Unit::Element, function, Direction::Source)
    }

    /// Checks that the image is a source of `size` pixels libyuv can read in bounds.
    pub fn validate(&self, size: ImageSize, function: &'static str) -> (r: Result<(), Error>)
        ensures
            r == self.spec_validate(size, function),
    {
        check_packed(self.data.len(), self.stride, size, 4, Unit::Element, function, Direction::Source)
    }
}

/// AR64, 16-bit ARGB image (4 elements per pixel), writable.
#[derive(Debug)]
pub struct Ar64ImageMut<'a> {
    /// Pixel data.
    pub data: &'a mut [u16],
    /// Row pitch, in elements.
    pub stride: usize,
}

impl Ar64ImageMut<'_> {
    /// The same image, read-only.
    pub fn as_ref(&self) -> (r: Ar64Image<'_>)
        ensures
            r.data@ == old(self.data)@ && r.stride == self.stride,
    {
        Ar64Image { data: self.data, stride: self.stride }
    }

    /// The outcome of validating the image for `size` pixels.
    pub open spec fn spec_validate(&self, size: ImageSize, function: &'static str) -> Result<(), Error> {
        packed_result(self.data@.len(), self.stride, size, 4, Unit::Element, function, Direction::Destination)
    }

    /// Checks that the image is a destination of `size` pixels libyuv can write in bounds.
    pub fn validate(&self, size: ImageSize, function: &'static str) -> (r: Result<(), Error>)
        ensures
            r == self.spec_validate(size, function),
    {
        check_packed(self.data.len(), self.stride, size, 4, Unit::Element, function, Direction::Destination)
    }
}

/// AB64, 16-bit ABGR image (4 elements per pixel).
#[derive(Debug)]
pub struct Ab64Image<'a> {
    /// Pixel data.
    pub data: &'a [u16],
    /// Row pitch, in elements.
    pub stride: usize,
}

impl Ab64Image<'_> {
    /// The outcome of validating the image for `size` pixels.
    pub open spec fn spec_validate(&self, size: ImageSize, function: &'static str) -> Result<(), Error> {
        packed_result(self.data@.len(), self.stride, size, 4, Unit::Element, function, Direction::Source)
    }

    /// Checks that the image is a source of `size` pixels libyuv can read in bounds.
    pub fn validate(&self, size: ImageSize, function: &'static str) -> (r: Result<(), Error>)
        ensures
            r == self.spec_validate(size, function),
    {
        check_packed(self.data.len(), self.stride, size, 4, Unit::Element, function, Direction::Source)
    }
}

/// AB64, 16-bit ABGR image (4 elements per pixel), writable.
#[derive(Debug)]
pub struct Ab64ImageMut<'a> {
    /// Pixel data.
    pub data: &'a mut [u16],
    /// Row pitch, in elements.
    pub stride: usize,
}

impl Ab64ImageMut<'_> {
    /// The same image, read-only.
    pub fn as_ref(&self) -> (r: Ab64Image<'_>)
        ensures
            r.data@ == old(self.data)@ && r.stride == self.stride,
    {
        Ab64Image { data: self.data, stride: self.stride }
    }

    /// The outcome of validating the image for `size` pixels.
    pub open spec fn spec_validate(&self, size: ImageSize, function: &'static str) -> Result<(), Error> {
        packed_result(self.data@.len(), self.stride, size, 4, Unit::Element, function, Direction::Destination)
    }

    /// Checks that the image is a destination of `size` pixels libyuv can write in bounds.
    pub fn validate(&self, size: ImageSize, function: &'static str) -> (r: Result<(), Error>)
        ensures
            r == self.spec_validate(size, function),
    {
        check_packed(self.data.len(), self.stride, size, 4, Unit::Element, function, Direction::Destination)
    }
}

} // verus!
