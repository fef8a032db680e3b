//! Semi-planar YUV images: a luma plane and one plane of interleaved chroma pairs.
use vstd::prelude::*;
use crate::error::Error;
use crate::geometry::ImageSize;
use crate::layout::{Direction, planar2_result, validate_nv16_dst_inner, validate_nv16_src_inner, validate_nv_dst_inner, validate_nv_src_inner};

use crate::tiled::{tiled_result, validate_tiled_nv_src_inner};

verus! {

/// MM21 image (MediaTek 8-bit tiled layout, 4:2:0).
///
/// libyuv reads it row of tiles by row of tiles, so it is validated against the
/// size the tiled layout needs rather than the linear `stride * height`.
#[derive(Debug)]
pub struct Mm21Image<'a> {
    /// Luma plane.
    pub y: &'a [u8],
    /// Luma row pitch, in bytes.
    pub y_stride: usize,
    /// Interleaved chroma plane.
    pub uv: &'a [u8],
    /// Chroma row pitch, in bytes.
    pub uv_stride: usize,
}

impl Mm21Image<'_> {
    /// The outcome of validating the image for `size` pixels.
    pub open spec fn spec_validate(&self, size: ImageSize, function: &'static str) -> Result<(), Error> {
        tiled_result(self.y@.len(), self.y_stride, self.uv@.len(), self.uv_stride, size, function, false)
    }

    /// Checks that the image is a source of `size` pixels libyuv can read in bounds.
    pub fn validate(&self, size: ImageSize, function: &'static str) -> (r: Result<(), Error>)
        ensures
            r == self.spec_validate(size, function),
    {
        validate_tiled_nv_src_inner(self.y, self.y_stride, self.uv, self.uv_stride, size, function, false)
    }
}

/// MT2T image (MediaTek 10-bit packed tiled layout, 4:2:0).
///
/// Strides count bytes: a packed 10-bit row takes ten eighths of the width.
/// The image is validated against the size the tiled, packed layout needs.
#[derive(Debug)]
pub struct Mt2tImage<'a> {
    /// Luma plane.
    pub y: &'a [u8],
    /// Luma row pitch, in bytes.
    pub y_stride: usize,
    /// Interleaved chroma plane.
    pub uv: &'a [u8],
    /// Chroma row pitch, in bytes.
    pub uv_stride: usize,
}

impl Mt2tImage<'_> {
    /// The outcome of validating the image for `size` pixels.
    pub open spec fn spec_validate(&self, size: ImageSize, function: &'static str) -> Result<(), Error> {
        tiled_result(self.y@.len(), self.y_stride, self.uv@.len(), self.uv_stride, size, function, true)
    }

    /// Checks that the image is a source of `size` pixels libyuv can read in bounds.
    pub fn validate(&self, size: ImageSize, function: &'static str) -> (r: Result<(), Error>)
        ensures
            r == self.spec_validate(size, function),
    {
        validate_tiled_nv_src_inner(self.y, self.y_stride, self.uv, self.uv_stride, size, function, true)
    }
}

/// NV12 image (Y plus interleaved UV, 4:2:0).
#[derive(Debug)]
pub struct Nv12Image<'a> {
    /// Luma plane.
    pub y: &'a [u8],
    /// Luma row pitch, in bytes.
    pub y_stride: usize,
    /// Interleaved chroma plane.
    pub uv: &'a [u8],
    /// Chroma row pitch, in bytes.
    pub uv_stride: usize,
}

impl Nv12Image<'_> {
    /// The outcome of validating the image for `size` pixels.
    pub open spec fn spec_validate(&self, size: ImageSize, function: &'static str) -> Result<(), Error> {
        planar2_result(self.y@.len(), self.y_stride, self.uv@.len(), self.uv_stride, size, 2, 2, function, Direction::Source)
    }

    /// Checks that the image is a source of `size` pixels libyuv can read in bounds.
    pub fn validate(&self, size: ImageSize, function: &'static str) -> (r: Result<(), Error>)
        ensures
            r == self.spec_validate(size, function),
    {
        validate_nv_src_inner(self.y, self.y_stride, self.uv, self.uv_stride, size, 2, 2, function)
    }
}

/// NV12 image (Y plus interleaved UV, 4:2:0), writable.
#[derive(Debug)]
pub struct Nv12ImageMut<'a> {
    /// Luma plane.
    pub y: &'a mut [u8],
    /// Luma row pitch, in bytes.
    pub y_stride: usize,
    /// Interleaved chroma plane.
    pub uv: &'a mut [u8],
    /// Chroma row pitch, in bytes.
    pub uv_stride: usize,
}

impl Nv12ImageMut<'_> {
    /// The same image, read-only.
    pub fn as_ref(&self) -> (r: Nv12Image<'_>)
        ensures
            r.y@ == old(self.y)@ && r.y_stride == self.y_stride,
            r.uv@ == old(self.uv)@ && r.uv_stride == self.uv_stride,
    {
        Nv12Image { y: self.y, y_stride: self.y_stride, uv: self.uv, uv_stride: self.uv_stride }
    }

    /// The outcome of validating the image for `size` pixels.
    pub open spec fn spec_validate(&self, size: ImageSize, function: &'static str) -> Result<(), Error> {
        planar2_result(self.y@.len(), self.y_stride, self.uv@.len(), self.uv_stride, size, 2, 2, function, Direction::Destination)
    }

    /// Checks that the image is a destination of `size` pixels libyuv can write in bounds.
    pub fn validate(&self, size: ImageSize, function: &'static str) -> (r: Result<(), Error>)
        ensures
            r == self.spec_validate(size, function),
    {
        validate_nv_dst_inner(self.y, self.y_stride, self.uv, self.uv_stride, size, 2, 2, function)
    }
}

/// NV21 image (Y plus interleaved VU, 4:2:0).
#[derive(Debug)]
pub struct Nv21Image<'a> {
    /// Luma plane.
    pub y: &'a [u8],
    /// Luma row pitch, in bytes.
    pub y_stride: usize,
    /// Interleaved chroma plane.
    pub uv: &'a [u8],
    /// Chroma row pitch, in bytes.
    pub uv_stride: usize,
}

impl Nv21Image<'_> {
    /// The outcome of validating the image for `size` pixels.
    pub open spec fn spec_validate(&self, size: ImageSize, function: &'static str) -> Result<(), Error> {
        planar2_result(self.y@.len(), self.y_stride, self.uv@.len(), self.uv_stride, size, 2, 2, function, Direction::Source)
    }

    /// Checks that the image is a source of `size` pixels libyuv can read in bounds.
    pub fn validate(&self, size: ImageSize, function: &'static str) -> (r: Result<(), Error>)
        ensures
            r == self.spec_validate(size, function),
    {
        validate_nv_src_inner(self.y, self.y_stride, self.uv, self.uv_stride, size, 2, 2, function)
    }
}

/// NV21 image (Y plus interleaved VU, 4:2:0), writable.
#[derive(Debug)]
pub struct Nv21ImageMut<'a> {
    /// Luma plane.
    pub y: &'a mut [u8],
    /// Luma row pitch, in bytes.
    pub y_stride: usize,
    /// Interleaved chroma plane.
    pub uv: &'a mut [u8],
    /// Chroma row pitch, in bytes.
    pub uv_stride: usize,
}

impl Nv21ImageMut<'_> {
    /// The same image, read-only.
    pub fn as_ref(&self) -> (r: Nv21Image<'_>)
        ensures
            r.y@ == old(self.y)@ && r.y_stride == self.y_stride,
            r.uv@ == old(self.uv)@ && r.uv_stride == self.uv_stride,
    {
        Nv21Image { y: self.y, y_stride: self.y_stride, uv: self.uv, uv_stride: self.uv_stride }
    }

    /// The outcome of validating the image for `size` pixels.
    pub open spec fn spec_validate(&self, size: ImageSize, function: &'static str) -> Result<(), Error> {
        planar2_result(self.y@.len(), self.y_stride, self.uv@.len(), self.uv_stride, size, 2, 2, function, Direction::Destination)
    }

    /// Checks that the image is a destination of `size` pixels libyuv can write in bounds.
    pub fn validate(&self, size: ImageSize, function: &'static str) -> (r: Result<(), Error>)
        ensures
            r == self.spec_validate(size, function),
    {
        validate_nv_dst_inner(self.y, self.y_stride, self.uv, self.uv_stride, size, 2, 2, function)
    }
}

/// NV16 image (Y plus interleaved UV, 4:2:2).
#[derive(Debug)]
pub struct Nv16Image<'a> {
    /// Luma plane.
    pub y: &'a [u8],
    /// Luma row pitch, in bytes.
    pub y_stride: usize,
    /// Interleaved chroma plane.
    pub uv: &'a [u8],
    /// Chroma row pitch, in bytes.
    pub uv_stride: usize,
}

impl Nv16Image<'_> {
    /// The outcome of validating the image for `size` pixels.
    pub open spec fn spec_validate(&self, size: ImageSize, function: &'static str) -> Result<(), Error> {
        planar2_result(self.y@.len(), self.y_stride, self.uv@.len(), self.uv_stride, size, 1, 2, function, Direction::Source)
    }

    /// Checks that the image is a source of `size` pixels libyuv can read in bounds.
    pub fn validate(&self, size: ImageSize, function: &'static str) -> (r: Result<(), Error>)
        ensures
            r == self.spec_validate(size, function),
    {
        validate_nv_src_inner(self.y, self.y_stride, self.uv, self.uv_stride, size, 1, 2, function)
    }
}

/// NV16 image (Y plus interleaved UV, 4:2:2), writable.
#[derive(Debug)]
pub struct Nv16ImageMut<'a> {
    /// Luma plane.
    pub y: &'a mut [u8],
    /// Luma row pitch, in bytes.
    pub y_stride: usize,
    /// Interleaved chroma plane.
    pub uv: &'a mut [u8],
    /// Chroma row pitch, in bytes.
    pub uv_stride: usize,
}

impl Nv16ImageMut<'_> {
    /// The same image, read-only.
    pub fn as_ref(&self) -> (r: Nv16Image<'_>)
        ensures
            r.y@ == old(self.y)@ && r.y_stride == self.y_stride,
            r.uv@ == old(self.uv)@ && r.uv_stride == self.uv_stride,
    {
        Nv16Image { y: self.y, y_stride: self.y_stride, uv: self.uv, uv_stride: self.uv_stride }
    }

    /// The outcome of validating the image for `size` pixels.
    pub open spec fn spec_validate(&self, size: ImageSize, function: &'static str) -> Result<(), Error> {
        planar2_result(self.y@.len(), self.y_stride, self.uv@.len(), self.uv_stride, size, 1, 2, function, Direction::Destination)
    }

    /// Checks that the image is a destination of `size` pixels libyuv can write in bounds.
    pub fn validate(&self, size: ImageSize, function: &'static str) -> (r: Result<(), Error>)
        ensures
            r == self.spec_validate(size, function),
    {
        validate_nv_dst_inner(self.y, self.y_stride, self.uv, self.uv_stride, size, 1, 2, function)
    }
}

/// NV24 image (Y plus interleaved UV, 4:4:4).
#[derive(Debug)]
pub struct Nv24Image<'a> {
    /// Luma plane.
    pub y: &'a [u8],
    /// Luma row pitch, in bytes.
    pub y_stride: usize,
    /// Interleaved chroma plane.
    pub uv: &'a [u8],
    /// Chroma row pitch, in bytes.
    pub uv_stride: usize,
}

impl Nv24Image<'_> {
    /// The outcome of validating the image for `size` pixels.
    pub open spec fn spec_validate(&self, size: ImageSize, function: &'static str) -> Result<(), Error> {
        planar2_result(self.y@.len(), self.y_stride, self.uv@.len(), self.uv_stride, size, 1, 1, function, Direction::Source)
    }

    /// Checks that the image is a source of `size` pixels libyuv can read in bounds.
    pub fn validate(&self, size: ImageSize, function: &'static str) -> (r: Result<(), Error>)
        ensures
            r == self.spec_validate(size, function),
    {
        validate_nv_src_inner(self.y, self.y_stride, self.uv, self.uv_stride, size, 1, 1, function)
    }
}

/// NV24 image (Y plus interleaved UV, 4:4:4), writable.
#[derive(Debug)]
pub struct Nv24ImageMut<'a> {
    /// Luma plane.
    pub y: &'a mut [u8],
    /// Luma row pitch, in bytes.
    pub y_stride: usize,
    /// Interleaved chroma plane.
    pub uv: &'a mut [u8],
    /// Chroma row pitch, in bytes.
    pub uv_stride: usize,
}

impl Nv24ImageMut<'_> {
    /// The same image, read-only.
    pub fn as_ref(&self) -> (r: Nv24Image<'_>)
        ensures
            r.y@ == old(self.y)@ && r.y_stride == self.y_stride,
            r.uv@ == old(self.uv)@ && r.uv_stride == self.uv_stride,
    {
        Nv24Image { y: self.y, y_stride: self.y_stride, uv: self.uv, uv_stride: self.uv_stride }
    }

    /// The outcome of validating the image for `size` pixels.
    pub open spec fn spec_validate(&self, size: ImageSize, function: &'static str) -> Result<(), Error> {
        planar2_result(self.y@.len(), self.y_stride, self.uv@.len(), self.uv_stride, size, 1, 1, function, Direction::Destination)
    }

    /// Checks that the image is a destination of `size` pixels libyuv can write in bounds.
    pub fn validate(&self, size: ImageSize, function: &'static str) -> (r: Result<(), Error>)
        ensures
            r == self.spec_validate(size, function),
    {
        validate_nv_dst_inner(self.y, self.y_stride, self.uv, self.uv_stride, size, 1, 1, function)
    }
}

/// P010 image (10-bit Y plus interleaved UV, 4:2:0).
#[derive(Debug)]
pub struct P010Image<'a> {
    /// Luma plane.
    pub y: &'a [u16],
    /// Luma row pitch, in elements.
    pub y_stride: usize,
    /// Interleaved chroma plane.
    pub uv: &'a [u16],
    /// Chroma row pitch, in elements.
    pub uv_stride: usize,
}

impl P010Image<'_> {
    /// The outcome of validating the image for `size` pixels.
    pub open spec fn spec_validate(&self, size: ImageSize, function: &'static str) -> Result<(), Error> {
        planar2_result(self.y@.len(), self.y_stride, self.uv@.len(), self.uv_stride, size, 2, 2, function, Direction::Source)
    }

    /// Checks that the image is a source of `size` pixels libyuv can read in bounds.
    pub fn validate(&self, size: ImageSize, function: &'static str) -> (r: Result<(), Error>)
        ensures
            r == self.spec_validate(size, function),
    {
        validate_nv16_src_inner(self.y, self.y_stride, self.uv, self.uv_stride, size, 2, 2, function)
    }
}

/// P010 image (10-bit Y plus interleaved UV, 4:2:0), writable.
#[derive(Debug)]
pub struct P010ImageMut<'a> {
    /// Luma plane.
    pub y: &'a mut [u16],
    /// Luma row pitch, in elements.
    pub y_stride: usize,
    /// Interleaved chroma plane.
    pub uv: &'a mut [u16],
    /// Chroma row pitch, in elements.
    pub uv_stride: usize,
}

impl P010ImageMut<'_> {
    /// The same image, read-only.
    pub fn as_ref(&self) -> (r: P010Image<'_>)
        ensures
            r.y@ == old(self.y)@ && r.y_stride == self.y_stride,
            r.uv@ == old(self.uv)@ && r.uv_stride == self.uv_stride,
    {
        P010Image { y: self.y, y_stride: self.y_stride, uv: self.uv, uv_stride: self.uv_stride }
    }

    /// The outcome of validating the image for `size` pixels.
    pub open spec fn spec_validate(&self, size: ImageSize, function: &'static str) -> Result<(), Error> {
        planar2_result(self.y@.len(), self.y_stride, self.uv@.len(), self.uv_stride, size, 2, 2, function, Direction::Destination)
    }

    /// Checks that the image is a destination of `size` pixels libyuv can write in bounds.
    pub fn validate(&self, size: ImageSize, function: &'static str) -> (r: Result<(), Error>)
        ensures
            r == self.spec_validate(size, function),
    {
        validate_nv16_dst_inner(self.y, self.y_stride, self.uv, self.uv_stride, size, 2, 2, function)
    }
}

/// P012 image (12-bit Y plus interleaved UV, 4:2:0).
#[derive(Debug)]
pub struct P012Image<'a> {
    /// Luma plane.
    pub y: &'a [u16],
    /// Luma row pitch, in elements.
    pub y_stride: usize,
    /// Interleaved chroma plane.
    pub uv: &'a [u16],
    /// Chroma row pitch, in elements.
    pub uv_stride: usize,
}

impl P012Image<'_> {
    /// The outcome of validating the image for `size` pixels.
    pub open spec fn spec_validate(&self, size: ImageSize, function: &'static str) -> Result<(), Error> {
        planar2_result(self.y@.len(), self.y_stride, self.uv@.len(), self.uv_stride, size, 2, 2, function, Direction::Source)
    }

    /// Checks that the image is a source of `size` pixels libyuv can read in bounds.
    pub fn validate(&self, size: ImageSize, function: &'static str) -> (r: Result<(), Error>)
        ensures
            r == self.spec_validate(size, function),
    {
        validate_nv16_src_inner(self.y, self.y_stride, self.uv, self.uv_stride, size, 2, 2, function)
    }
}

/// P012 image (12-bit Y plus interleaved UV, 4:2:0), writable.
#[derive(Debug)]
pub struct P012ImageMut<'a> {
    /// Luma plane.
    pub y: &'a mut [u16],
    /// Luma row pitch, in elements.
    pub y_stride: usize,
    /// Interleaved chroma plane.
    pub uv: &'a mut [u16],
    /// Chroma row pitch, in elements.
    pub uv_stride: usize,
}

impl P012ImageMut<'_> {
    /// The same image, read-only.
    pub fn as_ref(&self) -> (r: P012Image<'_>)
        ensures
            r.y@ == old(self.y)@ && r.y_stride == self.y_stride,
            r.uv@ == old(self.uv)@ && r.uv_stride == self.uv_stride,
    {
        P012Image { y: self.y, y_stride: self.y_stride, uv: self.uv, uv_stride: self.uv_stride }
    }

    /// The outcome of validating the image for `size` pixels.
    pub open spec fn spec_validate(&self, size: ImageSize, function: &'static str) -> Result<(), Error> {
        planar2_result(self.y@.len(), self.y_stride, self.uv@.len(), self.uv_stride, size, 2, 2, function, Direction::Destination)
    }

    /// Checks that the image is a destination of `size` pixels libyuv can write in bounds.
    pub fn validate(&self, size: ImageSize, function: &'static str) -> (r: Result<(), Error>)
        ensures
            r == self.spec_validate(size, function),
    {
        validate_nv16_dst_inner(self.y, self.y_stride, self.uv, self.uv_stride, size, 2, 2, function)
    }
}

/// P210 image (10-bit Y plus interleaved UV, 4:2:2).
#[derive(Debug)]
pub struct P210Image<'a> {
    /// Luma plane.
    pub y: &'a [u16],
    /// Luma row pitch, in elements.
    pub y_stride: usize,
    /// Interleaved chroma plane.
    pub uv: &'a [u16],
    /// Chroma row pitch, in elements.
    pub uv_stride: usize,
}

impl P210Image<'_> {
    /// The outcome of validating the image for `size` pixels.
    pub open spec fn spec_validate(&self, size: ImageSize, function: &'static str) -> Result<(), Error> {
        planar2_result(self.y@.len(), self.y_stride, self.uv@.len(), self.uv_stride, size, 1, 2, function, Direction::Source)
    }

    /// Checks that the image is a source of `size` pixels libyuv can read in bounds.
    pub fn validate(&self, size: ImageSize, function: &'static str) -> (r: Result<(), Error>)
        ensures
            r == self.spec_validate(size, function),
    {
        validate_nv16_src_inner(self.y, self.y_stride, self.uv, self.uv_stride, size, 1, 2, function)
    }
}

/// P210 image (10-bit Y plus interleaved UV, 4:2:2), writable.
#[derive(Debug)]
pub struct P210ImageMut<'a> {
    /// Luma plane.
    pub y: &'a mut [u16],
    /// Luma row pitch, in elements.
    pub y_stride: usize,
    /// Interleaved chroma plane.
    pub uv: &'a mut [u16],
    /// Chroma row pitch, in elements.
    pub uv_stride: usize,
}

impl P210ImageMut<'_> {
    /// The same image, read-only.
    pub fn as_ref(&self) -> (r: P210Image<'_>)
        ensures
            r.y@ == old(self.y)@ && r.y_stride == self.y_stride,
            r.uv@ == old(self.uv)@ && r.uv_stride == self.uv_stride,
    {
        P210Image { y: self.y, y_stride: self.y_stride, uv: self.uv, uv_stride: self.uv_stride }
    }

    /// The outcome of validating the image for `size` pixels.
    pub open spec fn spec_validate(&self, size: ImageSize, function: &'static str) -> Result<(), Error> {
        planar2_result(self.y@.len(), self.y_stride, self.uv@.len(), self.uv_stride, size, 1, 2, function, Direction::Destination)
    }

    /// Checks that the image is a destination of `size` pixels libyuv can write in bounds.
    pub fn validate(&self, size: ImageSize, function: &'static str) -> (r: Result<(), Error>)
        ensures
            r == self.spec_validate(size, function),
    {
        validate_nv16_dst_inner(self.y, self.y_stride, self.uv, self.uv_stride, size, 1, 2, function)
    }
}

/// P212 image (12-bit Y plus interleaved UV, 4:2:2).
#[derive(Debug)]
pub struct P212Image<'a> {
    /// Luma plane.
    pub y: &'a [u16],
    /// Luma row pitch, in elements.
    pub y_stride: usize,
    /// Interleaved chroma plane.
    pub uv: &'a [u16],
    /// Chroma row pitch, in elements.
    pub uv_stride: usize,
}

impl P212Image<'_> {
    /// The outcome of validating the image for `size` pixels.
    pub open spec fn spec_validate(&self, size: ImageSize, function: &'static str) -> Result<(), Error> {
        planar2_result(self.y@.len(), self.y_stride, self.uv@.len(), self.uv_stride, size, 1, 2, function, Direction::Source)
    }

    /// Checks that the image is a source of `size` pixels libyuv can read in bounds.
    pub fn validate(&self, size: ImageSize, function: &'static str) -> (r: Result<(), Error>)
        ensures
            r == self.spec_validate(size, function),
    {
        validate_nv16_src_inner(self.y, self.y_stride, self.uv, self.uv_stride, size, 1, 2, function)
    }
}

/// P212 image (12-bit Y plus interleaved UV, 4:2:2), writable.
#[derive(Debug)]
pub struct P212ImageMut<'a> {
    /// Luma plane.
    pub y: &'a mut [u16],
    /// Luma row pitch, in elements.
    pub y_stride: usize,
    /// Interleaved chroma plane.
    pub uv: &'a mut [u16],
    /// Chroma row pitch, in elements.
    pub uv_stride: usize,
}

impl P212ImageMut<'_> {
    /// The same image, read-only.
    pub fn as_ref(&self) -> (r: P212Image<'_>)
        ensures
            r.y@ == old(self.y)@ && r.y_stride == self.y_stride,
            r.uv@ == old(self.uv)@ && r.uv_stride == self.uv_stride,
    {
        P212Image { y: self.y, y_stride: self.y_stride, uv: self.uv, uv_stride: self.uv_stride }
    }

    /// The outcome of validating the image for `size` pixels.
    pub open spec fn spec_validate(&self, size: ImageSize, function: &'static str) -> Result<(), Error> {
        planar2_result(self.y@.len(), self.y_stride, self.uv@.len(), self.uv_stride, size, 1, 2, function, Direction::Destination)
    }

    /// Checks that the image is a destination of `size` pixels libyuv can write in bounds.
    pub fn validate(&self, size: ImageSize, function: &'static str) -> (r: Result<(), Error>)
        ensures
            r == self.spec_validate(size, function),
    {
        validate_nv16_dst_inner(self.y, self.y_stride, self.uv, self.uv_stride, size, 1, 2, function)
    }
}

/// P410 image (10-bit Y plus interleaved UV, 4:4:4).
#[derive(Debug)]
pub struct P410Image<'a> {
    /// Luma plane.
    pub y: &'a [u16],
    /// Luma row pitch, in elements.
    pub y_stride: usize,
    /// Interleaved chroma plane.
    pub uv: &'a [u16],
    /// Chroma row pitch, in elements.
    pub uv_stride: usize,
}

impl P410Image<'_> {
    /// The outcome of validating the image for `size` pixels.
    pub open spec fn spec_validate(&self, size: ImageSize, function: &'static str) -> Result<(), Error> {
        planar2_result(self.y@.len(), self.y_stride, self.uv@.len(), self.uv_stride, size, 1, 1, function, Direction::Source)
    }

    /// Checks that the image is a source of `size` pixels libyuv can read in bounds.
    pub fn validate(&self, size: ImageSize, function: &'static str) -> (r: Result<(), Error>)
        ensures
            r == self.spec_validate(size, function),
    {
        validate_nv16_src_inner(self.y, self.y_stride, self.uv, self.uv_stride, size, 1, 1, function)
    }
}

/// P410 image (10-bit Y plus interleaved UV, 4:4:4), writable.
#[derive(Debug)]
pub struct P410ImageMut<'a> {
    /// Luma plane.
    pub y: &'a mut [u16],
    /// Luma row pitch, in elements.
    pub y_stride: usize,
    /// Interleaved chroma plane.
    pub uv: &'a mut [u16],
    /// Chroma row pitch, in elements.
    pub uv_stride: usize,
}

impl P410ImageMut<'_> {
    /// The same image, read-only.
    pub fn as_ref(&self) -> (r: P410Image<'_>)
        ensures
            r.y@ == old(self.y)@ && r.y_stride == self.y_stride,
            r.uv@ == old(self.uv)@ && r.uv_stride == self.uv_stride,
    {
        P410Image { y: self.y, y_stride: self.y_stride, uv: self.uv, uv_stride: self.uv_stride }
    }

    /// The outcome of validating the image for `size` pixels.
    pub open spec fn spec_validate(&self, size: ImageSize, function: &'static str) -> Result<(), Error> {
        planar2_result(self.y@.len(), self.y_stride, self.uv@.len(), self.uv_stride, size, 1, 1, function, Direction::Destination)
    }

    /// Checks that the image is a destination of `size` pixels libyuv can write in bounds.
    pub fn validate(&self, size: ImageSize, function: &'static str) -> (r: Result<(), Error>)
        ensures
            r == self.spec_validate(size, function),
    {
        validate_nv16_dst_inner(self.y, self.y_stride, self.uv, self.uv_stride, size, 1, 1, function)
    }
}

} // verus!
