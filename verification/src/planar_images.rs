//! Three-plane YUV images: a luma plane and two chroma planes.
use vstd::prelude::*;
use crate::error::Error;
use crate::geometry::ImageSize;
use crate::layout::{Direction, planar3_result, validate_yuv16_dst_inner, validate_yuv16_src_inner, validate_yuv_dst_inner, validate_yuv_src_inner};

verus! {

/// I420 image (YUV 4:2:0, BT.601 limited range).
#[derive(Debug)]
pub struct I420Image<'a> {
    /// Luma plane.
    pub y: &'a [u8],
    /// Luma row pitch, in bytes.
    pub y_stride: usize,
    /// U chroma plane.
    pub u: &'a [u8],
    /// U row pitch, in bytes.
    pub u_stride: usize,
    /// V chroma plane.
    pub v: &'a [u8],
    /// V row pitch, in bytes.
    pub v_stride: usize,
}

impl I420Image<'_> {
    /// The outcome of validating the image for `size` pixels.
    pub open spec fn spec_validate(&self, size: ImageSize, function: &'static str) -> Result<(), Error> {
        planar3_result(
            self.y@.len(), self.y_stride, self.u@.len(), self.u_stride, self.v@.len(), self.v_stride,
            size, 2, 2, function, Direction::Source,
        )
    }

    /// Checks that the image is a source of `size` pixels libyuv can read in bounds.
    pub fn validate(&self, size: ImageSize, function: &'static str) -> (r: Result<(), Error>)
        ensures
            r == self.spec_validate(size, function),
    {
        validate_yuv_src_inner(self.y, self.y_stride, self.u, self.u_stride, self.v, self.v_stride, size, 2, 2, function)
    }
}

/// I420 image (YUV 4:2:0, BT.601 limited range), writable.
#[derive(Debug)]
pub struct I420ImageMut<'a> {
    /// Luma plane.
    pub y: &'a mut [u8],
    /// Luma row pitch, in bytes.
    pub y_stride: usize,
    /// U chroma plane.
    pub u: &'a mut [u8],
    /// U row pitch, in bytes.
    pub u_stride: usize,
    /// V chroma plane.
    pub v: &'a mut [u8],
    /// V row pitch, in bytes.
    pub v_stride: usize,
}

impl I420ImageMut<'_> {
    /// The same image, read-only.
    pub fn as_ref(&self) -> (r: I420Image<'_>)
        ensures
            r.y@ == old(self.y)@ && r.y_stride == self.y_stride,
            r.u@ == old(self.u)@ && r.u_stride == self.u_stride,
            r.v@ == old(self.v)@ && r.v_stride == self.v_stride,
    {
        I420Image { y: self.y, y_stride: self.y_stride, u: self.u, u_stride: self.u_stride, v: self.v, v_stride: self.v_stride }
    }

    /// The outcome of validating the image for `size` pixels.
    pub open spec fn spec_validate(&self, size: ImageSize, function: &'static str) -> Result<(), Error> {
        planar3_result(
            self.y@.len(), self.y_stride, self.u@.len(), self.u_stride, self.v@.len(), self.v_stride,
            size, 2, 2, function, Direction::Destination,
        )
    }

    /// Checks that the image is a destination of `size` pixels libyuv can write in bounds.
    pub fn validate(&self, size: ImageSize, function: &'static str) -> (r: Result<(), Error>)
        ensures
            r == self.spec_validate(size, function),
    {
        validate_yuv_dst_inner(self.y, self.y_stride, self.u, self.u_stride, self.v, self.v_stride, size, 2, 2, function)
    }
}

/// J420 image (YUV 4:2:0, BT.601 full range).
#[derive(Debug)]
pub struct J420Image<'a> {
    /// Luma plane.
    pub y: &'a [u8],
    /// Luma row pitch, in bytes.
    pub y_stride: usize,
    /// U chroma plane.
    pub u: &'a [u8],
    /// U row pitch, in bytes.
    pub u_stride: usize,
    /// V chroma plane.
    pub v: &'a [u8],
    /// V row pitch, in bytes.
    pub v_stride: usize,
}

impl J420Image<'_> {
    /// The outcome of validating the image for `size` pixels.
    pub open spec fn spec_validate(&self, size: ImageSize, function: &'static str) -> Result<(), Error> {
        planar3_result(
            self.y@.len(), self.y_stride, self.u@.len(), self.u_stride, self.v@.len(), self.v_stride,
            size, 2, 2, function, Direction::Source,
        )
    }

    /// Checks that the image is a source of `size` pixels libyuv can read in bounds.
    pub fn validate(&self, size: ImageSize, function: &'static str) -> (r: Result<(), Error>)
        ensures
            r == self.spec_validate(size, function),
    {
        validate_yuv_src_inner(self.y, self.y_stride, self.u, self.u_stride, self.v, self.v_stride, size, 2, 2, function)
    }
}

/// J420 image (YUV 4:2:0, BT.601 full range), writable.
#[derive(Debug)]
pub struct J420ImageMut<'a> {
    /// Luma plane.
    pub y: &'a mut [u8],
    /// Luma row pitch, in bytes.
    pub y_stride: usize,
    /// U chroma plane.
    pub u: &'a mut [u8],
    /// U row pitch, in bytes.
    pub u_stride: usize,
    /// V chroma plane.
    pub v: &'a mut [u8],
    /// V row pitch, in bytes.
    pub v_stride: usize,
}

impl J420ImageMut<'_> {
    /// The same image, read-only.
    pub fn as_ref(&self) -> (r: J420Image<'_>)
        ensures
            r.y@ == old(self.y)@ && r.y_stride == self.y_stride,
            r.u@ == old(self.u)@ && r.u_stride == self.u_stride,
            r.v@ == old(self.v)@ && r.v_stride == self.v_stride,
    {
        J420Image { y: self.y, y_stride: self.y_stride, u: self.u, u_stride: self.u_stride, v: self.v, v_stride: self.v_stride }
    }

    /// The outcome of validating the image for `size` pixels.
    pub open spec fn spec_validate(&self, size: ImageSize, function: &'static str) -> Result<(), Error> {
        planar3_result(
            self.y@.len(), self.y_stride, self.u@.len(), self.u_stride, self.v@.len(), self.v_stride,
            size, 2, 2, function, Direction::Destination,
        )
    }

    /// Checks that the image is a destination of `size` pixels libyuv can write in bounds.
    pub fn validate(&self, size: ImageSize, function: &'static str) -> (r: Result<(), Error>)
        ensures
            r == self.spec_validate(size, function),
    {
        validate_yuv_dst_inner(self.y, self.y_stride, self.u, self.u_stride, self.v, self.v_stride, size, 2, 2, function)
    }
}

/// H420 image (YUV 4:2:0, BT.709 limited range).
#[derive(Debug)]
pub struct H420Image<'a> {
    /// Luma plane.
    pub y: &'a [u8],
    /// Luma row pitch, in bytes.
    pub y_stride: usize,
    /// U chroma plane.
    pub u: &'a [u8],
    /// U row pitch, in bytes.
    pub u_stride: usize,
    /// V chroma plane.
    pub v: &'a [u8],
    /// V row pitch, in bytes.
    pub v_stride: usize,
}

impl H420Image<'_> {
    /// The outcome of validating the image for `size` pixels.
    pub open spec fn spec_validate(&self, size: ImageSize, function: &'static str) -> Result<(), Error> {
        planar3_result(
            self.y@.len(), self.y_stride, self.u@.len(), self.u_stride, self.v@.len(), self.v_stride,
            size, 2, 2, function, Direction::Source,
        )
    }

    /// Checks that the image is a source of `size` pixels libyuv can read in bounds.
    pub fn validate(&self, size: ImageSize, function: &'static str) -> (r: Result<(), Error>)
        ensures
            r == self.spec_validate(size, function),
    {
        validate_yuv_src_inner(self.y, self.y_stride, self.u, self.u_stride, self.v, self.v_stride, size, 2, 2, function)
    }
}

/// H420 image (YUV 4:2:0, BT.709 limited range), writable.
#[derive(Debug)]
pub struct H420ImageMut<'a> {
    /// Luma plane.
    pub y: &'a mut [u8],
    /// Luma row pitch, in bytes.
    pub y_stride: usize,
    /// U chroma plane.
    pub u: &'a mut [u8],
    /// U row pitch, in bytes.
    pub u_stride: usize,
    /// V chroma plane.
    pub v: &'a mut [u8],
    /// V row pitch, in bytes.
    pub v_stride: usize,
}

impl H420ImageMut<'_> {
    /// The same image, read-only.
    pub fn as_ref(&self) -> (r: H420Image<'_>)
        ensures
            r.y@ == old(self.y)@ && r.y_stride == self.y_stride,
            r.u@ == old(self.u)@ && r.u_stride == self.u_stride,
            r.v@ == old(self.v)@ && r.v_stride == self.v_stride,
    {
        H420Image { y: self.y, y_stride: self.y_stride, u: self.u, u_stride: self.u_stride, v: self.v, v_stride: self.v_stride }
    }

    /// The outcome of validating the image for `size` pixels.
    pub open spec fn spec_validate(&self, size: ImageSize, function: &'static str) -> Result<(), Error> {
        planar3_result(
            self.y@.len(), self.y_stride, self.u@.len(), self.u_stride, self.v@.len(), self.v_stride,
            size, 2, 2, function, Direction::Destination,
        )
    }

    /// Checks that the image is a destination of `size` pixels libyuv can write in bounds.
    pub fn validate(&self, size: ImageSize, function: &'static str) -> (r: Result<(), Error>)
        ensures
            r == self.spec_validate(size, function),
    {
        validate_yuv_dst_inner(self.y, self.y_stride, self.u, self.u_stride, self.v, self.v_stride, size, 2, 2, function)
    }
}

/// U420 image (YUV 4:2:0, BT.2020 limited range).
#[derive(Debug)]
pub struct U420Image<'a> {
    /// Luma plane.
    pub y: &'a [u8],
    /// Luma row pitch, in bytes.
    pub y_stride: usize,
    /// U chroma plane.
    pub u: &'a [u8],
    /// U row pitch, in bytes.
    pub u_stride: usize,
    /// V chroma plane.
    pub v: &'a [u8],
    /// V row pitch, in bytes.
    pub v_stride: usize,
}

impl U420Image<'_> {
    /// The outcome of validating the image for `size` pixels.
    pub open spec fn spec_validate(&self, size: ImageSize, function: &'static str) -> Result<(), Error> {
        planar3_result(
            self.y@.len(), self.y_stride, self.u@.len(), self.u_stride, self.v@.len(), self.v_stride,
            size, 2, 2, function, Direction::Source,
        )
    }

    /// Checks that the image is a source of `size` pixels libyuv can read in bounds.
    pub fn validate(&self, size: ImageSize, function: &'static str) -> (r: Result<(), Error>)
        ensures
            r == self.spec_validate(size, function),
    {
        validate_yuv_src_inner(self.y, self.y_stride, self.u, self.u_stride, self.v, self.v_stride, size, 2, 2, function)
    }
}

/// U420 image (YUV 4:2:0, BT.2020 limited range), writable.
#[derive(Debug)]
pub struct U420ImageMut<'a> {
    /// Luma plane.
    pub y: &'a mut [u8],
    /// Luma row pitch, in bytes.
    pub y_stride: usize,
    /// U chroma plane.
    pub u: &'a mut [u8],
    /// U row pitch, in bytes.
    pub u_stride: usize,
    /// V chroma plane.
    pub v: &'a mut [u8],
    /// V row pitch, in bytes.
    pub v_stride: usize,
}

impl U420ImageMut<'_> {
    /// The same image, read-only.
    pub fn as_ref(&self) -> (r: U420Image<'_>)
        ensures
            r.y@ == old(self.y)@ && r.y_stride == self.y_stride,
            r.u@ == old(self.u)@ && r.u_stride == self.u_stride,
            r.v@ == old(self.v)@ && r.v_stride == self.v_stride,
    {
        U420Image { y: self.y, y_stride: self.y_stride, u: self.u, u_stride: self.u_stride, v: self.v, v_stride: self.v_stride }
    }

    /// The outcome of validating the image for `size` pixels.
    pub open spec fn spec_validate(&self, size: ImageSize, function: &'static str) -> Result<(), Error> {
        planar3_result(
            self.y@.len(), self.y_stride, self.u@.len(), self.u_stride, self.v@.len(), self.v_stride,
            size, 2, 2, function, Direction::Destination,
        )
    }

    /// Checks that the image is a destination of `size` pixels libyuv can write in bounds.
    pub fn validate(&self, size: ImageSize, function: &'static str) -> (r: Result<(), Error>)
        ensures
            r == self.spec_validate(size, function),
    {
        validate_yuv_dst_inner(self.y, self.y_stride, self.u, self.u_stride, self.v, self.v_stride, size, 2, 2, function)
    }
}

/// Android420 image (YUV 4:2:0 as Android cameras deliver it).
#[derive(Debug)]
pub struct Android420Image<'a> {
    /// Luma plane.
    pub y: &'a [u8],
    /// Luma row pitch, in bytes.
    pub y_stride: usize,
    /// U chroma plane.
    pub u: &'a [u8],
    /// U row pitch, in bytes.
    pub u_stride: usize,
    /// V chroma plane.
    pub v: &'a [u8],
    /// V row pitch, in bytes.
    pub v_stride: usize,
}

impl Android420Image<'_> {
    /// The outcome of validating the image for `size` pixels.
    pub open spec fn spec_validate(&self, size: ImageSize, function: &'static str) -> Result<(), Error> {
        planar3_result(
            self.y@.len(), self.y_stride, self.u@.len(), self.u_stride, self.v@.len(), self.v_stride,
            size, 2, 2, function, Direction::Source,
        )
    }

    /// Checks that the image is a source of `size` pixels libyuv can read in bounds.
    pub fn validate(&self, size: ImageSize, function: &'static str) -> (r: Result<(), Error>)
        ensures
            r == self.spec_validate(size, function),
    {
        validate_yuv_src_inner(self.y, self.y_stride, self.u, self.u_stride, self.v, self.v_stride, size, 2, 2, function)
    }
}

/// Android420 image (YUV 4:2:0 as Android cameras deliver it), writable.
#[derive(Debug)]
pub struct Android420ImageMut<'a> {
    /// Luma plane.
    pub y: &'a mut [u8],
    /// Luma row pitch, in bytes.
    pub y_stride: usize,
    /// U chroma plane.
    pub u: &'a mut [u8],
    /// U row pitch, in bytes.
    pub u_stride: usize,
    /// V chroma plane.
    pub v: &'a mut [u8],
    /// V row pitch, in bytes.
    pub v_stride: usize,
}

impl Android420ImageMut<'_> {
    /// The same image, read-only.
    pub fn as_ref(&self) -> (r: Android420Image<'_>)
        ensures
            r.y@ == old(self.y)@ && r.y_stride == self.y_stride,
            r.u@ == old(self.u)@ && r.u_stride == self.u_stride,
            r.v@ == old(self.v)@ && r.v_stride == self.v_stride,
    {
        Android420Image { y: self.y, y_stride: self.y_stride, u: self.u, u_stride: self.u_stride, v: self.v, v_stride: self.v_stride }
    }

    /// The outcome of validating the image for `size` pixels.
    pub open spec fn spec_validate(&self, size: ImageSize, function: &'static str) -> Result<(), Error> {
        planar3_result(
            self.y@.len(), self.y_stride, self.u@.len(), self.u_stride, self.v@.len(), self.v_stride,
            size, 2, 2, function, Direction::Destination,
        )
    }

    /// Checks that the image is a destination of `size` pixels libyuv can write in bounds.
    pub fn validate(&self, size: ImageSize, function: &'static str) -> (r: Result<(), Error>)
        ensures
            r == self.spec_validate(size, function),
    {
        validate_yuv_dst_inner(self.y, self.y_stride, self.u, self.u_stride, self.v, self.v_stride, size, 2, 2, function)
    }
}

/// I422 image (YUV 4:2:2, BT.601 limited range).
#[derive(Debug)]
pub struct I422Image<'a> {
    /// Luma plane.
    pub y: &'a [u8],
    /// Luma row pitch, in bytes.
    pub y_stride: usize,
    /// U chroma plane.
    pub u: &'a [u8],
    /// U row pitch, in bytes.
    pub u_stride: usize,
    /// V chroma plane.
    pub v: &'a [u8],
    /// V row pitch, in bytes.
    pub v_stride: usize,
}

impl I422Image<'_> {
    /// The outcome of validating the image for `size` pixels.
    pub open spec fn spec_validate(&self, size: ImageSize, function: &'static str) -> Result<(), Error> {
        planar3_result(
            self.y@.len(), self.y_stride, self.u@.len(), self.u_stride, self.v@.len(), self.v_stride,
            size, 1, 2, function, Direction::Source,
        )
    }

    /// Checks that the image is a source of `size` pixels libyuv can read in bounds.
    pub fn validate(&self, size: ImageSize, function: &'static str) -> (r: Result<(), Error>)
        ensures
            r == self.spec_validate(size, function),
    {
        validate_yuv_src_inner(self.y, self.y_stride, self.u, self.u_stride, self.v, self.v_stride, size, 1, 2, function)
    }
}

/// I422 image (YUV 4:2:2, BT.601 limited range), writable.
#[derive(Debug)]
pub struct I422ImageMut<'a> {
    /// Luma plane.
    pub y: &'a mut [u8],
    /// Luma row pitch, in bytes.
    pub y_stride: usize,
    /// U chroma plane.
    pub u: &'a mut [u8],
    /// U row pitch, in bytes.
    pub u_stride: usize,
    /// V chroma plane.
    pub v: &'a mut [u8],
    /// V row pitch, in bytes.
    pub v_stride: usize,
}

impl I422ImageMut<'_> {
    /// The same image, read-only.
    pub fn as_ref(&self) -> (r: I422Image<'_>)
        ensures
            r.y@ == old(self.y)@ && r.y_stride == self.y_stride,
            r.u@ == old(self.u)@ && r.u_stride == self.u_stride,
            r.v@ == old(self.v)@ && r.v_stride == self.v_stride,
    {
        I422Image { y: self.y, y_stride: self.y_stride, u: self.u, u_stride: self.u_stride, v: self.v, v_stride: self.v_stride }
    }

    /// The outcome of validating the image for `size` pixels.
    pub open spec fn spec_validate(&self, size: ImageSize, function: &'static str) -> Result<(), Error> {
        planar3_result(
            self.y@.len(), self.y_stride, self.u@.len(), self.u_stride, self.v@.len(), self.v_stride,
            size, 1, 2, function, Direction::Destination,
        )
    }

    /// Checks that the image is a destination of `size` pixels libyuv can write in bounds.
    pub fn validate(&self, size: ImageSize, function: &'static str) -> (r: Result<(), Error>)
        ensures
            r == self.spec_validate(size, function),
    {
        validate_yuv_dst_inner(self.y, self.y_stride, self.u, self.u_stride, self.v, self.v_stride, size, 1, 2, function)
    }
}

/// J422 image (YUV 4:2:2, BT.601 full range).
#[derive(Debug)]
pub struct J422Image<'a> {
    /// Luma plane.
    pub y: &'a [u8],
    /// Luma row pitch, in bytes.
    pub y_stride: usize,
    /// U chroma plane.
    pub u: &'a [u8],
    /// U row pitch, in bytes.
    pub u_stride: usize,
    /// V chroma plane.
    pub v: &'a [u8],
    /// V row pitch, in bytes.
    pub v_stride: usize,
}

impl J422Image<'_> {
    /// The outcome of validating the image for `size` pixels.
    pub open spec fn spec_validate(&self, size: ImageSize, function: &'static str) -> Result<(), Error> {
        planar3_result(
            self.y@.len(), self.y_stride, self.u@.len(), self.u_stride, self.v@.len(), self.v_stride,
            size, 1, 2, function, Direction::Source,
        )
    }

    /// Checks that the image is a source of `size` pixels libyuv can read in bounds.
    pub fn validate(&self, size: ImageSize, function: &'static str) -> (r: Result<(), Error>)
        ensures
            r == self.spec_validate(size, function),
    {
        validate_yuv_src_inner(self.y, self.y_stride, self.u, self.u_stride, self.v, self.v_stride, size, 1, 2, function)
    }
}

/// J422 image (YUV 4:2:2, BT.601 full range), writable.
#[derive(Debug)]
pub struct J422ImageMut<'a> {
    /// Luma plane.
    pub y: &'a mut [u8],
    /// Luma row pitch, in bytes.
    pub y_stride: usize,
    /// U chroma plane.
    pub u: &'a mut [u8],
    /// U row pitch, in bytes.
    pub u_stride: usize,
    /// V chroma plane.
    pub v: &'a mut [u8],
    /// V row pitch, in bytes.
    pub v_stride: usize,
}

impl J422ImageMut<'_> {
    /// The same image, read-only.
    pub fn as_ref(&self) -> (r: J422Image<'_>)
        ensures
            r.y@ == old(self.y)@ && r.y_stride == self.y_stride,
            r.u@ == old(self.u)@ && r.u_stride == self.u_stride,
            r.v@ == old(self.v)@ && r.v_stride == self.v_stride,
    {
        J422Image { y: self.y, y_stride: self.y_stride, u: self.u, u_stride: self.u_stride, v: self.v, v_stride: self.v_stride }
    }

    /// The outcome of validating the image for `size` pixels.
    pub open spec fn spec_validate(&self, size: ImageSize, function: &'static str) -> Result<(), Error> {
        planar3_result(
            self.y@.len(), self.y_stride, self.u@.len(), self.u_stride, self.v@.len(), self.v_stride,
            size, 1, 2, function, Direction::Destination,
        )
    }

    /// Checks that the image is a destination of `size` pixels libyuv can write in bounds.
    pub fn validate(&self, size: ImageSize, function: &'static str) -> (r: Result<(), Error>)
        ensures
            r == self.spec_validate(size, function),
    {
        validate_yuv_dst_inner(self.y, self.y_stride, self.u, self.u_stride, self.v, self.v_stride, size, 1, 2, function)
    }
}

/// H422 image (YUV 4:2:2, BT.709 limited range).
#[derive(Debug)]
pub struct H422Image<'a> {
    /// Luma plane.
    pub y: &'a [u8],
    /// Luma row pitch, in bytes.
    pub y_stride: usize,
    /// U chroma plane.
    pub u: &'a [u8],
    /// U row pitch, in bytes.
    pub u_stride: usize,
    /// V chroma plane.
    pub v: &'a [u8],
    /// V row pitch, in bytes.
    pub v_stride: usize,
}

impl H422Image<'_> {
    /// The outcome of validating the image for `size` pixels.
    pub open spec fn spec_validate(&self, size: ImageSize, function: &'static str) -> Result<(), Error> {
        planar3_result(
            self.y@.len(), self.y_stride, self.u@.len(), self.u_stride, self.v@.len(), self.v_stride,
            size, 1, 2, function, Direction::Source,
        )
    }

    /// Checks that the image is a source of `size` pixels libyuv can read in bounds.
    pub fn validate(&self, size: ImageSize, function: &'static str) -> (r: Result<(), Error>)
        ensures
            r == self.spec_validate(size, function),
    {
        validate_yuv_src_inner(self.y, self.y_stride, self.u, self.u_stride, self.v, self.v_stride, size, 1, 2, function)
    }
}

/// H422 image (YUV 4:2:2, BT.709 limited range), writable.
#[derive(Debug)]
pub struct H422ImageMut<'a> {
    /// Luma plane.
    pub y: &'a mut [u8],
    /// Luma row pitch, in bytes.
    pub y_stride: usize,
    /// U chroma plane.
    pub u: &'a mut [u8],
    /// U row pitch, in bytes.
    pub u_stride: usize,
    /// V chroma plane.
    pub v: &'a mut [u8],
    /// V row pitch, in bytes.
    pub v_stride: usize,
}

impl H422ImageMut<'_> {
    /// The same image, read-only.
    pub fn as_ref(&self) -> (r: H422Image<'_>)
        ensures
            r.y@ == old(self.y)@ && r.y_stride == self.y_stride,
            r.u@ == old(self.u)@ && r.u_stride == self.u_stride,
            r.v@ == old(self.v)@ && r.v_stride == self.v_stride,
    {
        H422Image { y: self.y, y_stride: self.y_stride, u: self.u, u_stride: self.u_stride, v: self.v, v_stride: self.v_stride }
    }

    /// The outcome of validating the image for `size` pixels.
    pub open spec fn spec_validate(&self, size: ImageSize, function: &'static str) -> Result<(), Error> {
        planar3_result(
            self.y@.len(), self.y_stride, self.u@.len(), self.u_stride, self.v@.len(), self.v_stride,
            size, 1, 2, function, Direction::Destination,
        )
    }

    /// Checks that the image is a destination of `size` pixels libyuv can write in bounds.
    pub fn validate(&self, size: ImageSize, function: &'static str) -> (r: Result<(), Error>)
        ensures
            r == self.spec_validate(size, function),
    {
        validate_yuv_dst_inner(self.y, self.y_stride, self.u, self.u_stride, self.v, self.v_stride, size, 1, 2, function)
    }
}

/// U422 image (YUV 4:2:2, BT.2020 limited range).
#[derive(Debug)]
pub struct U422Image<'a> {
    /// Luma plane.
    pub y: &'a [u8],
    /// Luma row pitch, in bytes.
    pub y_stride: usize,
    /// U chroma plane.
    pub u: &'a [u8],
    /// U row pitch, in bytes.
    pub u_stride: usize,
    /// V chroma plane.
    pub v: &'a [u8],
    /// V row pitch, in bytes.
    pub v_stride: usize,
}

impl U422Image<'_> {
    /// The outcome of validating the image for `size` pixels.
    pub open spec fn spec_validate(&self, size: ImageSize, function: &'static str) -> Result<(), Error> {
        planar3_result(
            self.y@.len(), self.y_stride, self.u@.len(), self.u_stride, self.v@.len(), self.v_stride,
            size, 1, 2, function, Direction::Source,
        )
    }

    /// Checks that the image is a source of `size` pixels libyuv can read in bounds.
    pub fn validate(&self, size: ImageSize, function: &'static str) -> (r: Result<(), Error>)
        ensures
            r == self.spec_validate(size, function),
    {
        validate_yuv_src_inner(self.y, self.y_stride, self.u, self.u_stride, self.v, self.v_stride, size, 1, 2, function)
    }
}

/// U422 image (YUV 4:2:2, BT.2020 limited range), writable.
#[derive(Debug)]
pub struct U422ImageMut<'a> {
    /// Luma plane.
    pub y: &'a mut [u8],
    /// Luma row pitch, in bytes.
    pub y_stride: usize,
    /// U chroma plane.
    pub u: &'a mut [u8],
    /// U row pitch, in bytes.
    pub u_stride: usize,
    /// V chroma plane.
    pub v: &'a mut [u8],
    /// V row pitch, in bytes.
    pub v_stride: usize,
}

impl U422ImageMut<'_> {
    /// The same image, read-only.
    pub fn as_ref(&self) -> (r: U422Image<'_>)
        ensures
            r.y@ == old(self.y)@ && r.y_stride == self.y_stride,
            r.u@ == old(self.u)@ && r.u_stride == self.u_stride,
            r.v@ == old(self.v)@ && r.v_stride == self.v_stride,
    {
        U422Image { y: self.y, y_stride: self.y_stride, u: self.u, u_stride: self.u_stride, v: self.v, v_stride: self.v_stride }
    }

    /// The outcome of validating the image for `size` pixels.
    pub open spec fn spec_validate(&self, size: ImageSize, function: &'static str) -> Result<(), Error> {
        planar3_result(
            self.y@.len(), self.y_stride, self.u@.len(), self.u_stride, self.v@.len(), self.v_stride,
            size, 1, 2, function, Direction::Destination,
        )
    }

    /// Checks that the image is a destination of `size` pixels libyuv can write in bounds.
    pub fn validate(&self, size: ImageSize, function: &'static str) -> (r: Result<(), Error>)
        ensures
            r == self.spec_validate(size, function),
    {
        validate_yuv_dst_inner(self.y, self.y_stride, self.u, self.u_stride, self.v, self.v_stride, size, 1, 2, function)
    }
}

/// I444 image (YUV 4:4:4, BT.601 limited range).
#[derive(Debug)]
pub struct I444Image<'a> {
    /// Luma plane.
    pub y: &'a [u8],
    /// Luma row pitch, in bytes.
    pub y_stride: usize,
    /// U chroma plane.
    pub u: &'a [u8],
    /// U row pitch, in bytes.
    pub u_stride: usize,
    /// V chroma plane.
    pub v: &'a [u8],
    /// V row pitch, in bytes.
    pub v_stride: usize,
}

impl I444Image<'_> {
    /// The outcome of validating the image for `size` pixels.
    pub open spec fn spec_validate(&self, size: ImageSize, function: &'static str) -> Result<(), Error> {
        planar3_result(
            self.y@.len(), self.y_stride, self.u@.len(), self.u_stride, self.v@.len(), self.v_stride,
            size, 1, 1, function, Direction::Source,
        )
    }

    /// Checks that the image is a source of `size` pixels libyuv can read in bounds.
    pub fn validate(&self, size: ImageSize, function: &'static str) -> (r: Result<(), Error>)
        ensures
            r == self.spec_validate(size, function),
    {
        validate_yuv_src_inner(self.y, self.y_stride, self.u, self.u_stride, self.v, self.v_stride, size, 1, 1, function)
    }
}

/// I444 image (YUV 4:4:4, BT.601 limited range), writable.
#[derive(Debug)]
pub struct I444ImageMut<'a> {
    /// Luma plane.
    pub y: &'a mut [u8],
    /// Luma row pitch, in bytes.
    pub y_stride: usize,
    /// U chroma plane.
    pub u: &'a mut [u8],
    /// U row pitch, in bytes.
    pub u_stride: usize,
    /// V chroma plane.
    pub v: &'a mut [u8],
    /// V row pitch, in bytes.
    pub v_stride: usize,
}

impl I444ImageMut<'_> {
    /// The same image, read-only.
    pub fn as_ref(&self) -> (r: I444Image<'_>)
        ensures
            r.y@ == old(self.y)@ && r.y_stride == self.y_stride,
            r.u@ == old(self.u)@ && r.u_stride == self.u_stride,
            r.v@ == old(self.v)@ && r.v_stride == self.v_stride,
    {
        I444Image { y: self.y, y_stride: self.y_stride, u: self.u, u_stride: self.u_stride, v: self.v, v_stride: self.v_stride }
    }

    /// The outcome of validating the image for `size` pixels.
    pub open spec fn spec_validate(&self, size: ImageSize, function: &'static str) -> Result<(), Error> {
        planar3_result(
            self.y@.len(), self.y_stride, self.u@.len(), self.u_stride, self.v@.len(), self.v_stride,
            size, 1, 1, function, Direction::Destination,
        )
    }

    /// Checks that the image is a destination of `size` pixels libyuv can write in bounds.
    pub fn validate(&self, size: ImageSize, function: &'static str) -> (r: Result<(), Error>)
        ensures
            r == self.spec_validate(size, function),
    {
        validate_yuv_dst_inner(self.y, self.y_stride, self.u, self.u_stride, self.v, self.v_stride, size, 1, 1, function)
    }
}

/// J444 image (YUV 4:4:4, BT.601 full range).
#[derive(Debug)]
pub struct J444Image<'a> {
    /// Luma plane.
    pub y: &'a [u8],
    /// Luma row pitch, in bytes.
    pub y_stride: usize,
    /// U chroma plane.
    pub u: &'a [u8],
    /// U row pitch, in bytes.
    pub u_stride: usize,
    /// V chroma plane.
    pub v: &'a [u8],
    /// V row pitch, in bytes.
    pub v_stride: usize,
}

impl J444Image<'_> {
    /// The outcome of validating the image for `size` pixels.
    pub open spec fn spec_validate(&self, size: ImageSize, function: &'static str) -> Result<(), Error> {
        planar3_result(
            self.y@.len(), self.y_stride, self.u@.len(), self.u_stride, self.v@.len(), self.v_stride,
            size, 1, 1, function, Direction::Source,
        )
    }

    /// Checks that the image is a source of `size` pixels libyuv can read in bounds.
    pub fn validate(&self, size: ImageSize, function: &'static str) -> (r: Result<(), Error>)
        ensures
            r == self.spec_validate(size, function),
    {
        validate_yuv_src_inner(self.y, self.y_stride, self.u, self.u_stride, self.v, self.v_stride, size, 1, 1, function)
    }
}

/// J444 image (YUV 4:4:4, BT.601 full range), writable.
#[derive(Debug)]
pub struct J444ImageMut<'a> {
    /// Luma plane.
    pub y: &'a mut [u8],
    /// Luma row pitch, in bytes.
    pub y_stride: usize,
    /// U chroma plane.
    pub u: &'a mut [u8],
    /// U row pitch, in bytes.
    pub u_stride: usize,
    /// V chroma plane.
    pub v: &'a mut [u8],
    /// V row pitch, in bytes.
    pub v_stride: usize,
}

impl J444ImageMut<'_> {
    /// The same image, read-only.
    pub fn as_ref(&self) -> (r: J444Image<'_>)
        ensures
            r.y@ == old(self.y)@ && r.y_stride == self.y_stride,
            r.u@ == old(self.u)@ && r.u_stride == self.u_stride,
            r.v@ == old(self.v)@ && r.v_stride == self.v_stride,
    {
        J444Image { y: self.y, y_stride: self.y_stride, u: self.u, u_stride: self.u_stride, v: self.v, v_stride: self.v_stride }
    }

    /// The outcome of validating the image for `size` pixels.
    pub open spec fn spec_validate(&self, size: ImageSize, function: &'static str) -> Result<(), Error> {
        planar3_result(
            self.y@.len(), self.y_stride, self.u@.len(), self.u_stride, self.v@.len(), self.v_stride,
            size, 1, 1, function, Direction::Destination,
        )
    }

    /// Checks that the image is a destination of `size` pixels libyuv can write in bounds.
    pub fn validate(&self, size: ImageSize, function: &'static str) -> (r: Result<(), Error>)
        ensures
            r == self.spec_validate(size, function),
    {
        validate_yuv_dst_inner(self.y, self.y_stride, self.u, self.u_stride, self.v, self.v_stride, size, 1, 1, function)
    }
}

/// H444 image (YUV 4:4:4, BT.709 limited range).
#[derive(Debug)]
pub struct H444Image<'a> {
    /// Luma plane.
    pub y: &'a [u8],
    /// Luma row pitch, in bytes.
    pub y_stride: usize,
    /// U chroma plane.
    pub u: &'a [u8],
    /// U row pitch, in bytes.
    pub u_stride: usize,
    /// V chroma plane.
    pub v: &'a [u8],
    /// V row pitch, in bytes.
    pub v_stride: usize,
}

impl H444Image<'_> {
    /// The outcome of validating the image for `size` pixels.
    pub open spec fn spec_validate(&self, size: ImageSize, function: &'static str) -> Result<(), Error> {
        planar3_result(
            self.y@.len(), self.y_stride, self.u@.len(), self.u_stride, self.v@.len(), self.v_stride,
            size, 1, 1, function, Direction::Source,
        )
    }

    /// Checks that the image is a source of `size` pixels libyuv can read in bounds.
    pub fn validate(&self, size: ImageSize, function: &'static str) -> (r: Result<(), Error>)
        ensures
            r == self.spec_validate(size, function),
    {
        validate_yuv_src_inner(self.y, self.y_stride, self.u, self.u_stride, self.v, self.v_stride, size, 1, 1, function)
    }
}

/// H444 image (YUV 4:4:4, BT.709 limited range), writable.
#[derive(Debug)]
pub struct H444ImageMut<'a> {
    /// Luma plane.
    pub y: &'a mut [u8],
    /// Luma row pitch, in bytes.
    pub y_stride: usize,
    /// U chroma plane.
    pub u: &'a mut [u8],
    /// U row pitch, in bytes.
    pub u_stride: usize,
    /// V chroma plane.
    pub v: &'a mut [u8],
    /// V row pitch, in bytes.
    pub v_stride: usize,
}

impl H444ImageMut<'_> {
    /// The same image, read-only.
    pub fn as_ref(&self) -> (r: H444Image<'_>)
        ensures
            r.y@ == old(self.y)@ && r.y_stride == self.y_stride,
            r.u@ == old(self.u)@ && r.u_stride == self.u_stride,
            r.v@ == old(self.v)@ && r.v_stride == self.v_stride,
    {
        H444Image { y: self.y, y_stride: self.y_stride, u: self.u, u_stride: self.u_stride, v: self.v, v_stride: self.v_stride }
    }

    /// The outcome of validating the image for `size` pixels.
    pub open spec fn spec_validate(&self, size: ImageSize, function: &'static str) -> Result<(), Error> {
        planar3_result(
            self.y@.len(), self.y_stride, self.u@.len(), self.u_stride, self.v@.len(), self.v_stride,
            size, 1, 1, function, Direction::Destination,
        )
    }

    /// Checks that the image is a destination of `size` pixels libyuv can write in bounds.
    pub fn validate(&self, size: ImageSize, function: &'static str) -> (r: Result<(), Error>)
        ensures
            r == self.spec_validate(size, function),
    {
        validate_yuv_dst_inner(self.y, self.y_stride, self.u, self.u_stride, self.v, self.v_stride, size, 1, 1, function)
    }
}

/// U444 image (YUV 4:4:4, BT.2020 limited range).
#[derive(Debug)]
pub struct U444Image<'a> {
    /// Luma plane.
    pub y: &'a [u8],
    /// Luma row pitch, in bytes.
    pub y_stride: usize,
    /// U chroma plane.
    pub u: &'a [u8],
    /// U row pitch, in bytes.
    pub u_stride: usize,
    /// V chroma plane.
    pub v: &'a [u8],
    /// V row pitch, in bytes.
    pub v_stride: usize,
}

impl U444Image<'_> {
    /// The outcome of validating the image for `size` pixels.
    pub open spec fn spec_validate(&self, size: ImageSize, function: &'static str) -> Result<(), Error> {
        planar3_result(
            self.y@.len(), self.y_stride, self.u@.len(), self.u_stride, self.v@.len(), self.v_stride,
            size, 1, 1, function, Direction::Source,
        )
    }

    /// Checks that the image is a source of `size` pixels libyuv can read in bounds.
    pub fn validate(&self, size: ImageSize, function: &'static str) -> (r: Result<(), Error>)
        ensures
            r == self.spec_validate(size, function),
    {
        validate_yuv_src_inner(self.y, self.y_stride, self.u, self.u_stride, self.v, self.v_stride, size, 1, 1, function)
    }
}

/// U444 image (YUV 4:4:4, BT.2020 limited range), writable.
#[derive(Debug)]
pub struct U444ImageMut<'a> {
    /// Luma plane.
    pub y: &'a mut [u8],
    /// Luma row pitch, in bytes.
    pub y_stride: usize,
    /// U chroma plane.
    pub u: &'a mut [u8],
    /// U row pitch, in bytes.
    pub u_stride: usize,
    /// V chroma plane.
    pub v: &'a mut [u8],
    /// V row pitch, in bytes.
    pub v_stride: usize,
}

impl U444ImageMut<'_> {
    /// The same image, read-only.
    pub fn as_ref(&self) -> (r: U444Image<'_>)
        ensures
            r.y@ == old(self.y)@ && r.y_stride == self.y_stride,
            r.u@ == old(self.u)@ && r.u_stride == self.u_stride,
            r.v@ == old(self.v)@ && r.v_stride == self.v_stride,
    {
        U444Image { y: self.y, y_stride: self.y_stride, u: self.u, u_stride: self.u_stride, v: self.v, v_stride: self.v_stride }
    }

    /// The outcome of validating the image for `size` pixels.
    pub open spec fn spec_validate(&self, size: ImageSize, function: &'static str) -> Result<(), Error> {
        planar3_result(
            self.y@.len(), self.y_stride, self.u@.len(), self.u_stride, self.v@.len(), self.v_stride,
            size, 1, 1, function, Direction::Destination,
        )
    }

    /// Checks that the image is a destination of `size` pixels libyuv can write in bounds.
    pub fn validate(&self, size: ImageSize, function: &'static str) -> (r: Result<(), Error>)
        ensures
            r == self.spec_validate(size, function),
    {
        validate_yuv_dst_inner(self.y, self.y_stride, self.u, self.u_stride, self.v, self.v_stride, size, 1, 1, function)
    }
}

/// I010 image (10-bit YUV 4:2:0).
#[derive(Debug)]
pub struct I010Image<'a> {
    /// Luma plane.
    pub y: &'a [u16],
    /// Luma row pitch, in elements.
    pub y_stride: usize,
    /// U chroma plane.
    pub u: &'a [u16],
    /// U row pitch, in elements.
    pub u_stride: usize,
    /// V chroma plane.
    pub v: &'a [u16],
    /// V row pitch, in elements.
    pub v_stride: usize,
}

impl I010Image<'_> {
    /// The outcome of validating the image for `size` pixels.
    pub open spec fn spec_validate(&self, size: ImageSize, function: &'static str) -> Result<(), Error> {
        planar3_result(
            self.y@.len(), self.y_stride, self.u@.len(), self.u_stride, self.v@.len(), self.v_stride,
            size, 2, 2, function, Direction::Source,
        )
    }

    /// Checks that the image is a source of `size` pixels libyuv can read in bounds.
    pub fn validate(&self, size: ImageSize, function: &'static str) -> (r: Result<(), Error>)
        ensures
            r == self.spec_validate(size, function),
    {
        validate_yuv16_src_inner(self.y, self.y_stride, self.u, self.u_stride, self.v, self.v_stride, size, 2, 2, function)
    }
}

/// I010 image (10-bit YUV 4:2:0), writable.
#[derive(Debug)]
pub struct I010ImageMut<'a> {
    /// Luma plane.
    pub y: &'a mut [u16],
    /// Luma row pitch, in elements.
    pub y_stride: usize,
    /// U chroma plane.
    pub u: &'a mut [u16],
    /// U row pitch, in elements.
    pub u_stride: usize,
    /// V chroma plane.
    pub v: &'a mut [u16],
    /// V row pitch, in elements.
    pub v_stride: usize,
}

impl I010ImageMut<'_> {
    /// The same image, read-only.
    pub fn as_ref(&self) -> (r: I010Image<'_>)
        ensures
            r.y@ == old(self.y)@ && r.y_stride == self.y_stride,
            r.u@ == old(self.u)@ && r.u_stride == self.u_stride,
            r.v@ == old(self.v)@ && r.v_stride == self.v_stride,
    {
        I010Image { y: self.y, y_stride: self.y_stride, u: self.u, u_stride: self.u_stride, v: self.v, v_stride: self.v_stride }
    }

    /// The outcome of validating the image for `size` pixels.
    pub open spec fn spec_validate(&self, size: ImageSize, function: &'static str) -> Result<(), Error> {
        planar3_result(
            self.y@.len(), self.y_stride, self.u@.len(), self.u_stride, self.v@.len(), self.v_stride,
            size, 2, 2, function, Direction::Destination,
        )
    }

    /// Checks that the image is a destination of `size` pixels libyuv can write in bounds.
    pub fn validate(&self, size: ImageSize, function: &'static str) -> (r: Result<(), Error>)
        ensures
            r == self.spec_validate(size, function),
    {
        validate_yuv16_dst_inner(self.y, self.y_stride, self.u, self.u_stride, self.v, self.v_stride, size, 2, 2, function)
    }
}

/// I012 image (12-bit YUV 4:2:0).
#[derive(Debug)]
pub struct I012Image<'a> {
    /// Luma plane.
    pub y: &'a [u16],
    /// Luma row pitch, in elements.
    pub y_stride: usize,
    /// U chroma plane.
    pub u: &'a [u16],
    /// U row pitch, in elements.
    pub u_stride: usize,
    /// V chroma plane.
    pub v: &'a [u16],
    /// V row pitch, in elements.
    pub v_stride: usize,
}

impl I012Image<'_> {
    /// The outcome of validating the image for `size` pixels.
    pub open spec fn spec_validate(&self, size: ImageSize, function: &'static str) -> Result<(), Error> {
        planar3_result(
            self.y@.len(), self.y_stride, self.u@.len(), self.u_stride, self.v@.len(), self.v_stride,
            size, 2, 2, function, Direction::Source,
        )
    }

    /// Checks that the image is a source of `size` pixels libyuv can read in bounds.
    pub fn validate(&self, size: ImageSize, function: &'static str) -> (r: Result<(), Error>)
        ensures
            r == self.spec_validate(size, function),
    {
        validate_yuv16_src_inner(self.y, self.y_stride, self.u, self.u_stride, self.v, self.v_stride, size, 2, 2, function)
    }
}

/// I012 image (12-bit YUV 4:2:0), writable.
#[derive(Debug)]
pub struct I012ImageMut<'a> {
    /// Luma plane.
    pub y: &'a mut [u16],
    /// Luma row pitch, in elements.
    pub y_stride: usize,
    /// U chroma plane.
    pub u: &'a mut [u16],
    /// U row pitch, in elements.
    pub u_stride: usize,
    /// V chroma plane.
    pub v: &'a mut [u16],
    /// V row pitch, in elements.
    pub v_stride: usize,
}

impl I012ImageMut<'_> {
    /// The same image, read-only.
    pub fn as_ref(&self) -> (r: I012Image<'_>)
        ensures
            r.y@ == old(self.y)@ && r.y_stride == self.y_stride,
            r.u@ == old(self.u)@ && r.u_stride == self.u_stride,
            r.v@ == old(self.v)@ && r.v_stride == self.v_stride,
    {
        I012Image { y: self.y, y_stride: self.y_stride, u: self.u, u_stride: self.u_stride, v: self.v, v_stride: self.v_stride }
    }

    /// The outcome of validating the image for `size` pixels.
    pub open spec fn spec_validate(&self, size: ImageSize, function: &'static str) -> Result<(), Error> {
        planar3_result(
            self.y@.len(), self.y_stride, self.u@.len(), self.u_stride, self.v@.len(), self.v_stride,
            size, 2, 2, function, Direction::Destination,
        )
    }

    /// Checks that the image is a destination of `size` pixels libyuv can write in bounds.
    pub fn validate(&self, size: ImageSize, function: &'static str) -> (r: Result<(), Error>)
        ensures
            r == self.spec_validate(size, function),
    {
        validate_yuv16_dst_inner(self.y, self.y_stride, self.u, self.u_stride, self.v, self.v_stride, size, 2, 2, function)
    }
}

/// H010 image (10-bit YUV 4:2:0, BT.709).
#[derive(Debug)]
pub struct H010Image<'a> {
    /// Luma plane.
    pub y: &'a [u16],
    /// Luma row pitch, in elements.
    pub y_stride: usize,
    /// U chroma plane.
    pub u: &'a [u16],
    /// U row pitch, in elements.
    pub u_stride: usize,
    /// V chroma plane.
    pub v: &'a [u16],
    /// V row pitch, in elements.
    pub v_stride: usize,
}

impl H010Image<'_> {
    /// The outcome of validating the image for `size` pixels.
    pub open spec fn spec_validate(&self, size: ImageSize, function: &'static str) -> Result<(), Error> {
        planar3_result(
            self.y@.len(), self.y_stride, self.u@.len(), self.u_stride, self.v@.len(), self.v_stride,
            size, 2, 2, function, Direction::Source,
        )
    }

    /// Checks that the image is a source of `size` pixels libyuv can read in bounds.
    pub fn validate(&self, size: ImageSize, function: &'static str) -> (r: Result<(), Error>)
        ensures
            r == self.spec_validate(size, function),
    {
        validate_yuv16_src_inner(self.y, self.y_stride, self.u, self.u_stride, self.v, self.v_stride, size, 2, 2, function)
    }
}

/// H010 image (10-bit YUV 4:2:0, BT.709), writable.
#[derive(Debug)]
pub struct H010ImageMut<'a> {
    /// Luma plane.
    pub y: &'a mut [u16],
    /// Luma row pitch, in elements.
    pub y_stride: usize,
    /// U chroma plane.
    pub u: &'a mut [u16],
    /// U row pitch, in elements.
    pub u_stride: usize,
    /// V chroma plane.
    pub v: &'a mut [u16],
    /// V row pitch, in elements.
    pub v_stride: usize,
}

impl H010ImageMut<'_> {
    /// The same image, read-only.
    pub fn as_ref(&self) -> (r: H010Image<'_>)
        ensures
            r.y@ == old(self.y)@ && r.y_stride == self.y_stride,
            r.u@ == old(self.u)@ && r.u_stride == self.u_stride,
            r.v@ == old(self.v)@ && r.v_stride == self.v_stride,
    {
        H010Image { y: self.y, y_stride: self.y_stride, u: self.u, u_stride: self.u_stride, v: self.v, v_stride: self.v_stride }
    }

    /// The outcome of validating the image for `size` pixels.
    pub open spec fn spec_validate(&self, size: ImageSize, function: &'static str) -> Result<(), Error> {
        planar3_result(
            self.y@.len(), self.y_stride, self.u@.len(), self.u_stride, self.v@.len(), self.v_stride,
            size, 2, 2, function, Direction::Destination,
        )
    }

    /// Checks that the image is a destination of `size` pixels libyuv can write in bounds.
    pub fn validate(&self, size: ImageSize, function: &'static str) -> (r: Result<(), Error>)
        ensures
            r == self.spec_validate(size, function),
    {
        validate_yuv16_dst_inner(self.y, self.y_stride, self.u, self.u_stride, self.v, self.v_stride, size, 2, 2, function)
    }
}

/// U010 image (10-bit YUV 4:2:0, BT.2020).
#[derive(Debug)]
pub struct U010Image<'a> {
    /// Luma plane.
    pub y: &'a [u16],
    /// Luma row pitch, in elements.
    pub y_stride: usize,
    /// U chroma plane.
    pub u: &'a [u16],
    /// U row pitch, in elements.
    pub u_stride: usize,
    /// V chroma plane.
    pub v: &'a [u16],
    /// V row pitch, in elements.
    pub v_stride: usize,
}

impl U010Image<'_> {
    /// The outcome of validating the image for `size` pixels.
    pub open spec fn spec_validate(&self, size: ImageSize, function: &'static str) -> Result<(), Error> {
        planar3_result(
            self.y@.len(), self.y_stride, self.u@.len(), self.u_stride, self.v@.len(), self.v_stride,
            size, 2, 2, function, Direction::Source,
        )
    }

    /// Checks that the image is a source of `size` pixels libyuv can read in bounds.
    pub fn validate(&self, size: ImageSize, function: &'static str) -> (r: Result<(), Error>)
        ensures
            r == self.spec_validate(size, function),
    {
        validate_yuv16_src_inner(self.y, self.y_stride, self.u, self.u_stride, self.v, self.v_stride, size, 2, 2, function)
    }
}

/// U010 image (10-bit YUV 4:2:0, BT.2020), writable.
#[derive(Debug)]
pub struct U010ImageMut<'a> {
    /// Luma plane.
    pub y: &'a mut [u16],
    /// Luma row pitch, in elements.
    pub y_stride: usize,
    /// U chroma plane.
    pub u: &'a mut [u16],
    /// U row pitch, in elements.
    pub u_stride: usize,
    /// V chroma plane.
    pub v: &'a mut [u16],
    /// V row pitch, in elements.
    pub v_stride: usize,
}

impl U010ImageMut<'_> {
    /// The same image, read-only.
    pub fn as_ref(&self) -> (r: U010Image<'_>)
        ensures
            r.y@ == old(self.y)@ && r.y_stride == self.y_stride,
            r.u@ == old(self.u)@ && r.u_stride == self.u_stride,
            r.v@ == old(self.v)@ && r.v_stride == self.v_stride,
    {
        U010Image { y: self.y, y_stride: self.y_stride, u: self.u, u_stride: self.u_stride, v: self.v, v_stride: self.v_stride }
    }

    /// The outcome of validating the image for `size` pixels.
    pub open spec fn spec_validate(&self, size: ImageSize, function: &'static str) -> Result<(), Error> {
        planar3_result(
            self.y@.len(), self.y_stride, self.u@.len(), self.u_stride, self.v@.len(), self.v_stride,
            size, 2, 2, function, Direction::Destination,
        )
    }

    /// Checks that the image is a destination of `size` pixels libyuv can write in bounds.
    pub fn validate(&self, size: ImageSize, function: &'static str) -> (r: Result<(), Error>)
        ensures
            r == self.spec_validate(size, function),
    {
        validate_yuv16_dst_inner(self.y, self.y_stride, self.u, self.u_stride, self.v, self.v_stride, size, 2, 2, function)
    }
}

/// I210 image (10-bit YUV 4:2:2).
#[derive(Debug)]
pub struct I210Image<'a> {
    /// Luma plane.
    pub y: &'a [u16],
    /// Luma row pitch, in elements.
    pub y_stride: usize,
    /// U chroma plane.
    pub u: &'a [u16],
    /// U row pitch, in elements.
    pub u_stride: usize,
    /// V chroma plane.
    pub v: &'a [u16],
    /// V row pitch, in elements.
    pub v_stride: usize,
}

impl I210Image<'_> {
    /// The outcome of validating the image for `size` pixels.
    pub open spec fn spec_validate(&self, size: ImageSize, function: &'static str) -> Result<(), Error> {
        planar3_result(
            self.y@.len(), self.y_stride, self.u@.len(), self.u_stride, self.v@.len(), self.v_stride,
            size, 1, 2, function, Direction::Source,
        )
    }

    /// Checks that the image is a source of `size` pixels libyuv can read in bounds.
    pub fn validate(&self, size: ImageSize, function: &'static str) -> (r: Result<(), Error>)
        ensures
            r == self.spec_validate(size, function),
    {
        validate_yuv16_src_inner(self.y, self.y_stride, self.u, self.u_stride, self.v, self.v_stride, size, 1, 2, function)
    }
}

/// I210 image (10-bit YUV 4:2:2), writable.
#[derive(Debug)]
pub struct I210ImageMut<'a> {
    /// Luma plane.
    pub y: &'a mut [u16],
    /// Luma row pitch, in elements.
    pub y_stride: usize,
    /// U chroma plane.
    pub u: &'a mut [u16],
    /// U row pitch, in elements.
    pub u_stride: usize,
    /// V chroma plane.
    pub v: &'a mut [u16],
    /// V row pitch, in elements.
    pub v_stride: usize,
}

impl I210ImageMut<'_> {
    /// The same image, read-only.
    pub fn as_ref(&self) -> (r: I210Image<'_>)
        ensures
            r.y@ == old(self.y)@ && r.y_stride == self.y_stride,
            r.u@ == old(self.u)@ && r.u_stride == self.u_stride,
            r.v@ == old(self.v)@ && r.v_stride == self.v_stride,
    {
        I210Image { y: self.y, y_stride: self.y_stride, u: self.u, u_stride: self.u_stride, v: self.v, v_stride: self.v_stride }
    }

    /// The outcome of validating the image for `size` pixels.
    pub open spec fn spec_validate(&self, size: ImageSize, function: &'static str) -> Result<(), Error> {
        planar3_result(
            self.y@.len(), self.y_stride, self.u@.len(), self.u_stride, self.v@.len(), self.v_stride,
            size, 1, 2, function, Direction::Destination,
        )
    }

    /// Checks that the image is a destination of `size` pixels libyuv can write in bounds.
    pub fn validate(&self, size: ImageSize, function: &'static str) -> (r: Result<(), Error>)
        ensures
            r == self.spec_validate(size, function),
    {
        validate_yuv16_dst_inner(self.y, self.y_stride, self.u, self.u_stride, self.v, self.v_stride, size, 1, 2, function)
    }
}

/// I212 image (12-bit YUV 4:2:2).
#[derive(Debug)]
pub struct I212Image<'a> {
    /// Luma plane.
    pub y: &'a [u16],
    /// Luma row pitch, in elements.
    pub y_stride: usize,
    /// U chroma plane.
    pub u: &'a [u16],
    /// U row pitch, in elements.
    pub u_stride: usize,
    /// V chroma plane.
    pub v: &'a [u16],
    /// V row pitch, in elements.
    pub v_stride: usize,
}

impl I212Image<'_> {
    /// The outcome of validating the image for `size` pixels.
    pub open spec fn spec_validate(&self, size: ImageSize, function: &'static str) -> Result<(), Error> {
        planar3_result(
            self.y@.len(), self.y_stride, self.u@.len(), self.u_stride, self.v@.len(), self.v_stride,
            size, 1, 2, function, Direction::Source,
        )
    }

    /// Checks that the image is a source of `size` pixels libyuv can read in bounds.
    pub fn validate(&self, size: ImageSize, function: &'static str) -> (r: Result<(), Error>)
        ensures
            r == self.spec_validate(size, function),
    {
        validate_yuv16_src_inner(self.y, self.y_stride, self.u, self.u_stride, self.v, self.v_stride, size, 1, 2, function)
    }
}

/// I212 image (12-bit YUV 4:2:2), writable.
#[derive(Debug)]
pub struct I212ImageMut<'a> {
    /// Luma plane.
    pub y: &'a mut [u16],
    /// Luma row pitch, in elements.
    pub y_stride: usize,
    /// U chroma plane.
    pub u: &'a mut [u16],
    /// U row pitch, in elements.
    pub u_stride: usize,
    /// V chroma plane.
    pub v: &'a mut [u16],
    /// V row pitch, in elements.
    pub v_stride: usize,
}

impl I212ImageMut<'_> {
    /// The same image, read-only.
    pub fn as_ref(&self) -> (r: I212Image<'_>)
        ensures
            r.y@ == old(self.y)@ && r.y_stride == self.y_stride,
            r.u@ == old(self.u)@ && r.u_stride == self.u_stride,
            r.v@ == old(self.v)@ && r.v_stride == self.v_stride,
    {
        I212Image { y: self.y, y_stride: self.y_stride, u: self.u, u_stride: self.u_stride, v: self.v, v_stride: self.v_stride }
    }

    /// The outcome of validating the image for `size` pixels.
    pub open spec fn spec_validate(&self, size: ImageSize, function: &'static str) -> Result<(), Error> {
        planar3_result(
            self.y@.len(), self.y_stride, self.u@.len(), self.u_stride, self.v@.len(), self.v_stride,
            size, 1, 2, function, Direction::Destination,
        )
    }

    /// Checks that the image is a destination of `size` pixels libyuv can write in bounds.
    pub fn validate(&self, size: ImageSize, function: &'static str) -> (r: Result<(), Error>)
        ensures
            r == self.spec_validate(size, function),
    {
        validate_yuv16_dst_inner(self.y, self.y_stride, self.u, self.u_stride, self.v, self.v_stride, size, 1, 2, function)
    }
}

/// H210 image (10-bit YUV 4:2:2, BT.709).
#[derive(Debug)]
pub struct H210Image<'a> {
    /// Luma plane.
    pub y: &'a [u16],
    /// Luma row pitch, in elements.
    pub y_stride: usize,
    /// U chroma plane.
    pub u: &'a [u16],
    /// U row pitch, in elements.
    pub u_stride: usize,
    /// V chroma plane.
    pub v: &'a [u16],
    /// V row pitch, in elements.
    pub v_stride: usize,
}

impl H210Image<'_> {
    /// The outcome of validating the image for `size` pixels.
    pub open spec fn spec_validate(&self, size: ImageSize, function: &'static str) -> Result<(), Error> {
        planar3_result(
            self.y@.len(), self.y_stride, self.u@.len(), self.u_stride, self.v@.len(), self.v_stride,
            size, 1, 2, function, Direction::Source,
        )
    }

    /// Checks that the image is a source of `size` pixels libyuv can read in bounds.
    pub fn validate(&self, size: ImageSize, function: &'static str) -> (r: Result<(), Error>)
        ensures
            r == self.spec_validate(size, function),
    {
        validate_yuv16_src_inner(self.y, self.y_stride, self.u, self.u_stride, self.v, self.v_stride, size, 1, 2, function)
    }
}

/// H210 image (10-bit YUV 4:2:2, BT.709), writable.
#[derive(Debug)]
pub struct H210ImageMut<'a> {
    /// Luma plane.
    pub y: &'a mut [u16],
    /// Luma row pitch, in elements.
    pub y_stride: usize,
    /// U chroma plane.
    pub u: &'a mut [u16],
    /// U row pitch, in elements.
    pub u_stride: usize,
    /// V chroma plane.
    pub v: &'a mut [u16],
    /// V row pitch, in elements.
    pub v_stride: usize,
}

impl H210ImageMut<'_> {
    /// The same image, read-only.
    pub fn as_ref(&self) -> (r: H210Image<'_>)
        ensures
            r.y@ == old(self.y)@ && r.y_stride == self.y_stride,
            r.u@ == old(self.u)@ && r.u_stride == self.u_stride,
            r.v@ == old(self.v)@ && r.v_stride == self.v_stride,
    {
        H210Image { y: self.y, y_stride: self.y_stride, u: self.u, u_stride: self.u_stride, v: self.v, v_stride: self.v_stride }
    }

    /// The outcome of validating the image for `size` pixels.
    pub open spec fn spec_validate(&self, size: ImageSize, function: &'static str) -> Result<(), Error> {
        planar3_result(
            self.y@.len(), self.y_stride, self.u@.len(), self.u_stride, self.v@.len(), self.v_stride,
            size, 1, 2, function, Direction::Destination,
        )
    }

    /// Checks that the image is a destination of `size` pixels libyuv can write in bounds.
    pub fn validate(&self, size: ImageSize, function: &'static str) -> (r: Result<(), Error>)
        ensures
            r == self.spec_validate(size, function),
    {
        validate_yuv16_dst_inner(self.y, self.y_stride, self.u, self.u_stride, self.v, self.v_stride, size, 1, 2, function)
    }
}

/// U210 image (10-bit YUV 4:2:2, BT.2020).
#[derive(Debug)]
pub struct U210Image<'a> {
    /// Luma plane.
    pub y: &'a [u16],
    /// Luma row pitch, in elements.
    pub y_stride: usize,
    /// U chroma plane.
    pub u: &'a [u16],
    /// U row pitch, in elements.
    pub u_stride: usize,
    /// V chroma plane.
    pub v: &'a [u16],
    /// V row pitch, in elements.
    pub v_stride: usize,
}

impl U210Image<'_> {
    /// The outcome of validating the image for `size` pixels.
    pub open spec fn spec_validate(&self, size: ImageSize, function: &'static str) -> Result<(), Error> {
        planar3_result(
            self.y@.len(), self.y_stride, self.u@.len(), self.u_stride, self.v@.len(), self.v_stride,
            size, 1, 2, function, Direction::Source,
        )
    }

    /// Checks that the image is a source of `size` pixels libyuv can read in bounds.
    pub fn validate(&self, size: ImageSize, function: &'static str) -> (r: Result<(), Error>)
        ensures
            r == self.spec_validate(size, function),
    {
        validate_yuv16_src_inner(self.y, self.y_stride, self.u, self.u_stride, self.v, self.v_stride, size, 1, 2, function)
    }
}

/// U210 image (10-bit YUV 4:2:2, BT.2020), writable.
#[derive(Debug)]
pub struct U210ImageMut<'a> {
    /// Luma plane.
    pub y: &'a mut [u16],
    /// Luma row pitch, in elements.
    pub y_stride: usize,
    /// U chroma plane.
    pub u: &'a mut [u16],
    /// U row pitch, in elements.
    pub u_stride: usize,
    /// V chroma plane.
    pub v: &'a mut [u16],
    /// V row pitch, in elements.
    pub v_stride: usize,
}

impl U210ImageMut<'_> {
    /// The same image, read-only.
    pub fn as_ref(&self) -> (r: U210Image<'_>)
        ensures
            r.y@ == old(self.y)@ && r.y_stride == self.y_stride,
            r.u@ == old(self.u)@ && r.u_stride == self.u_stride,
            r.v@ == old(self.v)@ && r.v_stride == self.v_stride,
    {
        U210Image { y: self.y, y_stride: self.y_stride, u: self.u, u_stride: self.u_stride, v: self.v, v_stride: self.v_stride }
    }

    /// The outcome of validating the image for `size` pixels.
    pub open spec fn spec_validate(&self, size: ImageSize, function: &'static str) -> Result<(), Error> {
        planar3_result(
            self.y@.len(), self.y_stride, self.u@.len(), self.u_stride, self.v@.len(), self.v_stride,
            size, 1, 2, function, Direction::Destination,
        )
    }

    /// Checks that the image is a destination of `size` pixels libyuv can write in bounds.
    pub fn validate(&self, size: ImageSize, function: &'static str) -> (r: Result<(), Error>)
        ensures
            r == self.spec_validate(size, function),
    {
        validate_yuv16_dst_inner(self.y, self.y_stride, self.u, self.u_stride, self.v, self.v_stride, size, 1, 2, function)
    }
}

/// I410 image (10-bit YUV 4:4:4).
#[derive(Debug)]
pub struct I410Image<'a> {
    /// Luma plane.
    pub y: &'a [u16],
    /// Luma row pitch, in elements.
    pub y_stride: usize,
    /// U chroma plane.
    pub u: &'a [u16],
    /// U row pitch, in elements.
    pub u_stride: usize,
    /// V chroma plane.
    pub v: &'a [u16],
    /// V row pitch, in elements.
    pub v_stride: usize,
}

impl I410Image<'_> {
    /// The outcome of validating the image for `size` pixels.
    pub open spec fn spec_validate(&self, size: ImageSize, function: &'static str) -> Result<(), Error> {
        planar3_result(
            self.y@.len(), self.y_stride, self.u@.len(), self.u_stride, self.v@.len(), self.v_stride,
            size, 1, 1, function, Direction::Source,
        )
    }

    /// Checks that the image is a source of `size` pixels libyuv can read in bounds.
    pub fn validate(&self, size: ImageSize, function: &'static str) -> (r: Result<(), Error>)
        ensures
            r == self.spec_validate(size, function),
    {
        validate_yuv16_src_inner(self.y, self.y_stride, self.u, self.u_stride, self.v, self.v_stride, size, 1, 1, function)
    }
}

/// I410 image (10-bit YUV 4:4:4), writable.
#[derive(Debug)]
pub struct I410ImageMut<'a> {
    /// Luma plane.
    pub y: &'a mut [u16],
    /// Luma row pitch, in elements.
    pub y_stride: usize,
    /// U chroma plane.
    pub u: &'a mut [u16],
    /// U row pitch, in elements.
    pub u_stride: usize,
    /// V chroma plane.
    pub v: &'a mut [u16],
    /// V row pitch, in elements.
    pub v_stride: usize,
}

impl I410ImageMut<'_> {
    /// The same image, read-only.
    pub fn as_ref(&self) -> (r: I410Image<'_>)
        ensures
            r.y@ == old(self.y)@ && r.y_stride == self.y_stride,
            r.u@ == old(self.u)@ && r.u_stride == self.u_stride,
            r.v@ == old(self.v)@ && r.v_stride == self.v_stride,
    {
        I410Image { y: self.y, y_stride: self.y_stride, u: self.u, u_stride: self.u_stride, v: self.v, v_stride: self.v_stride }
    }

    /// The outcome of validating the image for `size` pixels.
    pub open spec fn spec_validate(&self, size: ImageSize, function: &'static str) -> Result<(), Error> {
        planar3_result(
            self.y@.len(), self.y_stride, self.u@.len(), self.u_stride, self.v@.len(), self.v_stride,
            size, 1, 1, function, Direction::Destination,
        )
    }

    /// Checks that the image is a destination of `size` pixels libyuv can write in bounds.
    pub fn validate(&self, size: ImageSize, function: &'static str) -> (r: Result<(), Error>)
        ensures
            r == self.spec_validate(size, function),
    {
        validate_yuv16_dst_inner(self.y, self.y_stride, self.u, self.u_stride, self.v, self.v_stride, size, 1, 1, function)
    }
}

/// I412 image (12-bit YUV 4:4:4).
#[derive(Debug)]
pub struct I412Image<'a> {
    /// Luma plane.
    pub y: &'a [u16],
    /// Luma row pitch, in elements.
    pub y_stride: usize,
    /// U chroma plane.
    pub u: &'a [u16],
    /// U row pitch, in elements.
    pub u_stride: usize,
    /// V chroma plane.
    pub v: &'a [u16],
    /// V row pitch, in elements.
    pub v_stride: usize,
}

impl I412Image<'_> {
    /// The outcome of validating the image for `size` pixels.
    pub open spec fn spec_validate(&self, size: ImageSize, function: &'static str) -> Result<(), Error> {
        planar3_result(
            self.y@.len(), self.y_stride, self.u@.len(), self.u_stride, self.v@.len(), self.v_stride,
            size, 1, 1, function, Direction::Source,
        )
    }

    /// Checks that the image is a source of `size` pixels libyuv can read in bounds.
    pub fn validate(&self, size: ImageSize, function: &'static str) -> (r: Result<(), Error>)
        ensures
            r == self.spec_validate(size, function),
    {
        validate_yuv16_src_inner(self.y, self.y_stride, self.u, self.u_stride, self.v, self.v_stride, size, 1, 1, function)
    }
}

/// I412 image (12-bit YUV 4:4:4), writable.
#[derive(Debug)]
pub struct I412ImageMut<'a> {
    /// Luma plane.
    pub y: &'a mut [u16],
    /// Luma row pitch, in elements.
    pub y_stride: usize,
    /// U chroma plane.
    pub u: &'a mut [u16],
    /// U row pitch, in elements.
    pub u_stride: usize,
    /// V chroma plane.
    pub v: &'a mut [u16],
    /// V row pitch, in elements.
    pub v_stride: usize,
}

impl I412ImageMut<'_> {
    /// The same image, read-only.
    pub fn as_ref(&self) -> (r: I412Image<'_>)
        ensures
            r.y@ == old(self.y)@ && r.y_stride == self.y_stride,
            r.u@ == old(self.u)@ && r.u_stride == self.u_stride,
            r.v@ == old(self.v)@ && r.v_stride == self.v_stride,
    {
        I412Image { y: self.y, y_stride: self.y_stride, u: self.u, u_stride: self.u_stride, v: self.v, v_stride: self.v_stride }
    }

    /// The outcome of validating the image for `size` pixels.
    pub open spec fn spec_validate(&self, size: ImageSize, function: &'static str) -> Result<(), Error> {
        planar3_result(
            self.y@.len(), self.y_stride, self.u@.len(), self.u_stride, self.v@.len(), self.v_stride,
            size, 1, 1, function, Direction::Destination,
        )
    }

    /// Checks that the image is a destination of `size` pixels libyuv can write in bounds.
    pub fn validate(&self, size: ImageSize, function: &'static str) -> (r: Result<(), Error>)
        ensures
            r == self.spec_validate(size, function),
    {
        validate_yuv16_dst_inner(self.y, self.y_stride, self.u, self.u_stride, self.v, self.v_stride, size, 1, 1, function)
    }
}

} // verus!
