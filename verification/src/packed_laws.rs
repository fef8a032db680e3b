//! Laws of the single-plane image types (luma only and packed pixels): for
//! each format, which layouts its validation accepts, stated with its bytes
//! or samples per pixel.
use vstd::prelude::*;
use crate::geometry::ImageSize;
use crate::layout::{Direction, Unit, luma_result, packed_result};
use crate::packed_images::{
    Ab30Image, Ab30ImageMut, Ab64Image, Ab64ImageMut, AbgrImage, AbgrImageMut, Ar30Image, Ar30ImageMut, Ar64Image, Ar64ImageMut, Argb1555Image, Argb1555ImageMut, Argb4444Image, Argb4444ImageMut, ArgbImage, ArgbImageMut, AyuvImage, AyuvImageMut, BgraImage, BgraImageMut, I400Image, I400ImageMut, J400Image, J400ImageMut, RawImage, RawImageMut, Rgb24Image, Rgb24ImageMut, Rgb565Image, Rgb565ImageMut, RgbaImage, RgbaImageMut, UyvyImage, UyvyImageMut, Yuv24Image, Yuv24ImageMut, Yuy2Image, Yuy2ImageMut,
};
use crate::safety::{dims_fit, plane_holds};

verus! {

/// An I400 source (luma only) of `size` pixels is accepted exactly when every
/// dimension and stride is a C `int` and the plane holds `height` rows of
/// `width` bytes; a refusal is the first failing check, worded for a source.
pub proof fn law_i400_image_layout(img: I400Image, size: ImageSize, function: &'static str)
    ensures
        img.spec_validate(size, function) is Ok <==> {
            &&& dims_fit(size)
            &&& plane_holds(img.y@.len(), img.y_stride, size.width as int, size.height as int)
        },
        img.spec_validate(size, function) == luma_result(img.y@.len(), img.y_stride, size, function, Direction::Source),
{
    assert(img.y.len() == img.y@.len());
}

/// An I400 destination (luma only) of `size` pixels is accepted exactly when every
/// dimension and stride is a C `int` and the plane holds `height` rows of
/// `width` bytes; a refusal is the first failing check, worded for a destination.
pub proof fn law_i400_image_mut_layout(img: I400ImageMut, size: ImageSize, function: &'static str)
    ensures
        img.spec_validate(size, function) is Ok <==> {
            &&& dims_fit(size)
            &&& plane_holds(old(img.y)@.len(), img.y_stride, size.width as int, size.height as int)
        },
        img.spec_validate(size, function) == luma_result(old(img.y)@.len(), img.y_stride, size, function, Direction::Destination),
{
    assert(img.y.len() == img.y@.len());
}

/// An J400 source (luma only) of `size` pixels is accepted exactly when every
/// dimension and stride is a C `int` and the plane holds `height` rows of
/// `width` bytes; a refusal is the first failing check, worded for a source.
pub proof fn law_j400_image_layout(img: J400Image, size: ImageSize, function: &'static str)
    ensures
        img.spec_validate(size, function) is Ok <==> {
            &&& dims_fit(size)
            &&& plane_holds(img.y@.len(), img.y_stride, size.width as int, size.height as int)
        },
        img.spec_validate(size, function) == luma_result(img.y@.len(), img.y_stride, size, function, Direction::Source),
{
    assert(img.y.len() == img.y@.len());
}

/// An J400 destination (luma only) of `size` pixels is accepted exactly when every
/// dimension and stride is a C `int` and the plane holds `height` rows of
/// `width` bytes; a refusal is the first failing check, worded for a destination.
pub proof fn law_j400_image_mut_layout(img: J400ImageMut, size: ImageSize, function: &'static str)
    ensures
        img.spec_validate(size, function) is Ok <==> {
            &&& dims_fit(size)
            &&& plane_holds(old(img.y)@.len(), img.y_stride, size.width as int, size.height as int)
        },
        img.spec_validate(size, function) == luma_result(old(img.y)@.len(), img.y_stride, size, function, Direction::Destination),
{
    assert(img.y.len() == img.y@.len());
}

/// An ARGB source (4 bytes per pixel) of `size` pixels is accepted
/// exactly when every dimension and the stride is a C `int` and the buffer
/// holds `height` rows of `4 * width` bytes; a refusal is the first
/// failing check, worded for a source.
pub proof fn law_argb_image_layout(img: ArgbImage, size: ImageSize, function: &'static str)
    ensures
        img.spec_validate(size, function) is Ok <==> {
            &&& dims_fit(size)
            &&& plane_holds(img.data@.len(), img.stride, 4 * size.width as int, size.height as int)
        },
        img.spec_validate(size, function) == packed_result(img.data@.len(), img.stride, size, 4, Unit::Byte, function, Direction::Source),
{
    assert(img.data.len() == img.data@.len());
}

/// An ARGB destination (4 bytes per pixel) of `size` pixels is accepted
/// exactly when every dimension and the stride is a C `int` and the buffer
/// holds `height` rows of `4 * width` bytes; a refusal is the first
/// failing check, worded for a destination.
pub proof fn law_argb_image_mut_layout(img: ArgbImageMut, size: ImageSize, function: &'static str)
    ensures
        img.spec_validate(size, function) is Ok <==> {
            &&& dims_fit(size)
            &&& plane_holds(old(img.data)@.len(), img.stride, 4 * size.width as int, size.height as int)
        },
        img.spec_validate(size, function) == packed_result(old(img.data)@.len(), img.stride, size, 4, Unit::Byte, function, Direction::Destination),
{
    assert(img.data.len() == img.data@.len());
}

/// An ABGR source (4 bytes per pixel) of `size` pixels is accepted
/// exactly when every dimension and the stride is a C `int` and the buffer
/// holds `height` rows of `4 * width` bytes; a refusal is the first
/// failing check, worded for a source.
pub proof fn law_abgr_image_layout(img: AbgrImage, size: ImageSize, function: &'static str)
    ensures
        img.spec_validate(size, function) is Ok <==> {
            &&& dims_fit(size)
            &&& plane_holds(img.data@.len(), img.stride, 4 * size.width as int, size.height as int)
        },
        img.spec_validate(size, function) == packed_result(img.data@.len(), img.stride, size, 4, Unit::Byte, function, Direction::Source),
{
    assert(img.data.len() == img.data@.len());
}

/// An ABGR destination (4 bytes per pixel) of `size` pixels is accepted
/// exactly when every dimension and the stride is a C `int` and the buffer
/// holds `height` rows of `4 * width` bytes; a refusal is the first
/// failing check, worded for a destination.
pub proof fn law_abgr_image_mut_layout(img: AbgrImageMut, size: ImageSize, function: &'static str)
    ensures
        img.spec_validate(size, function) is Ok <==> {
            &&& dims_fit(size)
            &&& plane_holds(old(img.data)@.len(), img.stride, 4 * size.width as int, size.height as int)
        },
        img.spec_validate(size, function) == packed_result(old(img.data)@.len(), img.stride, size, 4, Unit::Byte, function, Direction::Destination),
{
    assert(img.data.len() == img.data@.len());
}

/// A RGBA source (4 bytes per pixel) of `size` pixels is accepted
/// exactly when every dimension and the stride is a C `int` and the buffer
/// holds `height` rows of `4 * width` bytes; a refusal is the first
/// failing check, worded for a source.
pub proof fn law_rgba_image_layout(img: RgbaImage, size: ImageSize, function: &'static str)
    ensures
        img.spec_validate(size, function) is Ok <==> {
            &&& dims_fit(size)
            &&& plane_holds(img.data@.len(), img.stride, 4 * size.width as int, size.height as int)
        },
        img.spec_validate(size, function) == packed_result(img.data@.len(), img.stride, size, 4, Unit::Byte, function, Direction::Source),
{
    assert(img.data.len() == img.data@.len());
}

/// A RGBA destination (4 bytes per pixel) of `size` pixels is accepted
/// exactly when every dimension and the stride is a C `int` and the buffer
/// holds `height` rows of `4 * width` bytes; a refusal is the first
/// failing check, worded for a destination.
pub proof fn law_rgba_image_mut_layout(img: RgbaImageMut, size: ImageSize, function: &'static str)
    ensures
        img.spec_validate(size, function) is Ok <==> {
            &&& dims_fit(size)
            &&& plane_holds(old(img.data)@.len(), img.stride, 4 * size.width as int, size.height as int)
        },
        img.spec_validate(size, function) == packed_result(old(img.data)@.len(), img.stride, size, 4, Unit::Byte, function, Direction::Destination),
{
    assert(img.data.len() == img.data@.len());
}

/// A BGRA source (4 bytes per pixel) of `size` pixels is accepted
/// exactly when every dimension and the stride is a C `int` and the buffer
/// holds `height` rows of `4 * width` bytes; a refusal is the first
/// failing check, worded for a source.
pub proof fn law_bgra_image_layout(img: BgraImage, size: ImageSize, function: &'static str)
    ensures
        img.spec_validate(size, function) is Ok <==> {
            &&& dims_fit(size)
            &&& plane_holds(img.data@.len(), img.stride, 4 * size.width as int, size.height as int)
        },
        img.spec_validate(size, function) == packed_result(img.data@.len(), img.stride, size, 4, Unit::Byte, function, Direction::Source),
{
    assert(img.data.len() == img.data@.len());
}

/// A BGRA destination (4 bytes per pixel) of `size` pixels is accepted
/// exactly when every dimension and the stride is a C `int` and the buffer
/// holds `height` rows of `4 * width` bytes; a refusal is the first
/// failing check, worded for a destination.
pub proof fn law_bgra_image_mut_layout(img: BgraImageMut, size: ImageSize, function: &'static str)
    ensures
        img.spec_validate(size, function) is Ok <==> {
            &&& dims_fit(size)
            &&& plane_holds(old(img.data)@.len(), img.stride, 4 * size.width as int, size.height as int)
        },
        img.spec_validate(size, function) == packed_result(old(img.data)@.len(), img.stride, size, 4, Unit::Byte, function, Direction::Destination),
{
    assert(img.data.len() == img.data@.len());
}

/// An AR30 source (4 bytes per pixel) of `size` pixels is accepted
/// exactly when every dimension and the stride is a C `int` and the buffer
/// holds `height` rows of `4 * width` bytes; a refusal is the first
/// failing check, worded for a source.
pub proof fn law_ar30_image_layout(img: Ar30Image, size: ImageSize, function: &'static str)
    ensures
        img.spec_validate(size, function) is Ok <==> {
            &&& dims_fit(size)
            &&& plane_holds(img.data@.len(), img.stride, 4 * size.width as int, size.height as int)
        },
        img.spec_validate(size, function) == packed_result(img.data@.len(), img.stride, size, 4, Unit::Byte, function, Direction::Source),
{
    assert(img.data.len() == img.data@.len());
}

/// An AR30 destination (4 bytes per pixel) of `size` pixels is accepted
/// exactly when every dimension and the stride is a C `int` and the buffer
/// holds `height` rows of `4 * width` bytes; a refusal is the first
/// failing check, worded for a destination.
pub proof fn law_ar30_image_mut_layout(img: Ar30ImageMut, size: ImageSize, function: &'static str)
    ensures
        img.spec_validate(size, function) is Ok <==> {
            &&& dims_fit(size)
            &&& plane_holds(old(img.data)@.len(), img.stride, 4 * size.width as int, size.height as int)
        },
        img.spec_validate(size, function) == packed_result(old(img.data)@.len(), img.stride, size, 4, Unit::Byte, function, Direction::Destination),
{
    assert(img.data.len() == img.data@.len());
}

/// An AB30 source (4 bytes per pixel) of `size` pixels is accepted
/// exactly when every dimension and the stride is a C `int` and the buffer
/// holds `height` rows of `4 * width` bytes; a refusal is the first
/// failing check, worded for a source.
pub proof fn law_ab30_image_layout(img: Ab30Image, size: ImageSize, function: &'static str)
    ensures
        img.spec_validate(size, function) is Ok <==> {
            &&& dims_fit(size)
            &&& plane_holds(img.data@.len(), img.stride, 4 * size.width as int, size.height as int)
        },
        img.spec_validate(size, function) == packed_result(img.data@.len(), img.stride, size, 4, Unit::Byte, function, Direction::Source),
{
    assert(img.data.len() == img.data@.len());
}

/// An AB30 destination (4 bytes per pixel) of `size` pixels is accepted
/// exactly when every dimension and the stride is a C `int` and the buffer
/// holds `height` rows of `4 * width` bytes; a refusal is the first
/// failing check, worded for a destination.
pub proof fn law_ab30_image_mut_layout(img: Ab30ImageMut, size: ImageSize, function: &'static str)
    ensures
        img.spec_validate(size, function) is Ok <==> {
            &&& dims_fit(size)
            &&& plane_holds(old(img.data)@.len(), img.stride, 4 * size.width as int, size.height as int)
        },
        img.spec_validate(size, function) == packed_result(old(img.data)@.len(), img.stride, size, 4, Unit::Byte, function, Direction::Destination),
{
    assert(img.data.len() == img.data@.len());
}

/// An AYUV source (4 bytes per pixel) of `size` pixels is accepted
/// exactly when every dimension and the stride is a C `int` and the buffer
/// holds `height` rows of `4 * width` bytes; a refusal is the first
/// failing check, worded for a source.
pub proof fn law_ayuv_image_layout(img: AyuvImage, size: ImageSize, function: &'static str)
    ensures
        img.spec_validate(size, function) is Ok <==> {
            &&& dims_fit(size)
            &&& plane_holds(img.data@.len(), img.stride, 4 * size.width as int, size.height as int)
        },
        img.spec_validate(size, function) == packed_result(img.data@.len(), img.stride, size, 4, Unit::Byte, function, Direction::Source),
{
    assert(img.data.len() == img.data@.len());
}

/// An AYUV destination (4 bytes per pixel) of `size` pixels is accepted
/// exactly when every dimension and the stride is a C `int` and the buffer
/// holds `height` rows of `4 * width` bytes; a refusal is the first
/// failing check, worded for a destination.
pub proof fn law_ayuv_image_mut_layout(img: AyuvImageMut, size: ImageSize, function: &'static str)
    ensures
        img.spec_validate(size, function) is Ok <==> {
            &&& dims_fit(size)
            &&& plane_holds(old(img.data)@.len(), img.stride, 4 * size.width as int, size.height as int)
        },
        img.spec_validate(size, function) == packed_result(old(img.data)@.len(), img.stride, size, 4, Unit::Byte, function, Direction::Destination),
{
    assert(img.data.len() == img.data@.len());
}

/// A RGB24 source (3 bytes per pixel) of `size` pixels is accepted
/// exactly when every dimension and the stride is a C `int` and the buffer
/// holds `height` rows of `3 * width` bytes; a refusal is the first
/// failing check, worded for a source.
pub proof fn law_rgb24_image_layout(img: Rgb24Image, size: ImageSize, function: &'static str)
    ensures
        img.spec_validate(size, function) is Ok <==> {
            &&& dims_fit(size)
            &&& plane_holds(img.data@.len(), img.stride, 3 * size.width as int, size.height as int)
        },
        img.spec_validate(size, function) == packed_result(img.data@.len(), img.stride, size, 3, Unit::Byte, function, Direction::Source),
{
    assert(img.data.len() == img.data@.len());
}

/// A RGB24 destination (3 bytes per pixel) of `size` pixels is accepted
/// exactly when every dimension and the stride is a C `int` and the buffer
/// holds `height` rows of `3 * width` bytes; a refusal is the first
/// failing check, worded for a destination.
pub proof fn law_rgb24_image_mut_layout(img: Rgb24ImageMut, size: ImageSize, function: &'static str)
    ensures
        img.spec_validate(size, function) is Ok <==> {
            &&& dims_fit(size)
            &&& plane_holds(old(img.data)@.len(), img.stride, 3 * size.width as int, size.height as int)
        },
        img.spec_validate(size, function) == packed_result(old(img.data)@.len(), img.stride, size, 3, Unit::Byte, function, Direction::Destination),
{
    assert(img.data.len() == img.data@.len());
}

/// A RAW source (3 bytes per pixel) of `size` pixels is accepted
/// exactly when every dimension and the stride is a C `int` and the buffer
/// holds `height` rows of `3 * width` bytes; a refusal is the first
/// failing check, worded for a source.
pub proof fn law_raw_image_layout(img: RawImage, size: ImageSize, function: &'static str)
    ensures
        img.spec_validate(size, function) is Ok <==> {
            &&& dims_fit(size)
            &&& plane_holds(img.data@.len(), img.stride, 3 * size.width as int, size.height as int)
        },
        img.spec_validate(size, function) == packed_result(img.data@.len(), img.stride, size, 3, Unit::Byte, function, Direction::Source),
{
    assert(img.data.len() == img.data@.len());
}

/// A RAW destination (3 bytes per pixel) of `size` pixels is accepted
/// exactly when every dimension and the stride is a C `int` and the buffer
/// holds `height` rows of `3 * width` bytes; a refusal is the first
/// failing check, worded for a destination.
pub proof fn law_raw_image_mut_layout(img: RawImageMut, size: ImageSize, function: &'static str)
    ensures
        img.spec_validate(size, function) is Ok <==> {
            &&& dims_fit(size)
            &&& plane_holds(old(img.data)@.len(), img.stride, 3 * size.width as int, size.height as int)
        },
        img.spec_validate(size, function) == packed_result(old(img.data)@.len(), img.stride, size, 3, Unit::Byte, function, Direction::Destination),
{
    assert(img.data.len() == img.data@.len());
}

/// A YUV24 source (3 bytes per pixel) of `size` pixels is accepted
/// exactly when every dimension and the stride is a C `int` and the buffer
/// holds `height` rows of `3 * width` bytes; a refusal is the first
/// failing check, worded for a source.
pub proof fn law_yuv24_image_layout(img: Yuv24Image, size: ImageSize, function: &'static str)
    ensures
        img.spec_validate(size, function) is Ok <==> {
            &&& dims_fit(size)
            &&& plane_holds(img.data@.len(), img.stride, 3 * size.width as int, size.height as int)
        },
        img.spec_validate(size, function) == packed_result(img.data@.len(), img.stride, size, 3, Unit::Byte, function, Direction::Source),
{
    assert(img.data.len() == img.data@.len());
}

/// A YUV24 destination (3 bytes per pixel) of `size` pixels is accepted
/// exactly when every dimension and the stride is a C `int` and the buffer
/// holds `height` rows of `3 * width` bytes; a refusal is the first
/// failing check, worded for a destination.
pub proof fn law_yuv24_image_mut_layout(img: Yuv24ImageMut, size: ImageSize, function: &'static str)
    ensures
        img.spec_validate(size, function) is Ok <==> {
            &&& dims_fit(size)
            &&& plane_holds(old(img.data)@.len(), img.stride, 3 * size.width as int, size.height as int)
        },
        img.spec_validate(size, function) == packed_result(old(img.data)@.len(), img.stride, size, 3, Unit::Byte, function, Direction::Destination),
{
    assert(img.data.len() == img.data@.len());
}

/// A RGB565 source (2 bytes per pixel) of `size` pixels is accepted
/// exactly when every dimension and the stride is a C `int` and the buffer
/// holds `height` rows of `2 * width` bytes; a refusal is the first
/// failing check, worded for a source.
pub proof fn law_rgb565_image_layout(img: Rgb565Image, size: ImageSize, function: &'static str)
    ensures
        img.spec_validate(size, function) is Ok <==> {
            &&& dims_fit(size)
            &&& plane_holds(img.data@.len(), img.stride, 2 * size.width as int, size.height as int)
        },
        img.spec_validate(size, function) == packed_result(img.data@.len(), img.stride, size, 2, Unit::Byte, function, Direction::Source),
{
    assert(img.data.len() == img.data@.len());
}

/// A RGB565 destination (2 bytes per pixel) of `size` pixels is accepted
/// exactly when every dimension and the stride is a C `int` and the buffer
/// holds `height` rows of `2 * width` bytes; a refusal is the first
/// failing check, worded for a destination.
pub proof fn law_rgb565_image_mut_layout(img: Rgb565ImageMut, size: ImageSize, function: &'static str)
    ensures
        img.spec_validate(size, function) is Ok <==> {
            &&& dims_fit(size)
            &&& plane_holds(old(img.data)@.len(), img.stride, 2 * size.width as int, size.height as int)
        },
        img.spec_validate(size, function) == packed_result(old(img.data)@.len(), img.stride, size, 2, Unit::Byte, function, Direction::Destination),
{
    assert(img.data.len() == img.data@.len());
}

/// An ARGB1555 source (2 bytes per pixel) of `size` pixels is accepted
/// exactly when every dimension and the stride is a C `int` and the buffer
/// holds `height` rows of `2 * width` bytes; a refusal is the first
/// failing check, worded for a source.
pub proof fn law_argb1555_image_layout(img: Argb1555Image, size: ImageSize, function: &'static str)
    ensures
        img.spec_validate(size, function) is Ok <==> {
            &&& dims_fit(size)
            &&& plane_holds(img.data@.len(), img.stride, 2 * size.width as int, size.height as int)
        },
        img.spec_validate(size, function) == packed_result(img.data@.len(), img.stride, size, 2, Unit::Byte, function, Direction::Source),
{
    assert(img.data.len() == img.data@.len());
}

/// An ARGB1555 destination (2 bytes per pixel) of `size` pixels is accepted
/// exactly when every dimension and the stride is a C `int` and the buffer
/// holds `height` rows of `2 * width` bytes; a refusal is the first
/// failing check, worded for a destination.
pub proof fn law_argb1555_image_mut_layout(img: Argb1555ImageMut, size: ImageSize, function: &'static str)
    ensures
        img.spec_validate(size, function) is Ok <==> {
            &&& dims_fit(size)
            &&& plane_holds(old(img.data)@.len(), img.stride, 2 * size.width as int, size.height as int)
        },
        img.spec_validate(size, function) == packed_result(old(img.data)@.len(), img.stride, size, 2, Unit::Byte, function, Direction::Destination),
{
    assert(img.data.len() == img.data@.len());
}

/// An ARGB4444 source (2 bytes per pixel) of `size` pixels is accepted
/// exactly when every dimension and the stride is a C `int` and the buffer
/// holds `height` rows of `2 * width` bytes; a refusal is the first
/// failing check, worded for a source.
pub proof fn law_argb4444_image_layout(img: Argb4444Image, size: ImageSize, function: &'static str)
    ensures
        img.spec_validate(size, function) is Ok <==> {
            &&& dims_fit(size)
            &&& plane_holds(img.data@.len(), img.stride, 2 * size.width as int, size.height as int)
        },
        img.spec_validate(size, function) == packed_result(img.data@.len(), img.stride, size, 2, Unit::Byte, function, Direction::Source),
{
    assert(img.data.len() == img.data@.len());
}

/// An ARGB4444 destination (2 bytes per pixel) of `size` pixels is accepted
/// exactly when every dimension and the stride is a C `int` and the buffer
/// holds `height` rows of `2 * width` bytes; a refusal is the first
/// failing check, worded for a destination.
pub proof fn law_argb4444_image_mut_layout(img: Argb4444ImageMut, size: ImageSize, function: &'static str)
    ensures
        img.spec_validate(size, function) is Ok <==> {
            &&& dims_fit(size)
            &&& plane_holds(old(img.data)@.len(), img.stride, 2 * size.width as int, size.height as int)
        },
        img.spec_validate(size, function) == packed_result(old(img.data)@.len(), img.stride, size, 2, Unit::Byte, function, Direction::Destination),
{
    assert(img.data.len() == img.data@.len());
}

/// A YUY2 source (2 bytes per pixel) of `size` pixels is accepted
/// exactly when every dimension and the stride is a C `int` and the buffer
/// holds `height` rows of `2 * width` bytes; a refusal is the first
/// failing check, worded for a source.
pub proof fn law_yuy2_image_layout(img: Yuy2Image, size: ImageSize, function: &'static str)
    ensures
        img.spec_validate(size, function) is Ok <==> {
            &&& dims_fit(size)
            &&& plane_holds(img.data@.len(), img.stride, 2 * size.width as int, size.height as int)
        },
        img.spec_validate(size, function) == packed_result(img.data@.len(), img.stride, size, 2, Unit::Byte, function, Direction::Source),
{
    assert(img.data.len() == img.data@.len());
}

/// A YUY2 destination (2 bytes per pixel) of `size` pixels is accepted
/// exactly when every dimension and the stride is a C `int` and the buffer
/// holds `height` rows of `2 * width` bytes; a refusal is the first
/// failing check, worded for a destination.
pub proof fn law_yuy2_image_mut_layout(img: Yuy2ImageMut, size: ImageSize, function: &'static str)
    ensures
        img.spec_validate(size, function) is Ok <==> {
            &&& dims_fit(size)
            &&& plane_holds(old(img.data)@.len(), img.stride, 2 * size.width as int, size.height as int)
        },
        img.spec_validate(size, function) == packed_result(old(img.data)@.len(), img.stride, size, 2, Unit::Byte, function, Direction::Destination),
{
    assert(img.data.len() == img.data@.len());
}

/// An UYVY source (2 bytes per pixel) of `size` pixels is accepted
/// exactly when every dimension and the stride is a C `int` and the buffer
/// holds `height` rows of `2 * width` bytes; a refusal is the first
/// failing check, worded for a source.
pub proof fn law_uyvy_image_layout(img: UyvyImage, size: ImageSize, function: &'static str)
    ensures
        img.spec_validate(size, function) is Ok <==> {
            &&& dims_fit(size)
            &&& plane_holds(img.data@.len(), img.stride, 2 * size.width as int, size.height as int)
        },
        img.spec_validate(size, function) == packed_result(img.data@.len(), img.stride, size, 2, Unit::Byte, function, Direction::Source),
{
    assert(img.data.len() == img.data@.len());
}

/// An UYVY destination (2 bytes per pixel) of `size` pixels is accepted
/// exactly when every dimension and the stride is a C `int` and the buffer
/// holds `height` rows of `2 * width` bytes; a refusal is the first
/// failing check, worded for a destination.
pub proof fn law_uyvy_image_mut_layout(img: UyvyImageMut, size: ImageSize, function: &'static str)
    ensures
        img.spec_validate(size, function) is Ok <==> {
            &&& dims_fit(size)
            &&& plane_holds(old(img.data)@.len(), img.stride, 2 * size.width as int, size.height as int)
        },
        img.spec_validate(size, function) == packed_result(old(img.data)@.len(), img.stride, size, 2, Unit::Byte, function, Direction::Destination),
{
    assert(img.data.len() == img.data@.len());
}

/// An AR64 source (4 16-bit samples per pixel) of `size` pixels is accepted
/// exactly when every dimension and the stride is a C `int` and the buffer
/// holds `height` rows of `4 * width` 16-bit samples; a refusal is the first
/// failing check, worded for a source.
pub proof fn law_ar64_image_layout(img: Ar64Image, size: ImageSize, function: &'static str)
    ensures
        img.spec_validate(size, function) is Ok <==> {
            &&& dims_fit(size)
            &&& plane_holds(img.data@.len(), img.stride, 4 * size.width as int, size.height as int)
        },
        img.spec_validate(size, function) == packed_result(img.data@.len(), img.stride, size, 4, Unit::Element, function, Direction::Source),
{
    assert(img.data.len() == img.data@.len());
}

/// An AR64 destination (4 16-bit samples per pixel) of `size` pixels is accepted
/// exactly when every dimension and the stride is a C `int` and the buffer
/// holds `height` rows of `4 * width` 16-bit samples; a refusal is the first
/// failing check, worded for a destination.
pub proof fn law_ar64_image_mut_layout(img: Ar64ImageMut, size: ImageSize, function: &'static str)
    ensures
        img.spec_validate(size, function) is Ok <==> {
            &&& dims_fit(size)
            &&& plane_holds(old(img.data)@.len(), img.stride, 4 * size.width as int, size.height as int)
        },
        img.spec_validate(size, function) == packed_result(old(img.data)@.len(), img.stride, size, 4, Unit::Element, function, Direction::Destination),
{
    assert(img.data.len() == img.data@.len());
}

/// An AB64 source (4 16-bit samples per pixel) of `size` pixels is accepted
/// exactly when every dimension and the stride is a C `int` and the buffer
/// holds `height` rows of `4 * width` 16-bit samples; a refusal is the first
/// failing check, worded for a source.
pub proof fn law_ab64_image_layout(img: Ab64Image, size: ImageSize, function: &'static str)
    ensures
        img.spec_validate(size, function) is Ok <==> {
            &&& dims_fit(size)
            &&& plane_holds(img.data@.len(), img.stride, 4 * size.width as int, size.height as int)
        },
        img.spec_validate(size, function) == packed_result(img.data@.len(), img.stride, size, 4, Unit::Element, function, Direction::Source),
{
    assert(img.data.len() == img.data@.len());
}

/// An AB64 destination (4 16-bit samples per pixel) of `size` pixels is accepted
/// exactly when every dimension and the stride is a C `int` and the buffer
/// holds `height` rows of `4 * width` 16-bit samples; a refusal is the first
/// failing check, worded for a destination.
pub proof fn law_ab64_image_mut_layout(img: Ab64ImageMut, size: ImageSize, function: &'static str)
    ensures
        img.spec_validate(size, function) is Ok <==> {
            &&& dims_fit(size)
            &&& plane_holds(old(img.data)@.len(), img.stride, 4 * size.width as int, size.height as int)
        },
        img.spec_validate(size, function) == packed_result(old(img.data)@.len(), img.stride, size, 4, Unit::Element, function, Direction::Destination),
{
    assert(img.data.len() == img.data@.len());
}

} // verus!
