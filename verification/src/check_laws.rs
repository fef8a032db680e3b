//! Laws of the checks made before the special conversions and comparisons:
//! what each accepts, stated with the plain arithmetic of what libyuv reads or
//! writes.
use vstd::prelude::*;
use crate::alpha::alpha_result;
use crate::android::android420_uv_result;
use crate::checks::fits_c_int;
use crate::compare::{dims_result, frame_ssim_size_result, i420_ssim_size_result, nonempty_result, plane_pair_result};
use crate::error::Error;
use crate::geometry::ImageSize;
use crate::mjpeg::{mjpeg_input_result, mjpeg_size_input_result, mjpeg_size_result};
use crate::packed422::{packed422_dst_result, packed422_src_result, rows_coalesce, y_destination_result};
use crate::safety::{dims_fit, plane_holds, rows_in_bounds};
use crate::semi_planar_images::{Mm21Image, Mt2tImage};

verus! {

/// An alpha plane of at least one row is accepted exactly when its stride is a
/// C `int` covering the width and each of its `height` rows of `width` bytes,
/// one stride apart, lies inside the buffer (the last row need not be padded
/// to the stride).
pub proof fn law_alpha_plane_rows(len: nat, stride: usize, size: ImageSize, function: &'static str, is_source: bool)
    requires
        size.height >= 1,
    ensures
        alpha_result(len, stride, size, function, is_source) is Ok <==> {
            &&& fits_c_int(stride as int)
            &&& size.width <= stride
            &&& rows_in_bounds(len, stride as int, size.height as int, size.width as int)
        },
{
    let h = size.height as int;
    let s = stride as int;
    let w = size.width as int;
    assert(s * (h - 1) == (h - 1) * s) by (nonlinear_arith);
    if rows_in_bounds(len, s, h, w) {
        assert(((h - 1) * s) + w <= len);
    }
    if size.width <= stride && s * (h - 1) + w <= len {
        assert forall|i: int| 0 <= i < h implies #[trigger] (i * s) + w <= len by {
            assert(i * s <= (h - 1) * s) by (nonlinear_arith)
                requires
                    0 <= i < h,
                    s >= 0,
            ;
        }
    }
}

/// libyuv reads `2 * width` bytes from each of the `height` rows of a YUY2 /
/// UYVY source, one stride apart, and for an odd width two more bytes past the
/// last pixel; when it coalesces the rows into one, it reads
/// `stride * height` bytes and two more when the pixel count is odd. The
/// source check accepts exactly the buffers that cover this (an image of no
/// rows reads nothing), `stride * height` (and, coalesced, `width * height`)
/// being computed without overflow.
pub proof fn law_packed422_source_extent(len: nat, stride: usize, size: ImageSize, coalesce: bool, function: &'static str)
    requires
        len <= usize::MAX,
    ensures
        size.height == 0 ==> packed422_src_result(len, stride, size, coalesce, function) is Ok,
        size.height > 0 && !coalesce && size.width % 2 == 0 ==> (packed422_src_result(len, stride, size, coalesce, function) is Ok
            <==> stride * size.height <= len),
        size.height > 0 && !coalesce && size.width % 2 == 1 ==> (packed422_src_result(len, stride, size, coalesce, function) is Ok
            <==> stride * size.height <= usize::MAX && (size.height - 1) * stride + 2 * size.width + 2 <= len),
        size.height > 0 && coalesce ==> (packed422_src_result(len, stride, size, coalesce, function) is Ok <==> {
            &&& size.width * size.height <= usize::MAX
            &&& stride * size.height + (if (size.width * size.height) % 2 == 1 { 2int } else { 0int }) <= len
        }),
{
    let h = size.height as int;
    let s = stride as int;
    assert(s * (h - 1) == (h - 1) * s) by (nonlinear_arith);
    assert(s * h >= 0) by (nonlinear_arith)
        requires
            s >= 0,
            h >= 0,
    ;
    assert(size.width * size.height >= 0) by (nonlinear_arith);
}

/// libyuv treats a YUY2 / UYVY image and its packed counterpart as one long
/// row exactly when both are tightly packed (the source stride is `2 * width`,
/// the destination stride one row) and the pixel count is a C `int`.
pub proof fn law_rows_coalesce_when_packed(src_stride: usize, dst_stride: usize, dst_row: int, size: ImageSize)
    ensures
        rows_coalesce(src_stride, dst_stride, dst_row, size) <==> {
            &&& src_stride == 2 * size.width
            &&& dst_stride == dst_row
            &&& size.width * size.height < 0x8000_0000
        },
{
}

/// libyuv writes `2 * width` bytes to each of the `height` rows of a YUY2 /
/// UYVY destination, one stride apart, and for an odd width two more bytes
/// past the last pixel. The destination check accepts exactly the buffers that
/// cover this; an image of no rows writes nothing.
pub proof fn law_packed422_destination_extent(len: nat, stride: usize, size: ImageSize, function: &'static str)
    requires
        len <= usize::MAX,
    ensures
        size.height == 0 ==> packed422_dst_result(len, stride, size, function) is Ok,
        size.height > 0 && size.width % 2 == 0 ==> (packed422_dst_result(len, stride, size, function) is Ok
            <==> stride * size.height <= len),
        size.height > 0 && size.width % 2 == 1 ==> (packed422_dst_result(len, stride, size, function) is Ok
            <==> (size.height - 1) * stride + 2 * size.width + 2 <= len),
{
    let h = size.height as int;
    let s = stride as int;
    assert(s * (h - 1) == (h - 1) * s) by (nonlinear_arith);
}

/// The luma destination of a `*ToY` conversion is accepted exactly when it
/// holds `height` rows of `width` bytes, one stride apart, with a C `int`
/// stride.
pub proof fn law_y_destination_plane(len: nat, stride: usize, size: ImageSize, function: &'static str)
    requires
        len <= usize::MAX,
    ensures
        y_destination_result(len, stride, size, function) is Ok <==> plane_holds(len, stride, size.width as int, size.height as int),
{
}

/// The chroma of an Android frame is accepted exactly when it is planar
/// (pixel stride 1), or interleaved (pixel stride 2) with both chroma strides
/// covering an interleaved row of `2 * ceil(width / 2)` bytes.
pub proof fn law_android420_chroma_layout(u_stride: usize, v_stride: usize, pixel_stride_uv: usize, size: ImageSize, function: &'static str)
    ensures
        android420_uv_result(u_stride, v_stride, pixel_stride_uv, size, function) is Ok <==> {
            ||| pixel_stride_uv == 1
            ||| pixel_stride_uv == 2 && 2 * ((size.width + 1) / 2) <= u_stride && 2 * ((size.width + 1) / 2) <= v_stride
        },
{
}

/// A compressed frame is accepted exactly when it is not empty, its length and
/// both dimensions are C `int`s, and the image it decodes to is not empty.
pub proof fn law_mjpeg_input_accepts(src_len: nat, size: ImageSize, function: &'static str)
    ensures
        mjpeg_input_result(src_len, size, function) is Ok <==> {
            &&& 0 < src_len && fits_c_int(src_len as int)
            &&& dims_fit(size)
            &&& size.width > 0 && size.height > 0
        },
        mjpeg_size_input_result(src_len) is Ok <==> 0 < src_len && fits_c_int(src_len as int),
{
}

/// The size `MJPGSize` reports is accepted exactly when libyuv succeeded and
/// both dimensions are positive, and it is then those dimensions; a failing
/// status is reported as an error with that status code.
pub proof fn law_mjpeg_decoded_size(status: i32, width: i32, height: i32)
    ensures
        mjpeg_size_result(status, width, height) is Ok <==> status == 0 && width > 0 && height > 0,
        mjpeg_size_result(status, width, height) is Ok ==> mjpeg_size_result(status, width, height)->Ok_0.width == width
            && mjpeg_size_result(status, width, height)->Ok_0.height == height,
        status != 0 ==> mjpeg_size_result(status, width, height) is Err
            && mjpeg_size_result(status, width, height)->Err_0.spec_code() == status,
{
    Error::lemma_spec_new_parts(status, "MJPGSize", None);
}

/// Two planes compared pixel by pixel are accepted exactly when each holds
/// `height` rows of `width` bytes, one stride apart, with C `int` strides; the
/// dimensions are accepted exactly when they are C `int`s.
pub proof fn law_plane_pair_accepts(a_len: nat, a_stride: usize, b_len: nat, b_stride: usize, size: ImageSize, function: &'static str)
    requires
        a_len <= usize::MAX,
        b_len <= usize::MAX,
    ensures
        plane_pair_result(a_len, a_stride, b_len, b_stride, size, function) is Ok <==> {
            &&& plane_holds(a_len, a_stride, size.width as int, size.height as int)
            &&& plane_holds(b_len, b_stride, size.width as int, size.height as int)
        },
        dims_result(size, function) is Ok <==> dims_fit(size),
        nonempty_result(size, function) is Ok <==> size.width > 0 && size.height > 0,
{
}

/// SSIM is computed on 8x8 blocks: a frame is accepted when it is at least
/// 9x9, an I420 image (whose chroma planes are half size) when it is at least
/// 17x17.
pub proof fn law_ssim_minimum_size(size: ImageSize)
    ensures
        frame_ssim_size_result(size) is Ok <==> size.width >= 9 && size.height >= 9,
        i420_ssim_size_result(size) is Ok <==> size.width >= 17 && size.height >= 17,
{
}

/// An MM21 (8-bit tiled) source is accepted exactly when it is not empty,
/// every dimension and stride is a C `int`, the luma stride covers the width
/// and the chroma stride `2 * ceil(width / 2)`, and each plane holds its
/// `ceil(height / 32)` rows of tiles: all but the last `stride * tile_height`
/// bytes apart, and the last one read in full, `tile_height` rows of the width
/// rounded up to 16 (tiles are 32 luma or 16 chroma rows high).
pub proof fn law_mm21_image_layout(img: Mm21Image, size: ImageSize, function: &'static str)
    ensures
        img.spec_validate(size, function) is Ok <==> {
            let padded = (size.width + 15) / 16 * 16;
            let rows = (size.height + 31) / 32;
            &&& dims_fit(size) && fits_c_int(img.y_stride as int) && fits_c_int(img.uv_stride as int)
            &&& size.width > 0 && size.height > 0
            &&& size.width <= img.y_stride
            &&& 2 * ((size.width + 1) / 2) <= img.uv_stride
            &&& padded * 32 <= usize::MAX
            &&& (rows - 1) * img.y_stride * 32 + padded * 32 <= img.y@.len()
            &&& (rows - 1) * img.uv_stride * 16 + padded * 16 <= img.uv@.len()
        },
{
    assert(img.y.len() == img.y@.len() && img.uv.len() == img.uv@.len());
    lemma_tiled_products(size, img.y_stride, img.uv_stride);
}

/// An MT2T (10-bit packed tiled) source is accepted exactly when it is not
/// empty, every dimension and stride is a C `int`, the luma stride covers the
/// width and the chroma stride `2 * ceil(width / 2)`, and each plane holds its
/// `ceil(height / 32)` rows of tiles: all but the last `stride * tile_height`
/// bytes apart, and the last one read in full at ten eighths of `tile_height`
/// rows of the width rounded up to 16 (tiles are 32 luma or 16 chroma rows
/// high), ten times that size being computed without overflow.
pub proof fn law_mt2t_image_layout(img: Mt2tImage, size: ImageSize, function: &'static str)
    ensures
        img.spec_validate(size, function) is Ok <==> {
            let padded = (size.width + 15) / 16 * 16;
            let rows = (size.height + 31) / 32;
            &&& dims_fit(size) && fits_c_int(img.y_stride as int) && fits_c_int(img.uv_stride as int)
            &&& size.width > 0 && size.height > 0
            &&& size.width <= img.y_stride
            &&& 2 * ((size.width + 1) / 2) <= img.uv_stride
            &&& padded * 32 * 10 <= usize::MAX
            &&& (rows - 1) * img.y_stride * 32 + padded * 32 * 10 / 8 <= img.y@.len()
            &&& (rows - 1) * img.uv_stride * 16 + padded * 16 * 10 / 8 <= img.uv@.len()
        },
{
    assert(img.y.len() == img.y@.len() && img.uv.len() == img.uv@.len());
    lemma_tiled_products(size, img.y_stride, img.uv_stride);
}

/// The products that size a tiled plane are non-negative and grow with each
/// factor.
proof fn lemma_tiled_products(size: ImageSize, y_stride: usize, uv_stride: usize)
    ensures
        ({
            let padded = (size.width + 15) / 16 * 16;
            let rows = (size.height + 31) / 32;
            &&& padded >= 0
            &&& padded <= padded * 16
            &&& padded * 16 <= padded * 32
            &&& padded * 16 * 10 <= padded * 32 * 10
            &&& padded * 16 <= padded * 16 * 10 / 8
            &&& padded * 32 <= padded * 32 * 10 / 8
            &&& size.height > 0 ==> rows >= 1
            &&& size.height > 0 ==> (rows - 1) * y_stride >= 0 && (rows - 1) * uv_stride >= 0
            &&& size.height > 0 ==> (rows - 1) * y_stride <= (rows - 1) * y_stride * 32
            &&& size.height > 0 ==> (rows - 1) * uv_stride <= (rows - 1) * uv_stride * 16
        }),
{
    let padded = (size.width + 15) / 16 * 16;
    let rows = (size.height + 31) / 32;
    assert(padded >= 0);
    assert(padded <= padded * 16 && padded * 16 <= padded * 32 && padded * 16 * 10 <= padded * 32 * 10
        && padded * 16 <= padded * 16 * 10 / 8 && padded * 32 <= padded * 32 * 10 / 8) by (nonlinear_arith)
        requires
            padded >= 0,
    ;
    if size.height > 0 {
        assert(rows >= 1);
        assert((rows - 1) * y_stride >= 0 && (rows - 1) * uv_stride >= 0
            && (rows - 1) * y_stride <= (rows - 1) * y_stride * 32
            && (rows - 1) * uv_stride <= (rows - 1) * uv_stride * 16) by (nonlinear_arith)
            requires
                rows >= 1,
        ;
    }
}

} // verus!
