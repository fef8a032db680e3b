//! What a successful validation guarantees: every row libyuv touches lies
//! inside its buffer, and every value it is handed fits a C `int`.
use vstd::prelude::*;
use crate::checks::{ceil_div, fits_c_int, lemma_ceil_div};
use crate::geometry::ImageSize;
use crate::android::android420_uv_result;
use crate::detile::{detile_answer, detile_plane_result};
use crate::checks::is_pow2;
use crate::error::Error;
use crate::mjpeg::{mjpeg_input_result, mjpeg_size_result};
use crate::tiled::{padded_width, tile_rows, tiled_result};
use crate::layout::{
    Direction, Unit, luma_result, packed_fits, packed_result, planar2_fits, planar2_result,
    planar3_fits, planar3_result,
};

verus! {

/// Each of `rows` rows, starting every `stride` elements and `row_width`
/// elements wide, ends inside a buffer of `len` elements.
pub open spec fn rows_in_bounds(len: nat, stride: int, rows: int, row_width: int) -> bool {
    forall|i: int| 0 <= i < rows ==> #[trigger] (i * stride) + row_width <= len
}

/// Rows no wider than the stride, `rows` of them, fit a buffer of `stride * rows` elements.
pub proof fn lemma_rows_in_bounds(len: nat, stride: int, rows: int, row_width: int)
    requires
        0 <= row_width <= stride,
        0 <= rows,
        stride * rows <= len,
    ensures
        rows_in_bounds(len, stride, rows, row_width),
{
    assert forall|i: int| 0 <= i < rows implies #[trigger] (i * stride) + row_width <= len by {
        assert(i * stride + row_width <= stride * rows) by (nonlinear_arith)
            requires
                0 <= i < rows,
                0 <= row_width <= stride,
        ;
    }
}

/// Both dimensions of `size` are C `int`s.
pub open spec fn dims_fit(size: ImageSize) -> bool {
    fits_c_int(size.width as int) && fits_c_int(size.height as int)
}

/// A plane of `rows` rows of `row` elements, each row starting one `stride`
/// after the previous one, fits a buffer of `len` elements, and the stride is a
/// C `int`.
pub open spec fn plane_holds(len: nat, stride: usize, row: int, rows: int) -> bool {
    &&& fits_c_int(stride as int)
    &&& row <= stride
    &&& stride * rows <= len
}

/// A three-plane check accepts exactly the layouts whose luma plane holds
/// `height` rows of `width` elements and whose chroma planes each hold
/// `ceil(height / uv_height_divisor)` rows of `ceil(width / uv_width_divisor)`.
pub proof fn lemma_planar3_holds(
    y_len: nat,
    y_stride: usize,
    u_len: nat,
    u_stride: usize,
    v_len: nat,
    v_stride: usize,
    size: ImageSize,
    uv_height_divisor: usize,
    uv_width_divisor: usize,
    function: &'static str,
    dir: Direction,
)
    requires
        uv_height_divisor > 0,
        uv_width_divisor > 0,
        y_len <= usize::MAX,
        u_len <= usize::MAX,
        v_len <= usize::MAX,
    ensures
        planar3_result(y_len, y_stride, u_len, u_stride, v_len, v_stride, size, uv_height_divisor, uv_width_divisor, function, dir) is Ok <==> {
            let cw = ceil_div(size.width as int, uv_width_divisor as int);
            let ch = ceil_div(size.height as int, uv_height_divisor as int);
            &&& dims_fit(size)
            &&& plane_holds(y_len, y_stride, size.width as int, size.height as int)
            &&& plane_holds(u_len, u_stride, cw, ch)
            &&& plane_holds(v_len, v_stride, cw, ch)
        },
{
    lemma_ceil_div(size.width as int, uv_width_divisor as int);
    lemma_ceil_div(size.height as int, uv_height_divisor as int);
}

/// A semi-planar check accepts exactly the layouts whose luma plane holds
/// `height` rows of `width` elements and whose interleaved chroma plane holds
/// `ceil(height / uv_height_divisor)` rows of `2 * ceil(width / uv_width_divisor)`.
pub proof fn lemma_planar2_holds(
    y_len: nat,
    y_stride: usize,
    uv_len: nat,
    uv_stride: usize,
    size: ImageSize,
    uv_height_divisor: usize,
    uv_width_divisor: usize,
    function: &'static str,
    dir: Direction,
)
    requires
        uv_height_divisor > 0,
        uv_width_divisor > 0,
        y_len <= usize::MAX,
        uv_len <= usize::MAX,
    ensures
        planar2_result(y_len, y_stride, uv_len, uv_stride, size, uv_height_divisor, uv_width_divisor, function, dir) is Ok <==> {
            &&& dims_fit(size)
            &&& plane_holds(y_len, y_stride, size.width as int, size.height as int)
            &&& plane_holds(
                uv_len,
                uv_stride,
                2 * ceil_div(size.width as int, uv_width_divisor as int),
                ceil_div(size.height as int, uv_height_divisor as int),
            )
        },
{
    lemma_ceil_div(size.width as int, uv_width_divisor as int);
    lemma_ceil_div(size.height as int, uv_height_divisor as int);
}

/// A three-plane image passes validation exactly when its layout fits, and the
/// source and destination checks accept the same layouts.
pub proof fn law_planar3_ok_iff_fits(
    y_len: nat,
    y_stride: usize,
    u_len: nat,
    u_stride: usize,
    v_len: nat,
    v_stride: usize,
    size: ImageSize,
    uv_height_divisor: usize,
    uv_width_divisor: usize,
    function: &'static str,
    dir: Direction,
)
    requires
        uv_height_divisor > 0,
        uv_width_divisor > 0,
        y_len <= usize::MAX,
        u_len <= usize::MAX,
        v_len <= usize::MAX,
    ensures
        planar3_result(y_len, y_stride, u_len, u_stride, v_len, v_stride, size, uv_height_divisor, uv_width_divisor, function, dir) is Ok
            <==> planar3_fits(y_len, y_stride, u_len, u_stride, v_len, v_stride, size, uv_height_divisor, uv_width_divisor),
{
    lemma_ceil_div(size.width as int, uv_width_divisor as int);
    lemma_ceil_div(size.height as int, uv_height_divisor as int);
}

/// After a three-plane image passes validation, every value handed to libyuv
/// fits a C `int` and every row of every plane lies inside its buffer.
pub proof fn law_planar3_validated_in_bounds(
    y_len: nat,
    y_stride: usize,
    u_len: nat,
    u_stride: usize,
    v_len: nat,
    v_stride: usize,
    size: ImageSize,
    uv_height_divisor: usize,
    uv_width_divisor: usize,
    function: &'static str,
    dir: Direction,
)
    requires
        uv_height_divisor > 0,
        uv_width_divisor > 0,
        planar3_result(y_len, y_stride, u_len, u_stride, v_len, v_stride, size, uv_height_divisor, uv_width_divisor, function, dir) is Ok,
    ensures
        fits_c_int(size.width as int) && fits_c_int(size.height as int),
        fits_c_int(y_stride as int) && fits_c_int(u_stride as int) && fits_c_int(v_stride as int),
        rows_in_bounds(y_len, y_stride as int, size.height as int, size.width as int),
        rows_in_bounds(u_len, u_stride as int, ceil_div(size.height as int, uv_height_divisor as int), ceil_div(size.width as int, uv_width_divisor as int)),
        rows_in_bounds(v_len, v_stride as int, ceil_div(size.height as int, uv_height_divisor as int), ceil_div(size.width as int, uv_width_divisor as int)),
{
    let uv_w = ceil_div(size.width as int, uv_width_divisor as int);
    let uv_h = ceil_div(size.height as int, uv_height_divisor as int);
    lemma_ceil_div(size.width as int, uv_width_divisor as int);
    lemma_ceil_div(size.height as int, uv_height_divisor as int);
    lemma_rows_in_bounds(y_len, y_stride as int, size.height as int, size.width as int);
    lemma_rows_in_bounds(u_len, u_stride as int, uv_h, uv_w);
    lemma_rows_in_bounds(v_len, v_stride as int, uv_h, uv_w);
}

/// A semi-planar image passes validation exactly when its layout fits, and the
/// source and destination checks accept the same layouts.
pub proof fn law_planar2_ok_iff_fits(
    y_len: nat,
    y_stride: usize,
    uv_len: nat,
    uv_stride: usize,
    size: ImageSize,
    uv_height_divisor: usize,
    uv_width_divisor: usize,
    function: &'static str,
    dir: Direction,
)
    requires
        uv_height_divisor > 0,
        uv_width_divisor > 0,
        y_len <= usize::MAX,
        uv_len <= usize::MAX,
    ensures
        planar2_result(y_len, y_stride, uv_len, uv_stride, size, uv_height_divisor, uv_width_divisor, function, dir) is Ok
            <==> planar2_fits(y_len, y_stride, uv_len, uv_stride, size, uv_height_divisor, uv_width_divisor),
{
    lemma_ceil_div(size.width as int, uv_width_divisor as int);
    lemma_ceil_div(size.height as int, uv_height_divisor as int);
}

/// After a semi-planar image passes validation, every value handed to libyuv
/// fits a C `int` and every row of both planes lies inside its buffer.
pub proof fn law_planar2_validated_in_bounds(
    y_len: nat,
    y_stride: usize,
    uv_len: nat,
    uv_stride: usize,
    size: ImageSize,
    uv_height_divisor: usize,
    uv_width_divisor: usize,
    function: &'static str,
    dir: Direction,
)
    requires
        uv_height_divisor > 0,
        uv_width_divisor > 0,
        planar2_result(y_len, y_stride, uv_len, uv_stride, size, uv_height_divisor, uv_width_divisor, function, dir) is Ok,
    ensures
        fits_c_int(size.width as int) && fits_c_int(size.height as int),
        fits_c_int(y_stride as int) && fits_c_int(uv_stride as int),
        rows_in_bounds(y_len, y_stride as int, size.height as int, size.width as int),
        rows_in_bounds(uv_len, uv_stride as int, ceil_div(size.height as int, uv_height_divisor as int), ceil_div(size.width as int, uv_width_divisor as int) * 2),
{
    lemma_ceil_div(size.width as int, uv_width_divisor as int);
    lemma_ceil_div(size.height as int, uv_height_divisor as int);
    lemma_rows_in_bounds(y_len, y_stride as int, size.height as int, size.width as int);
    lemma_rows_in_bounds(
        uv_len,
        uv_stride as int,
        ceil_div(size.height as int, uv_height_divisor as int),
        ceil_div(size.width as int, uv_width_divisor as int) * 2,
    );
}

/// After a luma-only image passes validation, every row lies inside the buffer;
/// the source and destination checks accept the same layouts.
pub proof fn law_luma_validated_in_bounds(y_len: nat, y_stride: usize, size: ImageSize, function: &'static str, dir: Direction)
    requires
        luma_result(y_len, y_stride, size, function, dir) is Ok,
    ensures
        fits_c_int(size.width as int) && fits_c_int(size.height as int) && fits_c_int(y_stride as int),
        rows_in_bounds(y_len, y_stride as int, size.height as int, size.width as int),
        luma_result(y_len, y_stride, size, function, Direction::Source) is Ok,
        luma_result(y_len, y_stride, size, function, Direction::Destination) is Ok,
{
    lemma_rows_in_bounds(y_len, y_stride as int, size.height as int, size.width as int);
}

/// A packed image passes validation exactly when its layout fits, whatever
/// direction and unit the errors are worded for.
pub proof fn law_packed_ok_iff_fits(len: nat, stride: usize, size: ImageSize, per_pixel: usize, unit: Unit, function: &'static str, dir: Direction)
    requires
        len <= usize::MAX,
    ensures
        packed_result(len, stride, size, per_pixel, unit, function, dir) is Ok <==> packed_fits(len, stride, size, per_pixel),
{
}

/// After a packed image passes validation, every row of `width * per_pixel`
/// elements lies inside the buffer.
pub proof fn law_packed_validated_in_bounds(len: nat, stride: usize, size: ImageSize, per_pixel: usize, unit: Unit, function: &'static str, dir: Direction)
    requires
        packed_result(len, stride, size, per_pixel, unit, function, dir) is Ok,
    ensures
        fits_c_int(size.width as int) && fits_c_int(size.height as int) && fits_c_int(stride as int),
        rows_in_bounds(len, stride as int, size.height as int, size.width * per_pixel),
{
    assert(size.width * per_pixel >= 0) by (nonlinear_arith);
    lemma_rows_in_bounds(len, stride as int, size.height as int, size.width * per_pixel);
}

/// After a tiled image passes validation, every value handed to libyuv fits
/// a C `int`, the image is not empty, and each plane holds every row of tiles
/// before the last one plus the bytes libyuv reads from the last one.
pub proof fn law_tiled_validated_in_bounds(
    y_len: nat,
    y_stride: usize,
    uv_len: nat,
    uv_stride: usize,
    size: ImageSize,
    function: &'static str,
    is_10bit: bool,
)
    requires
        tiled_result(y_len, y_stride, uv_len, uv_stride, size, function, is_10bit) is Ok,
    ensures
        fits_c_int(size.width as int) && fits_c_int(size.height as int),
        fits_c_int(y_stride as int) && fits_c_int(uv_stride as int),
        size.width > 0 && size.height > 0,
        size.width <= y_stride,
        (tile_rows(size.height) - 1) * y_stride * 32 + padded_width(size.width) * 32 * (if is_10bit { 10int } else { 8int }) / 8 <= y_len,
        (tile_rows(size.height) - 1) * uv_stride * 16 + padded_width(size.width) * 16 * (if is_10bit { 10int } else { 8int }) / 8 <= uv_len,
{
    lemma_ceil_div(size.height as int, 32);
    lemma_ceil_div(size.width as int, 16);
    let pw = padded_width(size.width);
    if !is_10bit {
        assert(pw * 32 * 8int / 8 == pw * 32) by (nonlinear_arith);
        assert(pw * 16 * 8int / 8 == pw * 16) by (nonlinear_arith);
    }
}

/// After a plane detiling passes its checks with work to do, the tile height
/// is a power of two, every value handed to libyuv fits a C `int`, the source
/// spans every row of tiles and every destination row lies inside its buffer.
pub proof fn law_detile_plane_validated(
    src_len: nat,
    src_stride: usize,
    dst_len: nat,
    dst_stride: usize,
    size: ImageSize,
    tile_height: usize,
    function: &'static str,
)
    requires
        detile_answer(
            detile_plane_result(src_len, src_stride, dst_len, dst_stride, size, tile_height, function),
            size,
        ) == Ok::<bool, Error>(true),
    ensures
        is_pow2(tile_height as nat),
        fits_c_int(size.width as int) && fits_c_int(size.height as int) && fits_c_int(tile_height as int),
        fits_c_int(src_stride as int) && fits_c_int(dst_stride as int),
        src_stride >= padded_width(size.width),
        src_stride * ceil_div(size.height as int, tile_height as int) * tile_height <= src_len,
        rows_in_bounds(dst_len, dst_stride as int, size.height as int, size.width as int),
{
    lemma_rows_in_bounds(dst_len, dst_stride as int, size.height as int, size.width as int);
}

/// When an Android frame with interleaved chroma (`pixel_stride_uv == 2`)
/// passes its checks, each of its `ceil(height / 2)` interleaved chroma rows
/// of `2 * ceil(width / 2)` bytes lies inside the chroma buffers: the planar
/// validation already required `stride * ceil(height / 2)` bytes.
pub proof fn law_android420_interleaved_in_bounds(
    y_len: nat,
    y_stride: usize,
    u_len: nat,
    u_stride: usize,
    v_len: nat,
    v_stride: usize,
    size: ImageSize,
    function: &'static str,
)
    requires
        planar3_result(y_len, y_stride, u_len, u_stride, v_len, v_stride, size, 2, 2, function, Direction::Source) is Ok,
        android420_uv_result(u_stride, v_stride, 2, size, function) is Ok,
    ensures
        rows_in_bounds(u_len, u_stride as int, ceil_div(size.height as int, 2), ceil_div(size.width as int, 2) * 2),
        rows_in_bounds(v_len, v_stride as int, ceil_div(size.height as int, 2), ceil_div(size.width as int, 2) * 2),
{
    lemma_ceil_div(size.width as int, 2);
    lemma_ceil_div(size.height as int, 2);
    lemma_rows_in_bounds(u_len, u_stride as int, ceil_div(size.height as int, 2), ceil_div(size.width as int, 2) * 2);
    lemma_rows_in_bounds(v_len, v_stride as int, ceil_div(size.height as int, 2), ceil_div(size.width as int, 2) * 2);
}

/// The size `mjpeg_size` reports for a frame is one the decoders accept for
/// that frame: the size checks of `MJPGTo*` pass for it.
pub proof fn law_mjpeg_size_accepted_by_decoders(status: i32, width: i32, height: i32, src_len: nat, function: &'static str)
    requires
        mjpeg_size_result(status, width, height) is Ok,
        0 < src_len,
        fits_c_int(src_len as int),
    ensures
        mjpeg_input_result(src_len, mjpeg_size_result(status, width, height)->Ok_0, function) is Ok,
{
}

} // verus!
