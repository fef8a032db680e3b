//! Laws of the detiling checks: when each one answers that libyuv has work to
//! do, when it answers that there is nothing to do, stated with the plain
//! arithmetic of the tiled layout (rows of tiles are `stride * tile_height`
//! apart, a row of tiles is the width rounded up to 16).
use vstd::prelude::*;
use crate::checks::{fits_c_int, is_pow2};
use crate::detile::{detile_answer, detile_plane_result, detile_split_uv_result, detile_to_yuy2_result};
use crate::error::Error;
use crate::geometry::ImageSize;
use crate::packed_images::Yuy2ImageMut;
use crate::safety::{dims_fit, plane_holds};
use crate::semi_planar_images::Nv12Image;

verus! {

/// A product of non-negative numbers does not shrink when multiplied by a
/// positive one.
pub proof fn lemma_mul_grows(a: int, b: int)
    requires
        a >= 0,
        b >= 1,
    ensures
        a <= a * b,
{
    assert(a <= a * b) by (nonlinear_arith)
        requires
            a >= 0,
            b >= 1,
    ;
}

/// A power of two is at least one.
pub proof fn lemma_pow2_positive(n: nat)
    requires
        is_pow2(n),
    ensures
        n >= 1,
{
}

/// `DetilePlane` / `DetilePlane_16` has nothing to do (`Ok(false)`) exactly
/// when the image is empty and every value is a C `int`. It has work to do
/// (`Ok(true)`) exactly when the image is not empty, every value is a C `int`,
/// the tile height is a power of two, the source stride covers the width
/// rounded up to 16, the source holds every row of tiles in full
/// (`stride * ceil(height / tile_height) * tile_height` elements, the last row
/// of tiles included even when partial) and the destination holds `height` rows
/// of `width` elements.
pub proof fn law_detile_plane_accepts(
    src_len: nat,
    src_stride: usize,
    dst_len: nat,
    dst_stride: usize,
    size: ImageSize,
    tile_height: usize,
    function: &'static str,
)
    requires
        src_len <= usize::MAX,
        dst_len <= usize::MAX,
    ensures
        detile_answer(detile_plane_result(src_len, src_stride, dst_len, dst_stride, size, tile_height, function), size)
            == Ok::<bool, Error>(false) <==> {
            &&& size.width == 0 || size.height == 0
            &&& dims_fit(size)
            &&& fits_c_int(src_stride as int) && fits_c_int(dst_stride as int) && fits_c_int(tile_height as int)
        },
        detile_answer(detile_plane_result(src_len, src_stride, dst_len, dst_stride, size, tile_height, function), size)
            == Ok::<bool, Error>(true) <==> {
            &&& size.width > 0 && size.height > 0
            &&& dims_fit(size)
            &&& fits_c_int(src_stride as int) && fits_c_int(tile_height as int)
            &&& is_pow2(tile_height as nat)
            &&& (size.width + 15) / 16 * 16 <= src_stride
            &&& src_stride * ((size.height + tile_height - 1) / (tile_height as int)) * tile_height <= src_len
            &&& plane_holds(dst_len, dst_stride, size.width as int, size.height as int)
        },
{
    if is_pow2(tile_height as nat) && size.height > 0 {
        lemma_pow2_positive(tile_height as nat);
        let g = (size.height + tile_height - 1) / (tile_height as int);
        assert(g >= 0);
        lemma_mul_grows(src_stride * g, tile_height as int);
        assert(src_stride * g >= 0) by (nonlinear_arith)
            requires
                g >= 0,
        ;
    }
}

/// `DetileSplitUVPlane` has nothing to do (`Ok(false)`) exactly when the image
/// is empty and every value is a C `int`. It has work to do (`Ok(true)`)
/// exactly when the image is not empty, every value is a C `int`, the tile
/// height is a power of two, the tiled source stride covers the width rounded
/// up to 16, the source holds every row of tiles in full
/// (`stride * ceil(height / tile_height) * tile_height` bytes, the last row of
/// tiles included even when partial) and each destination holds `height` rows
/// of `ceil(width / 2)` bytes.
pub proof fn law_detile_split_uv_plane_accepts(
    src_uv_len: nat,
    src_stride_uv: usize,
    dst_u_len: nat,
    dst_stride_u: usize,
    dst_v_len: nat,
    dst_stride_v: usize,
    size: ImageSize,
    tile_height: usize,
)
    requires
        src_uv_len <= usize::MAX,
        dst_u_len <= usize::MAX,
        dst_v_len <= usize::MAX,
    ensures
        detile_answer(
            detile_split_uv_result(src_uv_len, src_stride_uv, dst_u_len, dst_stride_u, dst_v_len, dst_stride_v, size, tile_height),
            size,
        ) == Ok::<bool, Error>(false) <==> {
            &&& size.width == 0 || size.height == 0
            &&& dims_fit(size)
            &&& fits_c_int(src_stride_uv as int) && fits_c_int(dst_stride_u as int) && fits_c_int(dst_stride_v as int)
            &&& fits_c_int(tile_height as int)
        },
        detile_answer(
            detile_split_uv_result(src_uv_len, src_stride_uv, dst_u_len, dst_stride_u, dst_v_len, dst_stride_v, size, tile_height),
            size,
        ) == Ok::<bool, Error>(true) <==> {
            &&& size.width > 0 && size.height > 0
            &&& dims_fit(size)
            &&& fits_c_int(src_stride_uv as int) && fits_c_int(tile_height as int)
            &&& is_pow2(tile_height as nat)
            &&& (size.width + 15) / 16 * 16 <= src_stride_uv
            &&& src_stride_uv * ((size.height + tile_height - 1) / (tile_height as int)) * tile_height <= src_uv_len
            &&& plane_holds(dst_u_len, dst_stride_u, (size.width + 1) / 2, size.height as int)
            &&& plane_holds(dst_v_len, dst_stride_v, (size.width + 1) / 2, size.height as int)
        },
{
    if is_pow2(tile_height as nat) && size.height > 0 {
        lemma_pow2_positive(tile_height as nat);
        let g = (size.height + tile_height - 1) / (tile_height as int);
        assert(g >= 0);
        assert(src_stride_uv * g >= 0) by (nonlinear_arith)
            requires
                g >= 0,
        ;
        lemma_mul_grows(src_stride_uv * g, tile_height as int);
    }
}

/// `DetileToYUY2` has nothing to do (`Ok(false)`) exactly when the image is
/// empty. It has work to do (`Ok(true)`) exactly when the image is not empty,
/// the tile height is a power of two of at least 2 and a C `int`, the source
/// and destination pass their own validation, both source strides cover the
/// width rounded up to 16, the luma plane holds every row of tiles of
/// `tile_height` rows in full and the chroma plane every row of tiles of
/// `tile_height / 2` rows, `ceil(height / tile_height)` rows of tiles each.
pub proof fn law_detile_to_yuy2_accepts(src: &Nv12Image, dst: &Yuy2ImageMut, size: ImageSize, tile_height: usize)
    ensures
        detile_answer(detile_to_yuy2_result(src, dst, size, tile_height), size) == Ok::<bool, Error>(false)
            <==> size.width == 0 || size.height == 0,
        detile_answer(detile_to_yuy2_result(src, dst, size, tile_height), size) == Ok::<bool, Error>(true) <==> {
            let groups = (size.height + tile_height - 1) / (tile_height as int);
            &&& size.width > 0 && size.height > 0
            &&& fits_c_int(tile_height as int)
            &&& is_pow2(tile_height as nat)
            &&& tile_height >= 2
            &&& src.spec_validate(size, "DetileToYUY2") is Ok
            &&& dst.spec_validate(size, "DetileToYUY2") is Ok
            &&& (size.width + 15) / 16 * 16 <= src.y_stride
            &&& (size.width + 15) / 16 * 16 <= src.uv_stride
            &&& src.y_stride * groups * tile_height <= src.y@.len()
            &&& src.uv_stride * groups * (tile_height / 2) <= src.uv@.len()
        },
{
    assert(src.y.len() == src.y@.len() && src.uv.len() == src.uv@.len());
    if tile_height >= 2 && size.height > 0 {
        let g = (size.height + tile_height - 1) / (tile_height as int);
        assert(g >= 0);
        assert(src.y_stride * g >= 0 && src.uv_stride * g >= 0) by (nonlinear_arith)
            requires
                g >= 0,
        ;
        lemma_mul_grows(src.y_stride * g, tile_height as int);
        lemma_mul_grows(src.uv_stride * g, (tile_height / 2) as int);
    }
}

} // verus!
