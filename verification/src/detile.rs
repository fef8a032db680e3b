//! Checks before turning tiled planes linear (`DetilePlane`, `DetilePlane_16`,
//! `DetileSplitUVPlane`, `DetileToYUY2`).
//!
//! libyuv reads a tiled plane as columns of 16-element chunks and jumps
//! `stride * tile_height` from one row of tiles to the next, so the source
//! stride must cover the width rounded up to 16 and the source must hold
//! `stride * ceil(height / tile_height) * tile_height` elements (every row of
//! tiles in full, which errs on the safe side). The tile height must be a power
//! of two, as libyuv masks with it. An empty image is accepted as a no-op.
use vstd::prelude::*;
use crate::checks::{ceil_div, checked_buf_size, div_ceil, fits_c_int, is_pow2, is_power_of_two, require_c_int};
use crate::error::{Error, refused};
use crate::geometry::ImageSize;
use crate::packed_images::Yuy2ImageMut;
use crate::semi_planar_images::Nv12Image;
use crate::tiled::padded_width;

verus! {

/// The answer of a detiling check: the error the checks report, or whether
/// libyuv has anything to do (an empty image is a no-op).
pub open spec fn detile_answer(checks: Result<(), Error>, size: ImageSize) -> Result<bool, Error> {
    match checks {
        Err(e) => Err(e),
        Ok(_) => Ok(size.width != 0 && size.height != 0),
    }
}

/// The outcome of checking a `DetilePlane` / `DetilePlane_16` call.
pub open spec fn detile_plane_result(
    src_len: nat,
    src_stride: usize,
    dst_len: nat,
    dst_stride: usize,
    size: ImageSize,
    tile_height: usize,
    function: &'static str,
) -> Result<(), Error> {
    let groups = ceil_div(size.height as int, tile_height as int);
    if !fits_c_int(size.width as int) {
        refused(function, "width exceeds c_int range")
    } else if !fits_c_int(size.height as int) {
        refused(function, "height exceeds c_int range")
    } else if !fits_c_int(src_stride as int) {
        refused(function, "source stride exceeds c_int range")
    } else if !fits_c_int(dst_stride as int) {
        refused(function, "destination stride exceeds c_int range")
    } else if !fits_c_int(tile_height as int) {
        refused(function, "tile_height exceeds c_int range")
    } else if size.width == 0 || size.height == 0 {
        Ok(())
    } else if !is_pow2(tile_height as nat) {
        refused(function, "tile_height must be a power of two")
    } else if padded_width(size.width) > usize::MAX {
        refused(function, "source minimum stride overflow")
    } else if src_stride < padded_width(size.width) {
        refused(function, "source stride smaller than round_up(width, 16)")
    } else if dst_stride < size.width {
        refused(function, "destination stride smaller than width")
    } else if src_stride * groups > usize::MAX || src_stride * groups * tile_height > usize::MAX {
        refused(function, "source buffer size overflow")
    } else if src_len < src_stride * groups * tile_height {
        refused(function, "source buffer too small")
    } else if dst_stride * size.height > usize::MAX {
        refused(function, "destination buffer size overflow")
    } else if dst_len < dst_stride * size.height {
        refused(function, "destination buffer too small")
    } else {
        Ok(())
    }
}

/// `stride * groups * tile_height`, or `None` when a step overflows.
fn tiled_span_size(stride: usize, groups: usize, tile_height: usize) -> (r: Option<usize>)
    ensures
        r == (if stride * groups > usize::MAX || stride * groups * tile_height > usize::MAX {
            None
        } else {
            Some((stride * groups * tile_height) as usize)
        }),
{
    match stride.checked_mul(groups) {
        Some(v) => v.checked_mul(tile_height),
        None => None,
    }
}

/// Checks a plane detiling given the lengths of the buffers.
pub fn check_detile_plane(
    src_len: usize,
    src_stride: usize,
    dst_len: usize,
    dst_stride: usize,
    size: ImageSize,
    tile_height: usize,
    function: &'static str,
) -> (r: Result<(), Error>)
    ensures
        r == detile_plane_result(src_len as nat, src_stride, dst_len as nat, dst_stride, size, tile_height, function),
{
    require_c_int(size.width, function, "width exceeds c_int range")?;
    require_c_int(size.height, function, "height exceeds c_int range")?;
    require_c_int(src_stride, function, "source stride exceeds c_int range")?;
    require_c_int(dst_stride, function, "destination stride exceeds c_int range")?;
    require_c_int(tile_height, function, "tile_height exceeds c_int range")?;
    if size.width == 0 || size.height == 0 {
        return Ok(());
    }
    if !is_power_of_two(tile_height) {
        return Err(Error::with_reason(-1, function, "tile_height must be a power of two"));
    }
    let src_min_stride = match div_ceil(size.width, 16).checked_mul(16) {
        Some(m) => m,
        None => return Err(Error::with_reason(-1, function, "source minimum stride overflow")),
    };
    if src_stride < src_min_stride {
        return Err(Error::with_reason(-1, function, "source stride smaller than round_up(width, 16)"));
    }
    if dst_stride < size.width {
        return Err(Error::with_reason(-1, function, "destination stride smaller than width"));
    }
    let groups = div_ceil(size.height, tile_height);
    let src_size = match tiled_span_size(src_stride, groups, tile_height) {
        Some(s) => s,
        None => return Err(Error::with_reason(-1, function, "source buffer size overflow")),
    };
    if src_len < src_size {
        return Err(Error::with_reason(-1, function, "source buffer too small"));
    }
    let dst_size = checked_buf_size(dst_stride, size.height, function, "destination buffer size overflow")?;
    if dst_len < dst_size {
        return Err(Error::with_reason(-1, function, "destination buffer too small"));
    }
    Ok(())
}

/// Everything `detile_plane` checks before calling libyuv; `Ok(false)` for
/// an empty image, which needs no call.
pub fn validate_detile_plane(src: &[u8], src_stride: usize, dst: &[u8], dst_stride: usize, size: ImageSize, tile_height: usize) -> (r: Result<bool, Error>)
    ensures
        r == detile_answer(
            detile_plane_result(src@.len(), src_stride, dst@.len(), dst_stride, size, tile_height, "DetilePlane"),
            size,
        ),
{
    check_detile_plane(src.len(), src_stride, dst.len(), dst_stride, size, tile_height, "DetilePlane")?;
    Ok(size.width != 0 && size.height != 0)
}

/// Everything `detile_plane_16` checks before calling libyuv (strides and
/// lengths count 16-bit elements); `Ok(false)` for an empty image, which
/// needs no call.
pub fn validate_detile_plane_16(src: &[u16], src_stride: usize, dst: &[u16], dst_stride: usize, size: ImageSize, tile_height: usize) -> (r: Result<bool, Error>)
    ensures
        r == detile_answer(
            detile_plane_result(src@.len(), src_stride, dst@.len(), dst_stride, size, tile_height, "DetilePlane_16"),
            size,
        ),
{
    check_detile_plane(src.len(), src_stride, dst.len(), dst_stride, size, tile_height, "DetilePlane_16")?;
    Ok(size.width != 0 && size.height != 0)
}

/// The outcome of checking a `DetileSplitUVPlane` call: a tiled interleaved
/// chroma plane split into two linear planes `ceil(width / 2)` wide.
pub open spec fn detile_split_uv_result(
    src_uv_len: nat,
    src_stride_uv: usize,
    dst_u_len: nat,
    dst_stride_u: usize,
    dst_v_len: nat,
    dst_stride_v: usize,
    size: ImageSize,
    tile_height: usize,
) -> Result<(), Error> {
    let f = "DetileSplitUVPlane";
    let groups = ceil_div(size.height as int, tile_height as int);
    let half = ceil_div(size.width as int, 2);
    if !fits_c_int(size.width as int) {
        refused(f, "width exceeds c_int range")
    } else if !fits_c_int(size.height as int) {
        refused(f, "height exceeds c_int range")
    } else if !fits_c_int(src_stride_uv as int) {
        refused(f, "source UV stride exceeds c_int range")
    } else if !fits_c_int(dst_stride_u as int) {
        refused(f, "destination U stride exceeds c_int range")
    } else if !fits_c_int(dst_stride_v as int) {
        refused(f, "destination V stride exceeds c_int range")
    } else if !fits_c_int(tile_height as int) {
        refused(f, "tile_height exceeds c_int range")
    } else if size.width == 0 || size.height == 0 {
        Ok(())
    } else if !is_pow2(tile_height as nat) {
        refused(f, "tile_height must be a power of two")
    } else if src_stride_uv < padded_width(size.width) {
        refused(f, "source UV stride smaller than round_up(width, 16)")
    } else if dst_stride_u < half {
        refused(f, "destination U stride smaller than (width + 1) / 2")
    } else if dst_stride_v < half {
        refused(f, "destination V stride smaller than (width + 1) / 2")
    } else if src_stride_uv * groups > usize::MAX || src_stride_uv * groups * tile_height > usize::MAX {
        refused(f, "source UV buffer size overflow")
    } else if src_uv_len < src_stride_uv * groups * tile_height {
        refused(f, "source UV buffer too small")
    } else if dst_stride_u * size.height > usize::MAX {
        refused(f, "destination U buffer size overflow")
    } else if dst_u_len < dst_stride_u * size.height {
        refused(f, "destination U buffer too small")
    } else if dst_stride_v * size.height > usize::MAX {
        refused(f, "destination V buffer size overflow")
    } else if dst_v_len < dst_stride_v * size.height {
        refused(f, "destination V buffer too small")
    } else {
        Ok(())
    }
}

/// Everything `detile_split_uv_plane` checks before calling libyuv;
/// `Ok(false)` for an empty image, which needs no call.
pub fn validate_detile_split_uv_plane(
    src_uv: &[u8],
    src_stride_uv: usize,
    dst_u: &[u8],
    dst_stride_u: usize,
    dst_v: &[u8],
    dst_stride_v: usize,
    size: ImageSize,
    tile_height: usize,
) -> (r: Result<bool, Error>)
    ensures
        r == detile_answer(
            detile_split_uv_result(
                src_uv@.len(), src_stride_uv, dst_u@.len(), dst_stride_u, dst_v@.len(), dst_stride_v, size, tile_height,
            ),
            size,
        ),
{
    let f = "DetileSplitUVPlane";
    require_c_int(size.width, f, "width exceeds c_int range")?;
    require_c_int(size.height, f, "height exceeds c_int range")?;
    require_c_int(src_stride_uv, f, "source UV stride exceeds c_int range")?;
    require_c_int(dst_stride_u, f, "destination U stride exceeds c_int range")?;
    require_c_int(dst_stride_v, f, "destination V stride exceeds c_int range")?;
    require_c_int(tile_height, f, "tile_height exceeds c_int range")?;
    if size.width == 0 || size.height == 0 {
        return Ok(false);
    }
    if !is_power_of_two(tile_height) {
        return Err(Error::with_reason(-1, f, "tile_height must be a power of two"));
    }
    // The width fits a C int, so rounding it up to 16 cannot overflow.
    proof {
        crate::checks::lemma_ceil_div(size.width as int, 16);
    }
    let src_min_stride = div_ceil(size.width, 16) * 16;
    if src_stride_uv < src_min_stride {
        return Err(Error::with_reason(-1, f, "source UV stride smaller than round_up(width, 16)"));
    }
    let uv_plane_width = div_ceil(size.width, 2);
    if dst_stride_u < uv_plane_width {
        return Err(Error::with_reason(-1, f, "destination U stride smaller than (width + 1) / 2"));
    }
    if dst_stride_v < uv_plane_width {
        return Err(Error::with_reason(-1, f, "destination V stride smaller than (width + 1) / 2"));
    }
    let groups = div_ceil(size.height, tile_height);
    let src_size = match tiled_span_size(src_stride_uv, groups, tile_height) {
        Some(s) => s,
        None => return Err(Error::with_reason(-1, f, "source UV buffer size overflow")),
    };
    if src_uv.len() < src_size {
        return Err(Error::with_reason(-1, f, "source UV buffer too small"));
    }
    let dst_u_size = checked_buf_size(dst_stride_u, size.height, f, "destination U buffer size overflow")?;
    if dst_u.len() < dst_u_size {
        return Err(Error::with_reason(-1, f, "destination U buffer too small"));
    }
    let dst_v_size = checked_buf_size(dst_stride_v, size.height, f, "destination V buffer size overflow")?;
    if dst_v.len() < dst_v_size {
        return Err(Error::with_reason(-1, f, "destination V buffer too small"));
    }
    Ok(true)
}

/// The tiled checks of `detile_to_yuy2` that follow the planar validation:
/// both source strides cover the width rounded up to 16, the luma plane spans
/// every row of tiles of `tile_height` rows and the chroma plane every row of
/// tiles of `tile_height / 2` rows.
pub open spec fn detile_to_yuy2_tiles_result(
    y_len: nat,
    y_stride: usize,
    uv_len: nat,
    uv_stride: usize,
    size: ImageSize,
    tile_height: usize,
) -> Result<(), Error> {
    let f = "DetileToYUY2";
    let groups = ceil_div(size.height as int, tile_height as int);
    let uv_tile = tile_height / 2;
    if padded_width(size.width) > usize::MAX {
        refused(f, "source minimum stride overflow")
    } else if y_stride < padded_width(size.width) {
        refused(f, "Y stride smaller than round_up(width, 16)")
    } else if uv_stride < padded_width(size.width) {
        refused(f, "UV stride smaller than round_up(width, 16)")
    } else if y_stride * groups > usize::MAX || y_stride * groups * tile_height > usize::MAX {
        refused(f, "source Y buffer size overflow")
    } else if y_len < y_stride * groups * tile_height {
        refused(f, "source Y buffer too small")
    } else if uv_stride * groups > usize::MAX || uv_stride * groups * uv_tile > usize::MAX {
        refused(f, "source UV buffer size overflow")
    } else if uv_len < uv_stride * groups * uv_tile {
        refused(f, "source UV buffer too small")
    } else {
        Ok(())
    }
}

/// The outcome of checking a `DetileToYUY2` call.
pub open spec fn detile_to_yuy2_result(src: &Nv12Image, dst: &Yuy2ImageMut, size: ImageSize, tile_height: usize) -> Result<(), Error> {
    let f = "DetileToYUY2";
    if size.width == 0 || size.height == 0 {
        Ok(())
    } else if !fits_c_int(tile_height as int) {
        refused(f, "tile_height exceeds c_int range")
    } else if !is_pow2(tile_height as nat) {
        refused(f, "tile_height must be a power of two")
    } else if tile_height < 2 {
        refused(f, "tile_height must be at least 2")
    } else if src.spec_validate(size, f) is Err {
        src.spec_validate(size, f)
    } else if dst.spec_validate(size, f) is Err {
        dst.spec_validate(size, f)
    } else {
        detile_to_yuy2_tiles_result(src.y@.len(), src.y_stride, src.uv@.len(), src.uv_stride, size, tile_height)
    }
}

/// Everything `detile_to_yuy2` checks before calling libyuv. An empty image
/// is accepted before any other check, as a no-op (`Ok(false)`); otherwise the
/// tile height must be a power of two of at least 2 (the chroma tiles are half
/// as high).
pub fn validate_detile_to_yuy2(src: &Nv12Image, dst: &Yuy2ImageMut, size: ImageSize, tile_height: usize) -> (r: Result<bool, Error>)
    ensures
        r == detile_answer(detile_to_yuy2_result(src, dst, size, tile_height), size),
{
    let f = "DetileToYUY2";
    if size.width == 0 || size.height == 0 {
        return Ok(false);
    }
    require_c_int(tile_height, f, "tile_height exceeds c_int range")?;
    if !is_power_of_two(tile_height) {
        return Err(Error::with_reason(-1, f, "tile_height must be a power of two"));
    }
    if tile_height < 2 {
        return Err(Error::with_reason(-1, f, "tile_height must be at least 2"));
    }
    src.validate(size, f)?;
    dst.validate(size, f)?;
    let src_min_stride = match div_ceil(size.width, 16).checked_mul(16) {
        Some(m) => m,
        None => return Err(Error::with_reason(-1, f, "source minimum stride overflow")),
    };
    if src.y_stride < src_min_stride {
        return Err(Error::with_reason(-1, f, "Y stride smaller than round_up(width, 16)"));
    }
    if src.uv_stride < src_min_stride {
        return Err(Error::with_reason(-1, f, "UV stride smaller than round_up(width, 16)"));
    }
    let groups = div_ceil(size.height, tile_height);
    let y_size = match tiled_span_size(src.y_stride, groups, tile_height) {
        Some(s) => s,
        None => return Err(Error::with_reason(-1, f, "source Y buffer size overflow")),
    };
    if src.y.len() < y_size {
        return Err(Error::with_reason(-1, f, "source Y buffer too small"));
    }
    let uv_size = match tiled_span_size(src.uv_stride, groups, tile_height / 2) {
        Some(s) => s,
        None => return Err(Error::with_reason(-1, f, "source UV buffer size overflow")),
    };
    if src.uv.len() < uv_size {
        return Err(Error::with_reason(-1, f, "source UV buffer too small"));
    }
    Ok(true)
}

} // verus!
