//! Validation of the tiled semi-planar layouts written by MediaTek decoders
//! (MM21, 8-bit, and MT2T, 10-bit packed).
//!
//! libyuv reads a tiled plane one row of tiles at a time: a row of tiles is as
//! wide as the image width rounded up to 16, and rows of tiles are
//! `stride * tile_height` apart. Both planes have `ceil(height / 32)` rows of
//! tiles (luma tiles are 32 rows high, chroma tiles 16, and
//! `ceil(ceil(h / 2) / 16) == ceil(h / 32)`). 10-bit tiles are read at ten
//! eighths of that size.
use vstd::prelude::*;
use crate::checks::{
    ceil_div, checked_tile_row_size, checked_tiled_buf_size, div_ceil, fits_c_int,
    require_c_int, tile_row_size_result, tiled_buf_size_result,
};
use crate::error::{Error, refused};
use crate::geometry::ImageSize;

verus! {

/// The width of a row of tiles: the image width rounded up to a multiple of 16.
pub open spec fn padded_width(width: usize) -> int {
    ceil_div(width as int, 16) * 16
}

/// The number of rows of tiles of either plane.
pub open spec fn tile_rows(height: usize) -> int {
    ceil_div(height as int, 32)
}

/// What remains of the validation once the sizes of the last row of tiles
/// are known: the luma plane needs `y_size`, then the chroma plane.
pub open spec fn tiled_planes_result(
    y_len: nat,
    y_stride: usize,
    uv_len: nat,
    uv_stride: usize,
    rows: usize,
    y_row: Result<usize, Error>,
    uv_row: Result<usize, Error>,
    function: &'static str,
) -> Result<(), Error> {
    match y_row {
        Err(e) => Err(e),
        Ok(y_row_size) => match uv_row {
            Err(e) => Err(e),
            Ok(uv_row_size) => match tiled_buf_size_result(rows, y_stride, 32, y_row_size, function) {
                Err(e) => Err(e),
                Ok(y_size) => if y_len < y_size {
                    refused(function, "source Y buffer too small")
                } else {
                    match tiled_buf_size_result(rows, uv_stride, 16, uv_row_size, function) {
                        Err(e) => Err(e),
                        Ok(uv_size) => if uv_len < uv_size {
                            refused(function, "source UV buffer too small")
                        } else {
                            Ok(())
                        },
                    }
                },
            },
        },
    }
}

/// The outcome of validating a tiled source image.
pub open spec fn tiled_result(
    y_len: nat,
    y_stride: usize,
    uv_len: nat,
    uv_stride: usize,
    size: ImageSize,
    function: &'static str,
    is_10bit: bool,
) -> Result<(), Error> {
    let min_uv_stride = ceil_div(size.width as int, 2) * 2;
    if !fits_c_int(size.width as int) {
        refused(function, "width exceeds c_int range")
    } else if !fits_c_int(size.height as int) {
        refused(function, "height exceeds c_int range")
    } else if !fits_c_int(y_stride as int) {
        refused(function, "Y stride exceeds c_int range")
    } else if !fits_c_int(uv_stride as int) {
        refused(function, "UV stride exceeds c_int range")
    } else if size.width == 0 || size.height == 0 {
        refused(function, "width and height must be greater than 0")
    } else if y_stride < size.width {
        refused(function, "Y stride smaller than width")
    } else if min_uv_stride > usize::MAX {
        refused(function, "UV minimum stride overflow")
    } else if uv_stride < min_uv_stride {
        refused(function, "UV stride smaller than chroma width")
    } else if padded_width(size.width) > usize::MAX {
        refused(function, "padded width overflow")
    } else {
        let padded = padded_width(size.width) as usize;
        tiled_planes_result(
            y_len,
            y_stride,
            uv_len,
            uv_stride,
            tile_rows(size.height) as usize,
            tile_row_size_result(padded, 32, is_10bit, function),
            tile_row_size_result(padded, 16, is_10bit, function),
            function,
        )
    }
}

/// Validates a tiled (MM21 / MT2T) source image.
///
/// The requirement errs on the safe side: for MM21 it may exceed what libyuv
/// reads by up to one row of tiles; MT2T reads whole rows of tiles even when
/// the last one is partial, so there it is exact.
pub fn validate_tiled_nv_src_inner(
    y: &[u8],
    y_stride: usize,
    uv: &[u8],
    uv_stride: usize,
    size: ImageSize,
    function: &'static str,
    is_10bit: bool,
) -> (r: Result<(), Error>)
    ensures
        r == tiled_result(y@.len(), y_stride, uv@.len(), uv_stride, size, function, is_10bit),
{
    require_c_int(size.width, function, "width exceeds c_int range")?;
    require_c_int(size.height, function, "height exceeds c_int range")?;
    require_c_int(y_stride, function, "Y stride exceeds c_int range")?;
    require_c_int(uv_stride, function, "UV stride exceeds c_int range")?;
    if size.width == 0 || size.height == 0 {
        return Err(Error::with_reason(-1, function, "width and height must be greater than 0"));
    }
    if y_stride < size.width {
        return Err(Error::with_reason(-1, function, "Y stride smaller than width"));
    }
    let min_uv_stride = match div_ceil(size.width, 2).checked_mul(2) {
        Some(m) => m,
        None => return Err(Error::with_reason(-1, function, "UV minimum stride overflow")),
    };
    if uv_stride < min_uv_stride {
        return Err(Error::with_reason(-1, function, "UV stride smaller than chroma width"));
    }
    let padded = match div_ceil(size.width, 16).checked_mul(16) {
        Some(p) => p,
        None => return Err(Error::with_reason(-1, function, "padded width overflow")),
    };
    let rows = div_ceil(size.height, 32);
    proof {
        crate::checks::lemma_ceil_div(size.height as int, 32);
    }
    let y_row_size = checked_tile_row_size(padded, 32, is_10bit, function)?;
    let uv_row_size = checked_tile_row_size(padded, 16, is_10bit, function)?;
    let y_size = checked_tiled_buf_size(rows, y_stride, 32, y_row_size, function)?;
    if y.len() < y_size {
        return Err(Error::with_reason(-1, function, "source Y buffer too small"));
    }
    let uv_size = checked_tiled_buf_size(rows, uv_stride, 16, uv_row_size, function)?;
    if uv.len() < uv_size {
        return Err(Error::with_reason(-1, function, "source UV buffer too small"));
    }
    Ok(())
}

} // verus!
