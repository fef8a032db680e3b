//! Checks before converting to and from the packed 4:2:2 formats YUY2 and UYVY.
//!
//! libyuv's row wrappers handle an odd width by processing one extra pixel
//! pair: the last row then reads (or writes) `width * 2 + 2` bytes, past the
//! `width * 2` the row holds. A source read row by row therefore needs
//! `stride * (height - 1) + width * 2 + 2` bytes when the width is odd. When
//! libyuv coalesces all rows into one (packed rows, nothing between them,
//! `width * height` within a C int), the single row reads two bytes too many
//! only if `width * height` is odd. The requirement assumes the worst case
//! whatever the CPU. An empty image is left to libyuv, which refuses it.
use vstd::prelude::*;
use crate::checks::{C_INT_MAX, checked_buf_size, fits_c_int, require_c_int};
use crate::error::{Error, first_error, refused};
use crate::geometry::ImageSize;
use crate::packed_images::{ArgbImage, ArgbImageMut, UyvyImage, UyvyImageMut, Yuy2Image, Yuy2ImageMut};
use crate::planar_images::{I420Image, I420ImageMut, I422Image, I422ImageMut};
use crate::semi_planar_images::Nv12ImageMut;

verus! {

/// The bytes libyuv reads from a YUY2 / UYVY source of `size` pixels.
pub open spec fn packed422_src_required(stride: usize, size: ImageSize, coalesce: bool) -> int {
    if coalesce {
        stride * size.height + (if (size.width * size.height) % 2 == 1 { 2int } else { 0int })
    } else if size.width % 2 == 1 {
        stride * (size.height - 1) + size.width * 2 + 2
    } else {
        stride * size.height
    }
}

/// The outcome of checking that a YUY2 / UYVY source covers what libyuv reads.
pub open spec fn packed422_src_result(len: nat, stride: usize, size: ImageSize, coalesce: bool, function: &'static str) -> Result<(), Error> {
    if size.height == 0 {
        Ok(())
    } else if stride * size.height > usize::MAX || (coalesce && size.width * size.height > usize::MAX)
        || packed422_src_required(stride, size, coalesce) > usize::MAX {
        refused(function, "source buffer size overflow")
    } else if len < packed422_src_required(stride, size, coalesce) {
        refused(function, "source buffer too small")
    } else {
        Ok(())
    }
}

/// Checks that a YUY2 / UYVY source of `len` bytes covers what libyuv reads,
/// including the two bytes past the last row when the width is odd.
pub fn check_yuy2_uyvy_src_overread(src: &[u8], src_stride: usize, size: ImageSize, coalesce: bool, function: &'static str) -> (r: Result<(), Error>)
    ensures
        r == packed422_src_result(src@.len(), src_stride, size, coalesce, function),
{
    if size.height == 0 {
        return Ok(());
    }
    let height_minus_1 = size.height - 1;
    let base_size = checked_buf_size(src_stride, size.height, function, "source buffer size overflow")?;
    let required = if coalesce {
        let wh = match size.width.checked_mul(size.height) {
            Some(v) => v,
            None => return Err(Error::with_reason(-1, function, "source buffer size overflow")),
        };
        if wh % 2 == 1 {
            match base_size.checked_add(2) {
                Some(v) => v,
                None => return Err(Error::with_reason(-1, function, "source buffer size overflow")),
            }
        } else {
            base_size
        }
    } else if size.width % 2 == 1 {
        let head_size = checked_buf_size(src_stride, height_minus_1, function, "source buffer size overflow")?;
        let last_row = match size.width.checked_mul(2) {
            Some(w2) => w2.checked_add(2),
            None => None,
        };
        let total = match last_row {
            Some(l) => head_size.checked_add(l),
            None => None,
        };
        match total {
            Some(t) => t,
            None => return Err(Error::with_reason(-1, function, "source buffer size overflow")),
        }
    } else {
        base_size
    };
    if src.len() < required {
        return Err(Error::with_reason(-1, function, "source buffer too small"));
    }
    Ok(())
}

/// The bytes libyuv writes to a YUY2 / UYVY destination of `size` pixels.
pub open spec fn packed422_dst_required(stride: usize, size: ImageSize) -> int {
    if size.width % 2 == 1 {
        stride * (size.height - 1) + size.width * 2 + 2
    } else {
        stride * size.height
    }
}

/// The outcome of checking that a YUY2 / UYVY destination covers what libyuv writes.
pub open spec fn packed422_dst_result(len: nat, stride: usize, size: ImageSize, function: &'static str) -> Result<(), Error> {
    if size.height == 0 {
        Ok(())
    } else if packed422_dst_required(stride, size) > usize::MAX {
        refused(function, "destination buffer size overflow")
    } else if len < packed422_dst_required(stride, size) {
        refused(function, "destination buffer too small")
    } else {
        Ok(())
    }
}

/// Checks that a YUY2 / UYVY destination of `len` bytes covers what libyuv
/// writes, including the two bytes past the last row when the width is odd
/// (libyuv never coalesces rows there for odd widths).
pub fn check_yuy2_uyvy_dst_overwrite(dst: &[u8], dst_stride: usize, size: ImageSize, function: &'static str) -> (r: Result<(), Error>)
    ensures
        r == packed422_dst_result(dst@.len(), dst_stride, size, function),
{
    if size.height == 0 {
        return Ok(());
    }
    let height_minus_1 = size.height - 1;
    let required = if size.width % 2 == 1 {
        let head_size = checked_buf_size(dst_stride, height_minus_1, function, "destination buffer size overflow")?;
        let last_row = match size.width.checked_mul(2) {
            Some(w2) => w2.checked_add(2),
            None => None,
        };
        let total = match last_row {
            Some(l) => head_size.checked_add(l),
            None => None,
        };
        match total {
            Some(t) => t,
            None => return Err(Error::with_reason(-1, function, "destination buffer size overflow")),
        }
    } else {
        checked_buf_size(dst_stride, size.height, function, "destination buffer size overflow")?
    };
    if dst.len() < required {
        return Err(Error::with_reason(-1, function, "destination buffer too small"));
    }
    Ok(())
}

/// Whether libyuv coalesces the rows of a packed 4:2:2 conversion into one:
/// the source rows are packed (`2 * width` bytes apart), the destination rows
/// are packed (`dst_row` elements apart) and `width * height` fits a C int.
pub open spec fn rows_coalesce(src_stride: usize, dst_stride: usize, dst_row: int, size: ImageSize) -> bool {
    &&& src_stride == size.width * 2
    &&& dst_stride == dst_row
    &&& size.width * size.height <= C_INT_MAX
}

/// Whether `width * height` fits a C int.
fn area_fits_c_int(size: ImageSize) -> (b: bool)
    ensures
        b == (size.width * size.height <= C_INT_MAX),
{
    match size.width.checked_mul(size.height) {
        Some(wh) => wh <= C_INT_MAX,
        None => false,
    }
}

/// The outcome of checking a luma-only destination of a `*ToY` conversion.
pub open spec fn y_destination_result(dst_len: nat, dst_stride_y: usize, size: ImageSize, function: &'static str) -> Result<(), Error> {
    if !fits_c_int(dst_stride_y as int) {
        refused(function, "destination stride exceeds c_int range")
    } else if dst_stride_y < size.width {
        refused(function, "destination stride smaller than width")
    } else if dst_stride_y * size.height > usize::MAX {
        refused(function, "destination buffer size overflow")
    } else if dst_len < dst_stride_y * size.height {
        refused(function, "destination Y buffer too small")
    } else {
        Ok(())
    }
}

/// Checks the luma destination of a `*ToY` conversion.
fn check_y_destination(dst_y: &[u8], dst_stride_y: usize, size: ImageSize, function: &'static str) -> (r: Result<(), Error>)
    ensures
        r == y_destination_result(dst_y@.len(), dst_stride_y, size, function),
{
    require_c_int(dst_stride_y, function, "destination stride exceeds c_int range")?;
    if dst_stride_y < size.width {
        return Err(Error::with_reason(-1, function, "destination stride smaller than width"));
    }
    let dst_size = checked_buf_size(dst_stride_y, size.height, function, "destination buffer size overflow")?;
    if dst_y.len() < dst_size {
        return Err(Error::with_reason(-1, function, "destination Y buffer too small"));
    }
    Ok(())
}

/// The outcome of the checks made before `yuy2_to_argb`: the first that fails, in
/// the order they are made, or `Ok`.
pub open spec fn yuy2_to_argb_checks(src: &Yuy2Image, dst: &ArgbImageMut, size: ImageSize) -> Result<(), Error> {
    first_error(
        src.spec_validate(size, "YUY2ToARGB"),
        first_error(
            dst.spec_validate(size, "YUY2ToARGB"),
            packed422_src_result(
                src.data@.len(), src.stride, size,
                rows_coalesce(src.stride, dst.stride, size.width * 4, size), "YUY2ToARGB",
            ),
        ),
    )
}

/// Everything `yuy2_to_argb` checks before calling libyuv; libyuv coalesces the
/// rows when both images are packed.
pub fn validate_yuy2_to_argb(src: &Yuy2Image, dst: &ArgbImageMut, size: ImageSize) -> (r: Result<(), Error>)
    ensures
        r == yuy2_to_argb_checks(src, dst, size),
{
    src.validate(size, "YUY2ToARGB")?;
    dst.validate(size, "YUY2ToARGB")?;
    // Both validations passed: the width fits a C int and `width * 4` a usize.
    let coalesce = src.stride == size.width * 2 && dst.stride == size.width * 4 && area_fits_c_int(size);
    check_yuy2_uyvy_src_overread(src.data, src.stride, size, coalesce, "YUY2ToARGB")
}

/// The outcome of the checks made before `yuy2_to_i420`: the first that fails, in
/// the order they are made, or `Ok`.
pub open spec fn yuy2_to_i420_checks(src: &Yuy2Image, dst: &I420ImageMut, size: ImageSize) -> Result<(), Error> {
    first_error(
        src.spec_validate(size, "YUY2ToI420"),
        first_error(
            dst.spec_validate(size, "YUY2ToI420"),
            packed422_src_result(src.data@.len(), src.stride, size, false, "YUY2ToI420"),
        ),
    )
}

/// Everything `yuy2_to_i420` checks before calling libyuv (its rows are never
/// coalesced, so an odd width always reads past the last row).
pub fn validate_yuy2_to_i420(src: &Yuy2Image, dst: &I420ImageMut, size: ImageSize) -> (r: Result<(), Error>)
    ensures
        r == yuy2_to_i420_checks(src, dst, size),
{
    src.validate(size, "YUY2ToI420")?;
    dst.validate(size, "YUY2ToI420")?;
    check_yuy2_uyvy_src_overread(src.data, src.stride, size, false, "YUY2ToI420")
}

/// The outcome of the checks made before `yuy2_to_i422`: the first that fails, in
/// the order they are made, or `Ok`.
pub open spec fn yuy2_to_i422_checks(src: &Yuy2Image, dst: &I422ImageMut, size: ImageSize) -> Result<(), Error> {
    first_error(
        src.spec_validate(size, "YUY2ToI422"),
        first_error(
            dst.spec_validate(size, "YUY2ToI422"),
            packed422_src_result(src.data@.len(), src.stride, size, false, "YUY2ToI422"),
        ),
    )
}

/// Everything `yuy2_to_i422` checks before calling libyuv (its rows are never
/// coalesced, so an odd width always reads past the last row).
pub fn validate_yuy2_to_i422(src: &Yuy2Image, dst: &I422ImageMut, size: ImageSize) -> (r: Result<(), Error>)
    ensures
        r == yuy2_to_i422_checks(src, dst, size),
{
    src.validate(size, "YUY2ToI422")?;
    dst.validate(size, "YUY2ToI422")?;
    check_yuy2_uyvy_src_overread(src.data, src.stride, size, false, "YUY2ToI422")
}

/// The outcome of the checks made before `yuy2_to_nv12`: the first that fails, in
/// the order they are made, or `Ok`.
pub open spec fn yuy2_to_nv12_checks(src: &Yuy2Image, dst: &Nv12ImageMut, size: ImageSize) -> Result<(), Error> {
    first_error(
        src.spec_validate(size, "YUY2ToNV12"),
        first_error(
            dst.spec_validate(size, "YUY2ToNV12"),
            packed422_src_result(src.data@.len(), src.stride, size, false, "YUY2ToNV12"),
        ),
    )
}

/// Everything `yuy2_to_nv12` checks before calling libyuv (its rows are never
/// coalesced, so an odd width always reads past the last row).
pub fn validate_yuy2_to_nv12(src: &Yuy2Image, dst: &Nv12ImageMut, size: ImageSize) -> (r: Result<(), Error>)
    ensures
        r == yuy2_to_nv12_checks(src, dst, size),
{
    src.validate(size, "YUY2ToNV12")?;
    dst.validate(size, "YUY2ToNV12")?;
    check_yuy2_uyvy_src_overread(src.data, src.stride, size, false, "YUY2ToNV12")
}

/// The outcome of the checks made before `yuy2_to_y`: the first that fails, in
/// the order they are made, or `Ok`.
pub open spec fn yuy2_to_y_checks(src: &Yuy2Image, dst_y: &[u8], dst_stride_y: usize, size: ImageSize) -> Result<(), Error> {
    first_error(
        src.spec_validate(size, "YUY2ToY"),
        first_error(
            y_destination_result(dst_y@.len(), dst_stride_y, size, "YUY2ToY"),
            packed422_src_result(
                src.data@.len(), src.stride, size,
                rows_coalesce(src.stride, dst_stride_y, size.width as int, size), "YUY2ToY",
            ),
        ),
    )
}

/// Everything `yuy2_to_y` checks before calling libyuv: the source, the luma
/// destination (`width` bytes per row), and what the source rows read, which
/// libyuv coalesces when both planes are packed.
pub fn validate_yuy2_to_y(src: &Yuy2Image, dst_y: &[u8], dst_stride_y: usize, size: ImageSize) -> (r: Result<(), Error>)
    ensures
        r == yuy2_to_y_checks(src, dst_y, dst_stride_y, size),
{
    src.validate(size, "YUY2ToY")?;
    check_y_destination(dst_y, dst_stride_y, size, "YUY2ToY")?;
    // The source validation passed: the width fits a C int, so `width * 2` fits a usize.
    let coalesce = src.stride == size.width * 2 && dst_stride_y == size.width && area_fits_c_int(size);
    check_yuy2_uyvy_src_overread(src.data, src.stride, size, coalesce, "YUY2ToY")
}

/// The outcome of the checks made before `argb_to_yuy2`: the first that fails, in
/// the order they are made, or `Ok`.
pub open spec fn argb_to_yuy2_checks(src: &ArgbImage, dst: &Yuy2ImageMut, size: ImageSize) -> Result<(), Error> {
    first_error(
        src.spec_validate(size, "ARGBToYUY2"),
        first_error(
            dst.spec_validate(size, "ARGBToYUY2"),
            packed422_dst_result(dst.data@.len(), dst.stride, size, "ARGBToYUY2"),
        ),
    )
}

/// Everything `argb_to_yuy2` checks before calling libyuv, including the two bytes
/// written past the last row when the width is odd.
pub fn validate_argb_to_yuy2(src: &ArgbImage, dst: &Yuy2ImageMut, size: ImageSize) -> (r: Result<(), Error>)
    ensures
        r == argb_to_yuy2_checks(src, dst, size),
{
    src.validate(size, "ARGBToYUY2")?;
    dst.validate(size, "ARGBToYUY2")?;
    check_yuy2_uyvy_dst_overwrite(dst.data, dst.stride, size, "ARGBToYUY2")
}

/// The outcome of the checks made before `i420_to_yuy2`: the first that fails, in
/// the order they are made, or `Ok`.
pub open spec fn i420_to_yuy2_checks(src: &I420Image, dst: &Yuy2ImageMut, size: ImageSize) -> Result<(), Error> {
    first_error(
        src.spec_validate(size, "I420ToYUY2"),
        first_error(
            dst.spec_validate(size, "I420ToYUY2"),
            packed422_dst_result(dst.data@.len(), dst.stride, size, "I420ToYUY2"),
        ),
    )
}

/// Everything `i420_to_yuy2` checks before calling libyuv, including the two bytes
/// written past the last row when the width is odd.
pub fn validate_i420_to_yuy2(src: &I420Image, dst: &Yuy2ImageMut, size: ImageSize) -> (r: Result<(), Error>)
    ensures
        r == i420_to_yuy2_checks(src, dst, size),
{
    src.validate(size, "I420ToYUY2")?;
    dst.validate(size, "I420ToYUY2")?;
    check_yuy2_uyvy_dst_overwrite(dst.data, dst.stride, size, "I420ToYUY2")
}

/// The outcome of the checks made before `i422_to_yuy2`: the first that fails, in
/// the order they are made, or `Ok`.
pub open spec fn i422_to_yuy2_checks(src: &I422Image, dst: &Yuy2ImageMut, size: ImageSize) -> Result<(), Error> {
    first_error(
        src.spec_validate(size, "I422ToYUY2"),
        first_error(
            dst.spec_validate(size, "I422ToYUY2"),
            packed422_dst_result(dst.data@.len(), dst.stride, size, "I422ToYUY2"),
        ),
    )
}

/// Everything `i422_to_yuy2` checks before calling libyuv, including the two bytes
/// written past the last row when the width is odd.
pub fn validate_i422_to_yuy2(src: &I422Image, dst: &Yuy2ImageMut, size: ImageSize) -> (r: Result<(), Error>)
    ensures
        r == i422_to_yuy2_checks(src, dst, size),
{
    src.validate(size, "I422ToYUY2")?;
    dst.validate(size, "I422ToYUY2")?;
    check_yuy2_uyvy_dst_overwrite(dst.data, dst.stride, size, "I422ToYUY2")
}

/// The outcome of the checks made before `uyvy_to_argb`: the first that fails, in
/// the order they are made, or `Ok`.
pub open spec fn uyvy_to_argb_checks(src: &UyvyImage, dst: &ArgbImageMut, size: ImageSize) -> Result<(), Error> {
    first_error(
        src.spec_validate(size, "UYVYToARGB"),
        first_error(
            dst.spec_validate(size, "UYVYToARGB"),
            packed422_src_result(
                src.data@.len(), src.stride, size,
                rows_coalesce(src.stride, dst.stride, size.width * 4, size), "UYVYToARGB",
            ),
        ),
    )
}

/// Everything `uyvy_to_argb` checks before calling libyuv; libyuv coalesces the
/// rows when both images are packed.
pub fn validate_uyvy_to_argb(src: &UyvyImage, dst: &ArgbImageMut, size: ImageSize) -> (r: Result<(), Error>)
    ensures
        r == uyvy_to_argb_checks(src, dst, size),
{
    src.validate(size, "UYVYToARGB")?;
    dst.validate(size, "UYVYToARGB")?;
    // Both validations passed: the width fits a C int and `width * 4` a usize.
    let coalesce = src.stride == size.width * 2 && dst.stride == size.width * 4 && area_fits_c_int(size);
    check_yuy2_uyvy_src_overread(src.data, src.stride, size, coalesce, "UYVYToARGB")
}

/// The outcome of the checks made before `uyvy_to_i420`: the first that fails, in
/// the order they are made, or `Ok`.
pub open spec fn uyvy_to_i420_checks(src: &UyvyImage, dst: &I420ImageMut, size: ImageSize) -> Result<(), Error> {
    first_error(
        src.spec_validate(size, "UYVYToI420"),
        first_error(
            dst.spec_validate(size, "UYVYToI420"),
            packed422_src_result(src.data@.len(), src.stride, size, false, "UYVYToI420"),
        ),
    )
}

/// Everything `uyvy_to_i420` checks before calling libyuv (its rows are never
/// coalesced, so an odd width always reads past the last row).
pub fn validate_uyvy_to_i420(src: &UyvyImage, dst: &I420ImageMut, size: ImageSize) -> (r: Result<(), Error>)
    ensures
        r == uyvy_to_i420_checks(src, dst, size),
{
    src.validate(size, "UYVYToI420")?;
    dst.validate(size, "UYVYToI420")?;
    check_yuy2_uyvy_src_overread(src.data, src.stride, size, false, "UYVYToI420")
}

/// The outcome of the checks made before `uyvy_to_i422`: the first that fails, in
/// the order they are made, or `Ok`.
pub open spec fn uyvy_to_i422_checks(src: &UyvyImage, dst: &I422ImageMut, size: ImageSize) -> Result<(), Error> {
    first_error(
        src.spec_validate(size, "UYVYToI422"),
        first_error(
            dst.spec_validate(size, "UYVYToI422"),
            packed422_src_result(src.data@.len(), src.stride, size, false, "UYVYToI422"),
        ),
    )
}

/// Everything `uyvy_to_i422` checks before calling libyuv (its rows are never
/// coalesced, so an odd width always reads past the last row).
pub fn validate_uyvy_to_i422(src: &UyvyImage, dst: &I422ImageMut, size: ImageSize) -> (r: Result<(), Error>)
    ensures
        r == uyvy_to_i422_checks(src, dst, size),
{
    src.validate(size, "UYVYToI422")?;
    dst.validate(size, "UYVYToI422")?;
    check_yuy2_uyvy_src_overread(src.data, src.stride, size, false, "UYVYToI422")
}

/// The outcome of the checks made before `uyvy_to_nv12`: the first that fails, in
/// the order they are made, or `Ok`.
pub open spec fn uyvy_to_nv12_checks(src: &UyvyImage, dst: &Nv12ImageMut, size: ImageSize) -> Result<(), Error> {
    first_error(
        src.spec_validate(size, "UYVYToNV12"),
        first_error(
            dst.spec_validate(size, "UYVYToNV12"),
            packed422_src_result(src.data@.len(), src.stride, size, false, "UYVYToNV12"),
        ),
    )
}

/// Everything `uyvy_to_nv12` checks before calling libyuv (its rows are never
/// coalesced, so an odd width always reads past the last row).
pub fn validate_uyvy_to_nv12(src: &UyvyImage, dst: &Nv12ImageMut, size: ImageSize) -> (r: Result<(), Error>)
    ensures
        r == uyvy_to_nv12_checks(src, dst, size),
{
    src.validate(size, "UYVYToNV12")?;
    dst.validate(size, "UYVYToNV12")?;
    check_yuy2_uyvy_src_overread(src.data, src.stride, size, false, "UYVYToNV12")
}

/// The outcome of the checks made before `uyvy_to_y`: the first that fails, in
/// the order they are made, or `Ok`.
pub open spec fn uyvy_to_y_checks(src: &UyvyImage, dst_y: &[u8], dst_stride_y: usize, size: ImageSize) -> Result<(), Error> {
    first_error(
        src.spec_validate(size, "UYVYToY"),
        first_error(
            y_destination_result(dst_y@.len(), dst_stride_y, size, "UYVYToY"),
            packed422_src_result(
                src.data@.len(), src.stride, size,
                rows_coalesce(src.stride, dst_stride_y, size.width as int, size), "UYVYToY",
            ),
        ),
    )
}

/// Everything `uyvy_to_y` checks before calling libyuv: the source, the luma
/// destination (`width` bytes per row), and what the source rows read, which
/// libyuv coalesces when both planes are packed.
pub fn validate_uyvy_to_y(src: &UyvyImage, dst_y: &[u8], dst_stride_y: usize, size: ImageSize) -> (r: Result<(), Error>)
    ensures
        r == uyvy_to_y_checks(src, dst_y, dst_stride_y, size),
{
    src.validate(size, "UYVYToY")?;
    check_y_destination(dst_y, dst_stride_y, size, "UYVYToY")?;
    // The source validation passed: the width fits a C int, so `width * 2` fits a usize.
    let coalesce = src.stride == size.width * 2 && dst_stride_y == size.width && area_fits_c_int(size);
    check_yuy2_uyvy_src_overread(src.data, src.stride, size, coalesce, "UYVYToY")
}

/// The outcome of the checks made before `argb_to_uyvy`: the first that fails, in
/// the order they are made, or `Ok`.
pub open spec fn argb_to_uyvy_checks(src: &ArgbImage, dst: &UyvyImageMut, size: ImageSize) -> Result<(), Error> {
    first_error(
        src.spec_validate(size, "ARGBToUYVY"),
        first_error(
            dst.spec_validate(size, "ARGBToUYVY"),
            packed422_dst_result(dst.data@.len(), dst.stride, size, "ARGBToUYVY"),
        ),
    )
}

/// Everything `argb_to_uyvy` checks before calling libyuv, including the two bytes
/// written past the last row when the width is odd.
pub fn validate_argb_to_uyvy(src: &ArgbImage, dst: &UyvyImageMut, size: ImageSize) -> (r: Result<(), Error>)
    ensures
        r == argb_to_uyvy_checks(src, dst, size),
{
    src.validate(size, "ARGBToUYVY")?;
    dst.validate(size, "ARGBToUYVY")?;
    check_yuy2_uyvy_dst_overwrite(dst.data, dst.stride, size, "ARGBToUYVY")
}

/// The outcome of the checks made before `i420_to_uyvy`: the first that fails, in
/// the order they are made, or `Ok`.
pub open spec fn i420_to_uyvy_checks(src: &I420Image, dst: &UyvyImageMut, size: ImageSize) -> Result<(), Error> {
    first_error(
        src.spec_validate(size, "I420ToUYVY"),
        first_error(
            dst.spec_validate(size, "I420ToUYVY"),
            packed422_dst_result(dst.data@.len(), dst.stride, size, "I420ToUYVY"),
        ),
    )
}

/// Everything `i420_to_uyvy` checks before calling libyuv, including the two bytes
/// written past the last row when the width is odd.
pub fn validate_i420_to_uyvy(src: &I420Image, dst: &UyvyImageMut, size: ImageSize) -> (r: Result<(), Error>)
    ensures
        r == i420_to_uyvy_checks(src, dst, size),
{
    src.validate(size, "I420ToUYVY")?;
    dst.validate(size, "I420ToUYVY")?;
    check_yuy2_uyvy_dst_overwrite(dst.data, dst.stride, size, "I420ToUYVY")
}

/// The outcome of the checks made before `i422_to_uyvy`: the first that fails, in
/// the order they are made, or `Ok`.
pub open spec fn i422_to_uyvy_checks(src: &I422Image, dst: &UyvyImageMut, size: ImageSize) -> Result<(), Error> {
    first_error(
        src.spec_validate(size, "I422ToUYVY"),
        first_error(
            dst.spec_validate(size, "I422ToUYVY"),
            packed422_dst_result(dst.data@.len(), dst.stride, size, "I422ToUYVY"),
        ),
    )
}

/// Everything `i422_to_uyvy` checks before calling libyuv, including the two bytes
/// written past the last row when the width is odd.
pub fn validate_i422_to_uyvy(src: &I422Image, dst: &UyvyImageMut, size: ImageSize) -> (r: Result<(), Error>)
    ensures
        r == i422_to_uyvy_checks(src, dst, size),
{
    src.validate(size, "I422ToUYVY")?;
    dst.validate(size, "I422ToUYVY")?;
    check_yuy2_uyvy_dst_overwrite(dst.data, dst.stride, size, "I422ToUYVY")
}

/// The checks made before `yuy2_to_argb` pass exactly when each of them passes:
/// the images and planes it is handed all validate for the size.
pub proof fn law_yuy2_to_argb_checks_pass(src: &Yuy2Image, dst: &ArgbImageMut, size: ImageSize)
    ensures
        yuy2_to_argb_checks(src, dst, size) is Ok <==> {
            &&& (src.spec_validate(size, "YUY2ToARGB")) is Ok
            &&& (dst.spec_validate(size, "YUY2ToARGB")) is Ok
            &&& (packed422_src_result(
                    src.data@.len(), src.stride, size,
                    rows_coalesce(src.stride, dst.stride, size.width * 4, size), "YUY2ToARGB",
                )) is Ok
        },
{
}

/// The checks made before `yuy2_to_i420` pass exactly when each of them passes:
/// the images and planes it is handed all validate for the size.
pub proof fn law_yuy2_to_i420_checks_pass(src: &Yuy2Image, dst: &I420ImageMut, size: ImageSize)
    ensures
        yuy2_to_i420_checks(src, dst, size) is Ok <==> {
            &&& (src.spec_validate(size, "YUY2ToI420")) is Ok
            &&& (dst.spec_validate(size, "YUY2ToI420")) is Ok
            &&& (packed422_src_result(src.data@.len(), src.stride, size, false, "YUY2ToI420")) is Ok
        },
{
}

/// The checks made before `yuy2_to_i422` pass exactly when each of them passes:
/// the images and planes it is handed all validate for the size.
pub proof fn law_yuy2_to_i422_checks_pass(src: &Yuy2Image, dst: &I422ImageMut, size: ImageSize)
    ensures
        yuy2_to_i422_checks(src, dst, size) is Ok <==> {
            &&& (src.spec_validate(size, "YUY2ToI422")) is Ok
            &&& (dst.spec_validate(size, "YUY2ToI422")) is Ok
            &&& (packed422_src_result(src.data@.len(), src.stride, size, false, "YUY2ToI422")) is Ok
        },
{
}

/// The checks made before `yuy2_to_nv12` pass exactly when each of them passes:
/// the images and planes it is handed all validate for the size.
pub proof fn law_yuy2_to_nv12_checks_pass(src: &Yuy2Image, dst: &Nv12ImageMut, size: ImageSize)
    ensures
        yuy2_to_nv12_checks(src, dst, size) is Ok <==> {
            &&& (src.spec_validate(size, "YUY2ToNV12")) is Ok
            &&& (dst.spec_validate(size, "YUY2ToNV12")) is Ok
            &&& (packed422_src_result(src.data@.len(), src.stride, size, false, "YUY2ToNV12")) is Ok
        },
{
}

/// The checks made before `yuy2_to_y` pass exactly when each of them passes:
/// the images and planes it is handed all validate for the size.
pub proof fn law_yuy2_to_y_checks_pass(src: &Yuy2Image, dst_y: &[u8], dst_stride_y: usize, size: ImageSize)
    ensures
        yuy2_to_y_checks(src, dst_y, dst_stride_y, size) is Ok <==> {
            &&& (src.spec_validate(size, "YUY2ToY")) is Ok
            &&& (y_destination_result(dst_y@.len(), dst_stride_y, size, "YUY2ToY")) is Ok
            &&& (packed422_src_result(
                    src.data@.len(), src.stride, size,
                    rows_coalesce(src.stride, dst_stride_y, size.width as int, size), "YUY2ToY",
                )) is Ok
        },
{
}

/// The checks made before `argb_to_yuy2` pass exactly when each of them passes:
/// the images and planes it is handed all validate for the size.
pub proof fn law_argb_to_yuy2_checks_pass(src: &ArgbImage, dst: &Yuy2ImageMut, size: ImageSize)
    ensures
        argb_to_yuy2_checks(src, dst, size) is Ok <==> {
            &&& (src.spec_validate(size, "ARGBToYUY2")) is Ok
            &&& (dst.spec_validate(size, "ARGBToYUY2")) is Ok
            &&& (packed422_dst_result(old(dst.data)@.len(), dst.stride, size, "ARGBToYUY2")) is Ok
        },
{
}

/// The checks made before `i420_to_yuy2` pass exactly when each of them passes:
/// the images and planes it is handed all validate for the size.
pub proof fn law_i420_to_yuy2_checks_pass(src: &I420Image, dst: &Yuy2ImageMut, size: ImageSize)
    ensures
        i420_to_yuy2_checks(src, dst, size) is Ok <==> {
            &&& (src.spec_validate(size, "I420ToYUY2")) is Ok
            &&& (dst.spec_validate(size, "I420ToYUY2")) is Ok
            &&& (packed422_dst_result(old(dst.data)@.len(), dst.stride, size, "I420ToYUY2")) is Ok
        },
{
}

/// The checks made before `i422_to_yuy2` pass exactly when each of them passes:
/// the images and planes it is handed all validate for the size.
pub proof fn law_i422_to_yuy2_checks_pass(src: &I422Image, dst: &Yuy2ImageMut, size: ImageSize)
    ensures
        i422_to_yuy2_checks(src, dst, size) is Ok <==> {
            &&& (src.spec_validate(size, "I422ToYUY2")) is Ok
            &&& (dst.spec_validate(size, "I422ToYUY2")) is Ok
            &&& (packed422_dst_result(old(dst.data)@.len(), dst.stride, size, "I422ToYUY2")) is Ok
        },
{
}

/// The checks made before `uyvy_to_argb` pass exactly when each of them passes:
/// the images and planes it is handed all validate for the size.
pub proof fn law_uyvy_to_argb_checks_pass(src: &UyvyImage, dst: &ArgbImageMut, size: ImageSize)
    ensures
        uyvy_to_argb_checks(src, dst, size) is Ok <==> {
            &&& (src.spec_validate(size, "UYVYToARGB")) is Ok
            &&& (dst.spec_validate(size, "UYVYToARGB")) is Ok
            &&& (packed422_src_result(
                    src.data@.len(), src.stride, size,
                    rows_coalesce(src.stride, dst.stride, size.width * 4, size), "UYVYToARGB",
                )) is Ok
        },
{
}

/// The checks made before `uyvy_to_i420` pass exactly when each of them passes:
/// the images and planes it is handed all validate for the size.
pub proof fn law_uyvy_to_i420_checks_pass(src: &UyvyImage, dst: &I420ImageMut, size: ImageSize)
    ensures
        uyvy_to_i420_checks(src, dst, size) is Ok <==> {
            &&& (src.spec_validate(size, "UYVYToI420")) is Ok
            &&& (dst.spec_validate(size, "UYVYToI420")) is Ok
            &&& (packed422_src_result(src.data@.len(), src.stride, size, false, "UYVYToI420")) is Ok
        },
{
}

/// The checks made before `uyvy_to_i422` pass exactly when each of them passes:
/// the images and planes it is handed all validate for the size.
pub proof fn law_uyvy_to_i422_checks_pass(src: &UyvyImage, dst: &I422ImageMut, size: ImageSize)
    ensures
        uyvy_to_i422_checks(src, dst, size) is Ok <==> {
            &&& (src.spec_validate(size, "UYVYToI422")) is Ok
            &&& (dst.spec_validate(size, "UYVYToI422")) is Ok
            &&& (packed422_src_result(src.data@.len(), src.stride, size, false, "UYVYToI422")) is Ok
        },
{
}

/// The checks made before `uyvy_to_nv12` pass exactly when each of them passes:
/// the images and planes it is handed all validate for the size.
pub proof fn law_uyvy_to_nv12_checks_pass(src: &UyvyImage, dst: &Nv12ImageMut, size: ImageSize)
    ensures
        uyvy_to_nv12_checks(src, dst, size) is Ok <==> {
            &&& (src.spec_validate(size, "UYVYToNV12")) is Ok
            &&& (dst.spec_validate(size, "UYVYToNV12")) is Ok
            &&& (packed422_src_result(src.data@.len(), src.stride, size, false, "UYVYToNV12")) is Ok
        },
{
}

/// The checks made before `uyvy_to_y` pass exactly when each of them passes:
/// the images and planes it is handed all validate for the size.
pub proof fn law_uyvy_to_y_checks_pass(src: &UyvyImage, dst_y: &[u8], dst_stride_y: usize, size: ImageSize)
    ensures
        uyvy_to_y_checks(src, dst_y, dst_stride_y, size) is Ok <==> {
            &&& (src.spec_validate(size, "UYVYToY")) is Ok
            &&& (y_destination_result(dst_y@.len(), dst_stride_y, size, "UYVYToY")) is Ok
            &&& (packed422_src_result(
                    src.data@.len(), src.stride, size,
                    rows_coalesce(src.stride, dst_stride_y, size.width as int, size), "UYVYToY",
                )) is Ok
        },
{
}

/// The checks made before `argb_to_uyvy` pass exactly when each of them passes:
/// the images and planes it is handed all validate for the size.
pub proof fn law_argb_to_uyvy_checks_pass(src: &ArgbImage, dst: &UyvyImageMut, size: ImageSize)
    ensures
        argb_to_uyvy_checks(src, dst, size) is Ok <==> {
            &&& (src.spec_validate(size, "ARGBToUYVY")) is Ok
            &&& (dst.spec_validate(size, "ARGBToUYVY")) is Ok
            &&& (packed422_dst_result(old(dst.data)@.len(), dst.stride, size, "ARGBToUYVY")) is Ok
        },
{
}

/// The checks made before `i420_to_uyvy` pass exactly when each of them passes:
/// the images and planes it is handed all validate for the size.
pub proof fn law_i420_to_uyvy_checks_pass(src: &I420Image, dst: &UyvyImageMut, size: ImageSize)
    ensures
        i420_to_uyvy_checks(src, dst, size) is Ok <==> {
            &&& (src.spec_validate(size, "I420ToUYVY")) is Ok
            &&& (dst.spec_validate(size, "I420ToUYVY")) is Ok
            &&& (packed422_dst_result(old(dst.data)@.len(), dst.stride, size, "I420ToUYVY")) is Ok
        },
{
}

/// The checks made before `i422_to_uyvy` pass exactly when each of them passes:
/// the images and planes it is handed all validate for the size.
pub proof fn law_i422_to_uyvy_checks_pass(src: &I422Image, dst: &UyvyImageMut, size: ImageSize)
    ensures
        i422_to_uyvy_checks(src, dst, size) is Ok <==> {
            &&& (src.spec_validate(size, "I422ToUYVY")) is Ok
            &&& (dst.spec_validate(size, "I422ToUYVY")) is Ok
            &&& (packed422_dst_result(old(dst.data)@.len(), dst.stride, size, "I422ToUYVY")) is Ok
        },
{
}

} // verus!
