//! Checks before converting Android camera frames (`Android420*`).
//!
//! Android delivers 4:2:0 frames whose chroma samples are either planar
//! (`pixel_stride_uv == 1`) or interleaved (`pixel_stride_uv == 2`). In the
//! interleaved case libyuv advances `2 * ceil(width / 2)` bytes per chroma row,
//! so both chroma strides must cover that. The buffer lengths are already
//! covered by the planar validation, which requires `stride * ceil(height / 2)`.
use vstd::prelude::*;
use crate::checks::{ceil_div, div_ceil};
use crate::error::{Error, first_error, refused};
use crate::geometry::ImageSize;
use crate::packed_images::{AbgrImageMut, ArgbImageMut};
use crate::planar_images::{Android420Image, I420ImageMut};

verus! {

/// The outcome of checking the chroma pixel stride of an Android frame.
pub open spec fn android420_uv_result(u_stride: usize, v_stride: usize, pixel_stride_uv: usize, size: ImageSize, function: &'static str) -> Result<(), Error> {
    let row = ceil_div(size.width as int, 2) * 2;
    if pixel_stride_uv == 1 {
        Ok(())
    } else if pixel_stride_uv == 2 {
        if row > usize::MAX {
            refused(function, "UV minimum stride overflow")
        } else if u_stride < row {
            refused(function, "U stride smaller than interleaved chroma width")
        } else if v_stride < row {
            refused(function, "V stride smaller than interleaved chroma width")
        } else {
            Ok(())
        }
    } else {
        refused(function, "pixel_stride_uv must be 1 or 2")
    }
}

/// Checks the chroma pixel stride of an Android frame: 1 (planar) or 2
/// (interleaved, in which case both chroma strides must cover an interleaved row).
pub fn check_android420_pixel_stride(src: &Android420Image, pixel_stride_uv: usize, size: ImageSize, function: &'static str) -> (r: Result<(), Error>)
    ensures
        r == android420_uv_result(src.u_stride, src.v_stride, pixel_stride_uv, size, function),
{
    match pixel_stride_uv {
        1 => Ok(()),
        2 => {
            let uv_stride = match div_ceil(size.width, 2).checked_mul(2) {
                Some(s) => s,
                None => return Err(Error::with_reason(-1, function, "UV minimum stride overflow")),
            };
            if src.u_stride < uv_stride {
                return Err(Error::with_reason(-1, function, "U stride smaller than interleaved chroma width"));
            }
            if src.v_stride < uv_stride {
                return Err(Error::with_reason(-1, function, "V stride smaller than interleaved chroma width"));
            }
            Ok(())
        },
        _ => Err(Error::with_reason(-1, function, "pixel_stride_uv must be 1 or 2")),
    }
}

/// The outcome of the checks made before `android420_to_argb`: the first that fails, in
/// the order they are made, or `Ok`.
pub open spec fn android420_to_argb_checks(src: &Android420Image, pixel_stride_uv: usize, dst: &ArgbImageMut, size: ImageSize) -> Result<(), Error> {
    first_error(
        src.spec_validate(size, "Android420ToARGB"),
        first_error(
            dst.spec_validate(size, "Android420ToARGB"),
            android420_uv_result(src.u_stride, src.v_stride, pixel_stride_uv, size, "Android420ToARGB"),
        ),
    )
}

/// Everything `android420_to_argb` checks before calling libyuv.
pub fn validate_android420_to_argb(src: &Android420Image, pixel_stride_uv: usize, dst: &ArgbImageMut, size: ImageSize) -> (r: Result<(), Error>)
    ensures
        r == android420_to_argb_checks(src, pixel_stride_uv, dst, size),
{
    src.validate(size, "Android420ToARGB")?;
    dst.validate(size, "Android420ToARGB")?;
    check_android420_pixel_stride(src, pixel_stride_uv, size, "Android420ToARGB")
}

/// The outcome of the checks made before `android420_to_abgr`: the first that fails, in
/// the order they are made, or `Ok`.
pub open spec fn android420_to_abgr_checks(src: &Android420Image, pixel_stride_uv: usize, dst: &AbgrImageMut, size: ImageSize) -> Result<(), Error> {
    first_error(
        src.spec_validate(size, "Android420ToABGR"),
        first_error(
            dst.spec_validate(size, "Android420ToABGR"),
            android420_uv_result(src.u_stride, src.v_stride, pixel_stride_uv, size, "Android420ToABGR"),
        ),
    )
}

/// Everything `android420_to_abgr` checks before calling libyuv.
pub fn validate_android420_to_abgr(src: &Android420Image, pixel_stride_uv: usize, dst: &AbgrImageMut, size: ImageSize) -> (r: Result<(), Error>)
    ensures
        r == android420_to_abgr_checks(src, pixel_stride_uv, dst, size),
{
    src.validate(size, "Android420ToABGR")?;
    dst.validate(size, "Android420ToABGR")?;
    check_android420_pixel_stride(src, pixel_stride_uv, size, "Android420ToABGR")
}

/// The outcome of the checks made before `android420_to_i420`: the first that fails, in
/// the order they are made, or `Ok`.
pub open spec fn android420_to_i420_checks(src: &Android420Image, pixel_stride_uv: usize, dst: &I420ImageMut, size: ImageSize) -> Result<(), Error> {
    first_error(
        src.spec_validate(size, "Android420ToI420"),
        first_error(
            dst.spec_validate(size, "Android420ToI420"),
            android420_uv_result(src.u_stride, src.v_stride, pixel_stride_uv, size, "Android420ToI420"),
        ),
    )
}

/// Everything `android420_to_i420` checks before calling libyuv.
pub fn validate_android420_to_i420(src: &Android420Image, pixel_stride_uv: usize, dst: &I420ImageMut, size: ImageSize) -> (r: Result<(), Error>)
    ensures
        r == android420_to_i420_checks(src, pixel_stride_uv, dst, size),
{
    src.validate(size, "Android420ToI420")?;
    dst.validate(size, "Android420ToI420")?;
    check_android420_pixel_stride(src, pixel_stride_uv, size, "Android420ToI420")
}

/// The checks made before `android420_to_argb` pass exactly when each of them passes:
/// the images and planes it is handed all validate for the size.
pub proof fn law_android420_to_argb_checks_pass(src: &Android420Image, pixel_stride_uv: usize, dst: &ArgbImageMut, size: ImageSize)
    ensures
        android420_to_argb_checks(src, pixel_stride_uv, dst, size) is Ok <==> {
            &&& (src.spec_validate(size, "Android420ToARGB")) is Ok
            &&& (dst.spec_validate(size, "Android420ToARGB")) is Ok
            &&& (android420_uv_result(src.u_stride, src.v_stride, pixel_stride_uv, size, "Android420ToARGB")) is Ok
        },
{
}

/// The checks made before `android420_to_abgr` pass exactly when each of them passes:
/// the images and planes it is handed all validate for the size.
pub proof fn law_android420_to_abgr_checks_pass(src: &Android420Image, pixel_stride_uv: usize, dst: &AbgrImageMut, size: ImageSize)
    ensures
        android420_to_abgr_checks(src, pixel_stride_uv, dst, size) is Ok <==> {
            &&& (src.spec_validate(size, "Android420ToABGR")) is Ok
            &&& (dst.spec_validate(size, "Android420ToABGR")) is Ok
            &&& (android420_uv_result(src.u_stride, src.v_stride, pixel_stride_uv, size, "Android420ToABGR")) is Ok
        },
{
}

/// The checks made before `android420_to_i420` pass exactly when each of them passes:
/// the images and planes it is handed all validate for the size.
pub proof fn law_android420_to_i420_checks_pass(src: &Android420Image, pixel_stride_uv: usize, dst: &I420ImageMut, size: ImageSize)
    ensures
        android420_to_i420_checks(src, pixel_stride_uv, dst, size) is Ok <==> {
            &&& (src.spec_validate(size, "Android420ToI420")) is Ok
            &&& (dst.spec_validate(size, "Android420ToI420")) is Ok
            &&& (android420_uv_result(src.u_stride, src.v_stride, pixel_stride_uv, size, "Android420ToI420")) is Ok
        },
{
}

} // verus!
