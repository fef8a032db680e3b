//! Checks before conversions that carry a separate alpha plane.
//!
//! libyuv reads (or writes) `width` bytes of each of the `height` alpha rows,
//! `stride` bytes apart, so the plane needs `stride * (height - 1) + width`
//! bytes. The stride must fit a C `int`: a larger one would be truncated to a
//! negative value and libyuv would walk backwards out of the plane. The stride
//! must also cover the width, as for every other plane.
use vstd::prelude::*;
use crate::checks::{fits_c_int, require_c_int};
use crate::error::{Error, first_error, refused};
use crate::geometry::ImageSize;
use crate::packed_images::{AbgrImageMut, ArgbImage, ArgbImageMut};
use crate::planar_images::{I420Image, I420ImageMut, I422Image, I444Image};

verus! {

/// The bytes an alpha plane of `size` pixels spans.
pub open spec fn alpha_required(stride: usize, size: ImageSize) -> int {
    stride * (size.height - 1) + size.width
}

/// The inputs on which the size of an alpha plane can be computed: it is
/// computed once the stride passed its checks, and needs at least one row
/// and no overflow.
pub open spec fn alpha_computable(stride: usize, size: ImageSize) -> bool {
    fits_c_int(stride as int) && stride >= size.width ==> size.height >= 1 && alpha_required(stride, size) <= usize::MAX
}

pub open spec fn alpha_too_small(is_source: bool) -> &'static str {
    if is_source {
        "source alpha buffer too small"
    } else {
        "destination alpha buffer too small"
    }
}

/// The outcome of validating an alpha plane of `len` bytes.
pub open spec fn alpha_result(len: nat, stride: usize, size: ImageSize, function: &'static str, is_source: bool) -> Result<(), Error> {
    if !fits_c_int(stride as int) {
        refused(function, "alpha stride exceeds c_int range")
    } else if stride < size.width {
        refused(function, "alpha stride smaller than width")
    } else if len < alpha_required(stride, size) {
        refused(function, alpha_too_small(is_source))
    } else {
        Ok(())
    }
}

fn check_alpha(len: usize, stride: usize, size: ImageSize, function: &'static str, is_source: bool) -> (r: Result<(), Error>)
    requires
        alpha_computable(stride, size),
    ensures
        r == alpha_result(len as nat, stride, size, function, is_source),
{
    require_c_int(stride, function, "alpha stride exceeds c_int range")?;
    if stride < size.width {
        return Err(Error::with_reason(-1, function, "alpha stride smaller than width"));
    }
    let required = stride * (size.height - 1) + size.width;
    if len < required {
        let reason = if is_source {
            "source alpha buffer too small"
        } else {
            "destination alpha buffer too small"
        };
        return Err(Error::with_reason(-1, function, reason));
    }
    Ok(())
}

/// Validates an alpha plane libyuv reads.
pub fn validate_alpha_src(src_a: &[u8], src_stride_a: usize, size: ImageSize, function: &'static str) -> (r: Result<(), Error>)
    requires
        alpha_computable(src_stride_a, size),
    ensures
        r == alpha_result(src_a@.len(), src_stride_a, size, function, true),
{
    check_alpha(src_a.len(), src_stride_a, size, function, true)
}

/// Validates an alpha plane libyuv writes.
pub fn validate_alpha_dst(dst_a: &[u8], dst_stride_a: usize, size: ImageSize, function: &'static str) -> (r: Result<(), Error>)
    requires
        alpha_computable(dst_stride_a, size),
    ensures
        r == alpha_result(dst_a@.len(), dst_stride_a, size, function, false),
{
    check_alpha(dst_a.len(), dst_stride_a, size, function, false)
}

/// The outcome of the checks made before `i420_alpha_to_argb`: the first that fails, in
/// the order they are made, or `Ok`.
pub open spec fn i420_alpha_to_argb_checks(src: &I420Image, src_a: &[u8], src_stride_a: usize, dst: &ArgbImageMut, size: ImageSize) -> Result<(), Error> {
    first_error(
        src.spec_validate(size, "I420AlphaToARGB"),
        first_error(
            alpha_result(src_a@.len(), src_stride_a, size, "I420AlphaToARGB", true),
            dst.spec_validate(size, "I420AlphaToARGB"),
        ),
    )
}

/// Everything `i420_alpha_to_argb` checks before calling libyuv.
pub fn validate_i420_alpha_to_argb(src: &I420Image, src_a: &[u8], src_stride_a: usize, dst: &ArgbImageMut, size: ImageSize) -> (r: Result<(), Error>)
    requires
        src.spec_validate(size, "I420AlphaToARGB") is Ok ==> alpha_computable(src_stride_a, size),
    ensures
        r == i420_alpha_to_argb_checks(src, src_a, src_stride_a, dst, size),
{
    src.validate(size, "I420AlphaToARGB")?;
    validate_alpha_src(src_a, src_stride_a, size, "I420AlphaToARGB")?;
    dst.validate(size, "I420AlphaToARGB")
}

/// The outcome of the checks made before `i420_alpha_to_abgr`: the first that fails, in
/// the order they are made, or `Ok`.
pub open spec fn i420_alpha_to_abgr_checks(src: &I420Image, src_a: &[u8], src_stride_a: usize, dst: &AbgrImageMut, size: ImageSize) -> Result<(), Error> {
    first_error(
        src.spec_validate(size, "I420AlphaToABGR"),
        first_error(
            alpha_result(src_a@.len(), src_stride_a, size, "I420AlphaToABGR", true),
            dst.spec_validate(size, "I420AlphaToABGR"),
        ),
    )
}

/// Everything `i420_alpha_to_abgr` checks before calling libyuv.
pub fn validate_i420_alpha_to_abgr(src: &I420Image, src_a: &[u8], src_stride_a: usize, dst: &AbgrImageMut, size: ImageSize) -> (r: Result<(), Error>)
    requires
        src.spec_validate(size, "I420AlphaToABGR") is Ok ==> alpha_computable(src_stride_a, size),
    ensures
        r == i420_alpha_to_abgr_checks(src, src_a, src_stride_a, dst, size),
{
    src.validate(size, "I420AlphaToABGR")?;
    validate_alpha_src(src_a, src_stride_a, size, "I420AlphaToABGR")?;
    dst.validate(size, "I420AlphaToABGR")
}

/// The outcome of the checks made before `i422_alpha_to_argb`: the first that fails, in
/// the order they are made, or `Ok`.
pub open spec fn i422_alpha_to_argb_checks(src: &I422Image, src_a: &[u8], src_stride_a: usize, dst: &ArgbImageMut, size: ImageSize) -> Result<(), Error> {
    first_error(
        src.spec_validate(size, "I422AlphaToARGB"),
        first_error(
            alpha_result(src_a@.len(), src_stride_a, size, "I422AlphaToARGB", true),
            dst.spec_validate(size, "I422AlphaToARGB"),
        ),
    )
}

/// Everything `i422_alpha_to_argb` checks before calling libyuv.
pub fn validate_i422_alpha_to_argb(src: &I422Image, src_a: &[u8], src_stride_a: usize, dst: &ArgbImageMut, size: ImageSize) -> (r: Result<(), Error>)
    requires
        src.spec_validate(size, "I422AlphaToARGB") is Ok ==> alpha_computable(src_stride_a, size),
    ensures
        r == i422_alpha_to_argb_checks(src, src_a, src_stride_a, dst, size),
{
    src.validate(size, "I422AlphaToARGB")?;
    validate_alpha_src(src_a, src_stride_a, size, "I422AlphaToARGB")?;
    dst.validate(size, "I422AlphaToARGB")
}

/// The outcome of the checks made before `i422_alpha_to_abgr`: the first that fails, in
/// the order they are made, or `Ok`.
pub open spec fn i422_alpha_to_abgr_checks(src: &I422Image, src_a: &[u8], src_stride_a: usize, dst: &AbgrImageMut, size: ImageSize) -> Result<(), Error> {
    first_error(
        src.spec_validate(size, "I422AlphaToABGR"),
        first_error(
            alpha_result(src_a@.len(), src_stride_a, size, "I422AlphaToABGR", true),
            dst.spec_validate(size, "I422AlphaToABGR"),
        ),
    )
}

/// Everything `i422_alpha_to_abgr` checks before calling libyuv.
pub fn validate_i422_alpha_to_abgr(src: &I422Image, src_a: &[u8], src_stride_a: usize, dst: &AbgrImageMut, size: ImageSize) -> (r: Result<(), Error>)
    requires
        src.spec_validate(size, "I422AlphaToABGR") is Ok ==> alpha_computable(src_stride_a, size),
    ensures
        r == i422_alpha_to_abgr_checks(src, src_a, src_stride_a, dst, size),
{
    src.validate(size, "I422AlphaToABGR")?;
    validate_alpha_src(src_a, src_stride_a, size, "I422AlphaToABGR")?;
    dst.validate(size, "I422AlphaToABGR")
}

/// The outcome of the checks made before `i444_alpha_to_argb`: the first that fails, in
/// the order they are made, or `Ok`.
pub open spec fn i444_alpha_to_argb_checks(src: &I444Image, src_a: &[u8], src_stride_a: usize, dst: &ArgbImageMut, size: ImageSize) -> Result<(), Error> {
    first_error(
        src.spec_validate(size, "I444AlphaToARGB"),
        first_error(
            alpha_result(src_a@.len(), src_stride_a, size, "I444AlphaToARGB", true),
            dst.spec_validate(size, "I444AlphaToARGB"),
        ),
    )
}

/// Everything `i444_alpha_to_argb` checks before calling libyuv.
pub fn validate_i444_alpha_to_argb(src: &I444Image, src_a: &[u8], src_stride_a: usize, dst: &ArgbImageMut, size: ImageSize) -> (r: Result<(), Error>)
    requires
        src.spec_validate(size, "I444AlphaToARGB") is Ok ==> alpha_computable(src_stride_a, size),
    ensures
        r == i444_alpha_to_argb_checks(src, src_a, src_stride_a, dst, size),
{
    src.validate(size, "I444AlphaToARGB")?;
    validate_alpha_src(src_a, src_stride_a, size, "I444AlphaToARGB")?;
    dst.validate(size, "I444AlphaToARGB")
}

/// The outcome of the checks made before `i444_alpha_to_abgr`: the first that fails, in
/// the order they are made, or `Ok`.
pub open spec fn i444_alpha_to_abgr_checks(src: &I444Image, src_a: &[u8], src_stride_a: usize, dst: &AbgrImageMut, size: ImageSize) -> Result<(), Error> {
    first_error(
        src.spec_validate(size, "I444AlphaToABGR"),
        first_error(
            alpha_result(src_a@.len(), src_stride_a, size, "I444AlphaToABGR", true),
            dst.spec_validate(size, "I444AlphaToABGR"),
        ),
    )
}

/// Everything `i444_alpha_to_abgr` checks before calling libyuv.
pub fn validate_i444_alpha_to_abgr(src: &I444Image, src_a: &[u8], src_stride_a: usize, dst: &AbgrImageMut, size: ImageSize) -> (r: Result<(), Error>)
    requires
        src.spec_validate(size, "I444AlphaToABGR") is Ok ==> alpha_computable(src_stride_a, size),
    ensures
        r == i444_alpha_to_abgr_checks(src, src_a, src_stride_a, dst, size),
{
    src.validate(size, "I444AlphaToABGR")?;
    validate_alpha_src(src_a, src_stride_a, size, "I444AlphaToABGR")?;
    dst.validate(size, "I444AlphaToABGR")
}

/// The outcome of the checks made before `argb_to_i420_alpha`: the first that fails, in
/// the order they are made, or `Ok`.
pub open spec fn argb_to_i420_alpha_checks(src: &ArgbImage, dst: &I420ImageMut, dst_a: &[u8], dst_stride_a: usize, size: ImageSize) -> Result<(), Error> {
    first_error(
        src.spec_validate(size, "ARGBToI420Alpha"),
        first_error(
            dst.spec_validate(size, "ARGBToI420Alpha"),
            alpha_result(dst_a@.len(), dst_stride_a, size, "ARGBToI420Alpha", false),
        ),
    )
}

/// Everything `argb_to_i420_alpha` checks before calling libyuv.
pub fn validate_argb_to_i420_alpha(src: &ArgbImage, dst: &I420ImageMut, dst_a: &[u8], dst_stride_a: usize, size: ImageSize) -> (r: Result<(), Error>)
    requires
        src.spec_validate(size, "ARGBToI420Alpha") is Ok && dst.spec_validate(size, "ARGBToI420Alpha") is Ok
            ==> alpha_computable(dst_stride_a, size),
    ensures
        r == argb_to_i420_alpha_checks(src, dst, dst_a, dst_stride_a, size),
{
    src.validate(size, "ARGBToI420Alpha")?;
    dst.validate(size, "ARGBToI420Alpha")?;
    validate_alpha_dst(dst_a, dst_stride_a, size, "ARGBToI420Alpha")
}

/// The checks made before `i420_alpha_to_argb` pass exactly when each of them passes:
/// the images and planes it is handed all validate for the size.
pub proof fn law_i420_alpha_to_argb_checks_pass(src: &I420Image, src_a: &[u8], src_stride_a: usize, dst: &ArgbImageMut, size: ImageSize)
    ensures
        i420_alpha_to_argb_checks(src, src_a, src_stride_a, dst, size) is Ok <==> {
            &&& (src.spec_validate(size, "I420AlphaToARGB")) is Ok
            &&& (alpha_result(src_a@.len(), src_stride_a, size, "I420AlphaToARGB", true)) is Ok
            &&& (dst.spec_validate(size, "I420AlphaToARGB")) is Ok
        },
{
}

/// The checks made before `i420_alpha_to_abgr` pass exactly when each of them passes:
/// the images and planes it is handed all validate for the size.
pub proof fn law_i420_alpha_to_abgr_checks_pass(src: &I420Image, src_a: &[u8], src_stride_a: usize, dst: &AbgrImageMut, size: ImageSize)
    ensures
        i420_alpha_to_abgr_checks(src, src_a, src_stride_a, dst, size) is Ok <==> {
            &&& (src.spec_validate(size, "I420AlphaToABGR")) is Ok
            &&& (alpha_result(src_a@.len(), src_stride_a, size, "I420AlphaToABGR", true)) is Ok
            &&& (dst.spec_validate(size, "I420AlphaToABGR")) is Ok
        },
{
}

/// The checks made before `i422_alpha_to_argb` pass exactly when each of them passes:
/// the images and planes it is handed all validate for the size.
pub proof fn law_i422_alpha_to_argb_checks_pass(src: &I422Image, src_a: &[u8], src_stride_a: usize, dst: &ArgbImageMut, size: ImageSize)
    ensures
        i422_alpha_to_argb_checks(src, src_a, src_stride_a, dst, size) is Ok <==> {
            &&& (src.spec_validate(size, "I422AlphaToARGB")) is Ok
            &&& (alpha_result(src_a@.len(), src_stride_a, size, "I422AlphaToARGB", true)) is Ok
            &&& (dst.spec_validate(size, "I422AlphaToARGB")) is Ok
        },
{
}

/// The checks made before `i422_alpha_to_abgr` pass exactly when each of them passes:
/// the images and planes it is handed all validate for the size.
pub proof fn law_i422_alpha_to_abgr_checks_pass(src: &I422Image, src_a: &[u8], src_stride_a: usize, dst: &AbgrImageMut, size: ImageSize)
    ensures
        i422_alpha_to_abgr_checks(src, src_a, src_stride_a, dst, size) is Ok <==> {
            &&& (src.spec_validate(size, "I422AlphaToABGR")) is Ok
            &&& (alpha_result(src_a@.len(), src_stride_a, size, "I422AlphaToABGR", true)) is Ok
            &&& (dst.spec_validate(size, "I422AlphaToABGR")) is Ok
        },
{
}

/// The checks made before `i444_alpha_to_argb` pass exactly when each of them passes:
/// the images and planes it is handed all validate for the size.
pub proof fn law_i444_alpha_to_argb_checks_pass(src: &I444Image, src_a: &[u8], src_stride_a: usize, dst: &ArgbImageMut, size: ImageSize)
    ensures
        i444_alpha_to_argb_checks(src, src_a, src_stride_a, dst, size) is Ok <==> {
            &&& (src.spec_validate(size, "I444AlphaToARGB")) is Ok
            &&& (alpha_result(src_a@.len(), src_stride_a, size, "I444AlphaToARGB", true)) is Ok
            &&& (dst.spec_validate(size, "I444AlphaToARGB")) is Ok
        },
{
}

/// The checks made before `i444_alpha_to_abgr` pass exactly when each of them passes:
/// the images and planes it is handed all validate for the size.
pub proof fn law_i444_alpha_to_abgr_checks_pass(src: &I444Image, src_a: &[u8], src_stride_a: usize, dst: &AbgrImageMut, size: ImageSize)
    ensures
        i444_alpha_to_abgr_checks(src, src_a, src_stride_a, dst, size) is Ok <==> {
            &&& (src.spec_validate(size, "I444AlphaToABGR")) is Ok
            &&& (alpha_result(src_a@.len(), src_stride_a, size, "I444AlphaToABGR", true)) is Ok
            &&& (dst.spec_validate(size, "I444AlphaToABGR")) is Ok
        },
{
}

/// The checks made before `argb_to_i420_alpha` pass exactly when each of them passes:
/// the images and planes it is handed all validate for the size.
pub proof fn law_argb_to_i420_alpha_checks_pass(src: &ArgbImage, dst: &I420ImageMut, dst_a: &[u8], dst_stride_a: usize, size: ImageSize)
    ensures
        argb_to_i420_alpha_checks(src, dst, dst_a, dst_stride_a, size) is Ok <==> {
            &&& (src.spec_validate(size, "ARGBToI420Alpha")) is Ok
            &&& (dst.spec_validate(size, "ARGBToI420Alpha")) is Ok
            &&& (alpha_result(dst_a@.len(), dst_stride_a, size, "ARGBToI420Alpha", false)) is Ok
        },
{
}

} // verus!
