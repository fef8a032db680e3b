//! Checks around Motion JPEG decoding (`MJPGSize`, `MJPGTo*`).
//!
//! A compressed frame has no stride, so it is taken as a plain byte slice.
//! Decoding never scales: `size` is both the source and the destination size,
//! and libyuv rejects a `size` that differs from the JPEG header's.
use vstd::prelude::*;
use crate::checks::{fits_c_int, require_c_int};
use crate::error::{Error, first_error, refused};
use crate::geometry::ImageSize;
use crate::packed_images::ArgbImageMut;
use crate::planar_images::I420ImageMut;
use crate::semi_planar_images::{Nv12ImageMut, Nv21ImageMut};

verus! {

/// The outcome of checking a compressed frame and the size it is decoded at.
pub open spec fn mjpeg_input_result(src_len: nat, size: ImageSize, function: &'static str) -> Result<(), Error> {
    if src_len == 0 {
        refused(function, "src is empty")
    } else if !fits_c_int(src_len as int) {
        refused(function, "src length exceeds c_int range")
    } else if !fits_c_int(size.width as int) {
        refused(function, "width exceeds c_int range")
    } else if !fits_c_int(size.height as int) {
        refused(function, "height exceeds c_int range")
    } else if size.width == 0 || size.height == 0 {
        refused(function, "size width/height is zero")
    } else {
        Ok(())
    }
}

/// Checks a compressed frame: not empty, its length and `size` within a C
/// `int`, and `size` not empty.
pub fn validate_mjpeg_input(src: &[u8], size: ImageSize, function: &'static str) -> (r: Result<(), Error>)
    ensures
        r == mjpeg_input_result(src@.len(), size, function),
{
    if src.len() == 0 {
        return Err(Error::with_reason(-1, function, "src is empty"));
    }
    require_c_int(src.len(), function, "src length exceeds c_int range")?;
    require_c_int(size.width, function, "width exceeds c_int range")?;
    require_c_int(size.height, function, "height exceeds c_int range")?;
    if size.width == 0 || size.height == 0 {
        return Err(Error::with_reason(-1, function, "size width/height is zero"));
    }
    Ok(())
}

/// The outcome of checking a compressed frame before reading its size.
pub open spec fn mjpeg_size_input_result(src_len: nat) -> Result<(), Error> {
    if src_len == 0 {
        refused("MJPGSize", "src is empty")
    } else if !fits_c_int(src_len as int) {
        refused("MJPGSize", "src length exceeds c_int range")
    } else {
        Ok(())
    }
}

/// Everything `mjpeg_size` checks before asking libyuv for the frame's size.
pub fn validate_mjpeg_size_input(src: &[u8]) -> (r: Result<(), Error>)
    ensures
        r == mjpeg_size_input_result(src@.len()),
{
    if src.len() == 0 {
        return Err(Error::with_reason(-1, "MJPGSize", "src is empty"));
    }
    require_c_int(src.len(), "MJPGSize", "src length exceeds c_int range")
}

/// The image size `mjpeg_size` reports for what libyuv's `MJPGSize` returned.
pub open spec fn mjpeg_size_result(status: i32, width: i32, height: i32) -> Result<ImageSize, Error> {
    if status != 0 {
        Err(Error::spec_new(status, "MJPGSize", None))
    } else if width <= 0 || height <= 0 {
        refused("MJPGSize", "decoded JPEG dimensions are non-positive")
    } else {
        Ok(ImageSize { width: width as usize, height: height as usize })
    }
}

/// Turns what libyuv's `MJPGSize` returned (its status and the dimensions it
/// wrote) into an image size. libyuv may report success for a damaged frame,
/// so dimensions that are not positive are refused as well.
pub fn mjpeg_size_from_decoded(status: i32, width: i32, height: i32) -> (r: Result<ImageSize, Error>)
    ensures
        r == mjpeg_size_result(status, width, height),
{
    Error::check(status, "MJPGSize")?;
    if width <= 0 || height <= 0 {
        return Err(Error::with_reason(-1, "MJPGSize", "decoded JPEG dimensions are non-positive"));
    }
    Ok(ImageSize::new(width as usize, height as usize))
}

/// The outcome of the checks made before `mjpeg_to_i420`: the first that fails, in
/// the order they are made, or `Ok`.
pub open spec fn mjpeg_to_i420_checks(src: &[u8], dst: &I420ImageMut, size: ImageSize) -> Result<(), Error> {
    first_error(mjpeg_input_result(src@.len(), size, "MJPGToI420"), dst.spec_validate(size, "MJPGToI420"))
}

/// Everything `mjpeg_to_i420` checks before calling libyuv.
pub fn validate_mjpeg_to_i420(src: &[u8], dst: &I420ImageMut, size: ImageSize) -> (r: Result<(), Error>)
    ensures
        r == mjpeg_to_i420_checks(src, dst, size),
{
    validate_mjpeg_input(src, size, "MJPGToI420")?;
    dst.validate(size, "MJPGToI420")
}

/// The outcome of the checks made before `mjpeg_to_nv12`: the first that fails, in
/// the order they are made, or `Ok`.
pub open spec fn mjpeg_to_nv12_checks(src: &[u8], dst: &Nv12ImageMut, size: ImageSize) -> Result<(), Error> {
    first_error(mjpeg_input_result(src@.len(), size, "MJPGToNV12"), dst.spec_validate(size, "MJPGToNV12"))
}

/// Everything `mjpeg_to_nv12` checks before calling libyuv.
pub fn validate_mjpeg_to_nv12(src: &[u8], dst: &Nv12ImageMut, size: ImageSize) -> (r: Result<(), Error>)
    ensures
        r == mjpeg_to_nv12_checks(src, dst, size),
{
    validate_mjpeg_input(src, size, "MJPGToNV12")?;
    dst.validate(size, "MJPGToNV12")
}

/// The outcome of the checks made before `mjpeg_to_nv21`: the first that fails, in
/// the order they are made, or `Ok`.
pub open spec fn mjpeg_to_nv21_checks(src: &[u8], dst: &Nv21ImageMut, size: ImageSize) -> Result<(), Error> {
    first_error(mjpeg_input_result(src@.len(), size, "MJPGToNV21"), dst.spec_validate(size, "MJPGToNV21"))
}

/// Everything `mjpeg_to_nv21` checks before calling libyuv.
pub fn validate_mjpeg_to_nv21(src: &[u8], dst: &Nv21ImageMut, size: ImageSize) -> (r: Result<(), Error>)
    ensures
        r == mjpeg_to_nv21_checks(src, dst, size),
{
    validate_mjpeg_input(src, size, "MJPGToNV21")?;
    dst.validate(size, "MJPGToNV21")
}

/// The outcome of the checks made before `mjpeg_to_argb`: the first that fails, in
/// the order they are made, or `Ok`.
pub open spec fn mjpeg_to_argb_checks(src: &[u8], dst: &ArgbImageMut, size: ImageSize) -> Result<(), Error> {
    first_error(mjpeg_input_result(src@.len(), size, "MJPGToARGB"), dst.spec_validate(size, "MJPGToARGB"))
}

/// Everything `mjpeg_to_argb` checks before calling libyuv.
pub fn validate_mjpeg_to_argb(src: &[u8], dst: &ArgbImageMut, size: ImageSize) -> (r: Result<(), Error>)
    ensures
        r == mjpeg_to_argb_checks(src, dst, size),
{
    validate_mjpeg_input(src, size, "MJPGToARGB")?;
    dst.validate(size, "MJPGToARGB")
}

/// The checks made before `mjpeg_to_i420` pass exactly when each of them passes:
/// the images and planes it is handed all validate for the size.
pub proof fn law_mjpeg_to_i420_checks_pass(src: &[u8], dst: &I420ImageMut, size: ImageSize)
    ensures
        mjpeg_to_i420_checks(src, dst, size) is Ok <==> {
            &&& (mjpeg_input_result(src@.len(), size, "MJPGToI420")) is Ok
            &&& (dst.spec_validate(size, "MJPGToI420")) is Ok
        },
{
}

/// The checks made before `mjpeg_to_nv12` pass exactly when each of them passes:
/// the images and planes it is handed all validate for the size.
pub proof fn law_mjpeg_to_nv12_checks_pass(src: &[u8], dst: &Nv12ImageMut, size: ImageSize)
    ensures
        mjpeg_to_nv12_checks(src, dst, size) is Ok <==> {
            &&& (mjpeg_input_result(src@.len(), size, "MJPGToNV12")) is Ok
            &&& (dst.spec_validate(size, "MJPGToNV12")) is Ok
        },
{
}

/// The checks made before `mjpeg_to_nv21` pass exactly when each of them passes:
/// the images and planes it is handed all validate for the size.
pub proof fn law_mjpeg_to_nv21_checks_pass(src: &[u8], dst: &Nv21ImageMut, size: ImageSize)
    ensures
        mjpeg_to_nv21_checks(src, dst, size) is Ok <==> {
            &&& (mjpeg_input_result(src@.len(), size, "MJPGToNV21")) is Ok
            &&& (dst.spec_validate(size, "MJPGToNV21")) is Ok
        },
{
}

/// The checks made before `mjpeg_to_argb` pass exactly when each of them passes:
/// the images and planes it is handed all validate for the size.
pub proof fn law_mjpeg_to_argb_checks_pass(src: &[u8], dst: &ArgbImageMut, size: ImageSize)
    ensures
        mjpeg_to_argb_checks(src, dst, size) is Ok <==> {
            &&& (mjpeg_input_result(src@.len(), size, "MJPGToARGB")) is Ok
            &&& (dst.spec_validate(size, "MJPGToARGB")) is Ok
        },
{
}

} // verus!
