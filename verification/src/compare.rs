//! Image comparison: the checks before libyuv's PSNR / SSIM / Hamming
//! computations, and the exact integer measures (sum of squared errors, DJB2
//! hash), which are computed here.
use vstd::prelude::*;
use crate::checks::{C_INT_MAX, checked_buf_size, fits_c_int, require_c_int};
use crate::error::{Error, first_error, refused};
use crate::geometry::ImageSize;
use crate::planar_images::I420Image;
use crate::safety::{dims_fit, plane_holds};

verus! {

// ------------------------------------------------------------------
// Checks
// ------------------------------------------------------------------

/// The outcome of checking that width and height fit a C `int`.
pub open spec fn dims_result(size: ImageSize, function: &'static str) -> Result<(), Error> {
    if !fits_c_int(size.width as int) {
        refused(function, "width exceeds c_int range")
    } else if !fits_c_int(size.height as int) {
        refused(function, "height exceeds c_int range")
    } else {
        Ok(())
    }
}

fn check_dims(size: ImageSize, function: &'static str) -> (r: Result<(), Error>)
    ensures
        r == dims_result(size, function),
{
    require_c_int(size.width, function, "width exceeds c_int range")?;
    require_c_int(size.height, function, "height exceeds c_int range")
}

/// The outcome of checking two single planes `A` and `B` of `size` pixels.
pub open spec fn plane_pair_result(a_len: nat, a_stride: usize, b_len: nat, b_stride: usize, size: ImageSize, function: &'static str) -> Result<(), Error> {
    if !fits_c_int(a_stride as int) {
        refused(function, "stride A exceeds c_int range")
    } else if !fits_c_int(b_stride as int) {
        refused(function, "stride B exceeds c_int range")
    } else if a_stride < size.width {
        refused(function, "stride A smaller than width")
    } else if b_stride < size.width {
        refused(function, "stride B smaller than width")
    } else if a_stride * size.height > usize::MAX {
        refused(function, "buffer A size overflow")
    } else if a_len < a_stride * size.height {
        refused(function, "source A buffer too small")
    } else if b_stride * size.height > usize::MAX {
        refused(function, "buffer B size overflow")
    } else if b_len < b_stride * size.height {
        refused(function, "source B buffer too small")
    } else {
        Ok(())
    }
}

fn check_plane_pair(src_a: &[u8], a_stride: usize, src_b: &[u8], b_stride: usize, size: ImageSize, function: &'static str) -> (r: Result<(), Error>)
    ensures
        r == plane_pair_result(src_a@.len(), a_stride, src_b@.len(), b_stride, size, function),
{
    require_c_int(a_stride, function, "stride A exceeds c_int range")?;
    require_c_int(b_stride, function, "stride B exceeds c_int range")?;
    if a_stride < size.width {
        return Err(Error::with_reason(-1, function, "stride A smaller than width"));
    }
    if b_stride < size.width {
        return Err(Error::with_reason(-1, function, "stride B smaller than width"));
    }
    let a_size = checked_buf_size(a_stride, size.height, function, "buffer A size overflow")?;
    if src_a.len() < a_size {
        return Err(Error::with_reason(-1, function, "source A buffer too small"));
    }
    let b_size = checked_buf_size(b_stride, size.height, function, "buffer B size overflow")?;
    if src_b.len() < b_size {
        return Err(Error::with_reason(-1, function, "source B buffer too small"));
    }
    Ok(())
}

/// An empty image has no meaningful PSNR (libyuv would report its maximum).
pub open spec fn nonempty_result(size: ImageSize, function: &'static str) -> Result<(), Error> {
    if size.width == 0 || size.height == 0 {
        refused(function, "width and height must be greater than 0")
    } else {
        Ok(())
    }
}

/// The outcome of the checks made before `i420_psnr`: the first that fails, in
/// the order they are made, or `Ok`.
pub open spec fn i420_psnr_checks(src_a: &I420Image, src_b: &I420Image, size: ImageSize) -> Result<(), Error> {
    first_error(
        src_a.spec_validate(size, "I420Psnr"),
        first_error(src_b.spec_validate(size, "I420Psnr"), nonempty_result(size, "I420Psnr")),
    )
}

/// Everything `i420_psnr` checks before calling libyuv.
pub fn validate_i420_psnr(src_a: &I420Image, src_b: &I420Image, size: ImageSize) -> (r: Result<(), Error>)
    ensures
        r == i420_psnr_checks(src_a, src_b, size),
{
    src_a.validate(size, "I420Psnr")?;
    src_b.validate(size, "I420Psnr")?;
    if size.width == 0 || size.height == 0 {
        return Err(Error::with_reason(-1, "I420Psnr", "width and height must be greater than 0"));
    }
    Ok(())
}

/// libyuv computes the SSIM of I420 images on 8x8 blocks of the luma plane and
/// of the half-size chroma planes; below 17x17 a chroma plane has no full
/// block and the result would be NaN.
pub open spec fn i420_ssim_size_result(size: ImageSize) -> Result<(), Error> {
    if size.width <= 16 || size.height <= 16 {
        refused("I420Ssim", "image must be at least 17x17 for SSIM calculation (U/V planes are downsampled)")
    } else {
        Ok(())
    }
}

/// The outcome of the checks made before `i420_ssim`: the first that fails, in
/// the order they are made, or `Ok`.
pub open spec fn i420_ssim_checks(src_a: &I420Image, src_b: &I420Image, size: ImageSize) -> Result<(), Error> {
    first_error(
        src_a.spec_validate(size, "I420Ssim"),
        first_error(src_b.spec_validate(size, "I420Ssim"), i420_ssim_size_result(size)),
    )
}

/// Everything `i420_ssim` checks before calling libyuv.
pub fn validate_i420_ssim(src_a: &I420Image, src_b: &I420Image, size: ImageSize) -> (r: Result<(), Error>)
    ensures
        r == i420_ssim_checks(src_a, src_b, size),
{
    src_a.validate(size, "I420Ssim")?;
    src_b.validate(size, "I420Ssim")?;
    if size.width <= 16 || size.height <= 16 {
        return Err(Error::with_reason(
            -1,
            "I420Ssim",
            "image must be at least 17x17 for SSIM calculation (U/V planes are downsampled)",
        ));
    }
    Ok(())
}

/// The outcome of the checks made before `calc_frame_psnr`: the first that fails, in
/// the order they are made, or `Ok`.
pub open spec fn calc_frame_psnr_checks(src_a: &[u8], src_a_stride: usize, src_b: &[u8], src_b_stride: usize, size: ImageSize) -> Result<(), Error> {
    first_error(
        dims_result(size, "CalcFramePsnr"),
        first_error(
            nonempty_result(size, "CalcFramePsnr"),
            plane_pair_result(src_a@.len(), src_a_stride, src_b@.len(), src_b_stride, size, "CalcFramePsnr"),
        ),
    )
}

/// Everything `calc_frame_psnr` checks before calling libyuv.
pub fn validate_calc_frame_psnr(src_a: &[u8], src_a_stride: usize, src_b: &[u8], src_b_stride: usize, size: ImageSize) -> (r: Result<(), Error>)
    ensures
        r == calc_frame_psnr_checks(src_a, src_a_stride, src_b, src_b_stride, size),
{
    check_dims(size, "CalcFramePsnr")?;
    if size.width == 0 || size.height == 0 {
        return Err(Error::with_reason(-1, "CalcFramePsnr", "width and height must be greater than 0"));
    }
    check_plane_pair(src_a, src_a_stride, src_b, src_b_stride, size, "CalcFramePsnr")
}

/// libyuv computes SSIM on 8x8 blocks; at 8 pixels or fewer in either
/// direction there is no block and the result would be NaN.
pub open spec fn frame_ssim_size_result(size: ImageSize) -> Result<(), Error> {
    if size.width <= 8 || size.height <= 8 {
        refused("CalcFrameSsim", "image must be at least 9x9 for SSIM calculation")
    } else {
        Ok(())
    }
}

/// The outcome of the checks made before `calc_frame_ssim`: the first that fails, in
/// the order they are made, or `Ok`.
pub open spec fn calc_frame_ssim_checks(src_a: &[u8], src_a_stride: usize, src_b: &[u8], src_b_stride: usize, size: ImageSize) -> Result<(), Error> {
    first_error(
        dims_result(size, "CalcFrameSsim"),
        first_error(
            frame_ssim_size_result(size),
            plane_pair_result(src_a@.len(), src_a_stride, src_b@.len(), src_b_stride, size, "CalcFrameSsim"),
        ),
    )
}

/// Everything `calc_frame_ssim` checks before calling libyuv.
pub fn validate_calc_frame_ssim(src_a: &[u8], src_a_stride: usize, src_b: &[u8], src_b_stride: usize, size: ImageSize) -> (r: Result<(), Error>)
    ensures
        r == calc_frame_ssim_checks(src_a, src_a_stride, src_b, src_b_stride, size),
{
    check_dims(size, "CalcFrameSsim")?;
    if size.width <= 8 || size.height <= 8 {
        return Err(Error::with_reason(-1, "CalcFrameSsim", "image must be at least 9x9 for SSIM calculation"));
    }
    check_plane_pair(src_a, src_a_stride, src_b, src_b_stride, size, "CalcFrameSsim")
}

/// The outcome of the check made before `sum_square_error_to_psnr`.
pub open spec fn sum_square_error_to_psnr_checks(count: u64) -> Result<(), Error> {
    if count == 0 {
        refused::<()>("SumSquareErrorToPsnr", "count must be greater than 0")
    } else {
        Ok(())
    }
}

/// Everything `sum_square_error_to_psnr` checks before calling libyuv: a PSNR
/// needs at least one sample.
pub fn validate_sum_square_error_to_psnr(count: u64) -> (r: Result<(), Error>)
    ensures
        r == sum_square_error_to_psnr_checks(count),
{
    if count == 0 {
        return Err(Error::with_reason(-1, "SumSquareErrorToPsnr", "count must be greater than 0"));
    }
    Ok(())
}

/// The number of bytes `compute_hamming_distance` compares for buffers of
/// `a_len` and `b_len` bytes, or its refusal.
pub open spec fn hamming_count_result(a_len: nat, b_len: nat) -> Result<usize, Error> {
    let count = if a_len <= b_len { a_len } else { b_len };
    if fits_c_int(count as int) {
        Ok(count as usize)
    } else {
        refused::<usize>("ComputeHammingDistance", "count exceeds c_int range")
    }
}

/// The number of bytes `compute_hamming_distance` compares: the length of
/// the shorter buffer, refused when it exceeds a C `int`.
pub fn validate_compute_hamming_distance(src_a: &[u8], src_b: &[u8]) -> (r: Result<usize, Error>)
    ensures
        r == hamming_count_result(src_a@.len(), src_b@.len()),
{
    let count = if src_a.len() <= src_b.len() { src_a.len() } else { src_b.len() };
    require_c_int(count, "ComputeHammingDistance", "count exceeds c_int range")?;
    Ok(count)
}

// ------------------------------------------------------------------
// Sum of squared errors
// ------------------------------------------------------------------

/// The squared difference of two samples.
pub open spec fn squared_difference(a: u8, b: u8) -> int {
    (a - b) * (a - b)
}

/// The sum of the squared differences of the first `count` samples of `a` and `b`.
pub open spec fn sum_square_error(a: Seq<u8>, b: Seq<u8>, count: int) -> int
    decreases count,
{
    if count <= 0 {
        0
    } else {
        sum_square_error(a, b, count - 1) + squared_difference(a[count - 1], b[count - 1])
    }
}

/// The sum of squared errors over `rows` rows of `width` samples, rows being
/// `a_stride` samples apart in `a` and `b_stride` apart in `b`.
pub open spec fn plane_sum_square_error(a: Seq<u8>, a_stride: int, b: Seq<u8>, b_stride: int, width: int, rows: int) -> int
    decreases rows,
{
    if rows <= 0 {
        0
    } else {
        plane_sum_square_error(a, a_stride, b, b_stride, width, rows - 1)
            + sum_square_error(a.skip((rows - 1) * a_stride), b.skip((rows - 1) * b_stride), width)
    }
}

/// A squared difference of two bytes is at most `255 * 255`.
pub proof fn lemma_squared_difference_bounds(a: u8, b: u8)
    ensures
        0 <= squared_difference(a, b) <= 65025,
{
    let d = a - b;
    assert(0 <= d * d <= 65025) by (nonlinear_arith)
        requires
            -255 <= d <= 255,
    ;
}

/// The sum of `count` squared byte differences is at most `count * 65025`.
pub proof fn lemma_sum_square_error_bounds(a: Seq<u8>, b: Seq<u8>, count: int)
    requires
        count >= 0,
    ensures
        0 <= sum_square_error(a, b, count) <= count * 65025,
    decreases count,
{
    if count > 0 {
        lemma_sum_square_error_bounds(a, b, count - 1);
        lemma_squared_difference_bounds(a[count - 1], b[count - 1]);
    }
}

/// The sum of squared errors over `rows` rows is at most `rows * width * 65025`.
pub proof fn lemma_plane_sum_square_error_bounds(a: Seq<u8>, a_stride: int, b: Seq<u8>, b_stride: int, width: int, rows: int)
    requires
        rows >= 0,
        width >= 0,
    ensures
        0 <= plane_sum_square_error(a, a_stride, b, b_stride, width, rows) <= rows * (width * 65025),
    decreases rows,
{
    if rows > 0 {
        lemma_plane_sum_square_error_bounds(a, a_stride, b, b_stride, width, rows - 1);
        lemma_sum_square_error_bounds(a.skip((rows - 1) * a_stride), b.skip((rows - 1) * b_stride), width);
        assert((rows - 1) * (width * 65025) + width * 65025 == rows * (width * 65025)) by (nonlinear_arith);
    }
}

/// The sum of squared errors of `count` samples of `a` from `a_off` and of
/// `b` from `b_off`.
fn sum_square_error_run(a: &[u8], a_off: usize, b: &[u8], b_off: usize, count: usize) -> (s: u64)
    requires
        a_off + count <= a@.len(),
        b_off + count <= b@.len(),
        count <= C_INT_MAX,
    ensures
        s == sum_square_error(a@.skip(a_off as int), b@.skip(b_off as int), count as int),
        s <= count * 65025,
{
    let ghost sa = a@.skip(a_off as int);
    let ghost sb = b@.skip(b_off as int);
    let a_len = a.len();
    let b_len = b.len();
    let mut s: u64 = 0;
    let mut i: usize = 0;
    while i < count
        invariant
            i <= count <= C_INT_MAX,
            a_len == a@.len(),
            b_len == b@.len(),
            a_off + count <= a@.len(),
            b_off + count <= b@.len(),
            sa == a@.skip(a_off as int),
            sb == b@.skip(b_off as int),
            s == sum_square_error(sa, sb, i as int),
            s <= i * 65025,
        decreases count - i,
    {
        let x = a[a_off + i];
        let y = b[b_off + i];
        assert(sa[i as int] == x && sb[i as int] == y);
        proof {
            lemma_squared_difference_bounds(x, y);
        }
        let d: i32 = x as i32 - y as i32;
        let sq: i32 = d * d;
        s = s + sq as u64;
        i = i + 1;
    }
    s
}

/// What `compute_sum_square_error` gives for buffers `a` and `b` and `count`.
pub open spec fn compute_sum_square_error_result(a: Seq<u8>, b: Seq<u8>, count: usize) -> Result<u64, Error> {
    if !fits_c_int(count as int) {
        refused::<u64>("ComputeSumSquareError", "count exceeds c_int range")
    } else if a.len() < count {
        refused::<u64>("ComputeSumSquareError", "source A buffer too small")
    } else if b.len() < count {
        refused::<u64>("ComputeSumSquareError", "source B buffer too small")
    } else {
        Ok(sum_square_error(a, b, count as int) as u64)
    }
}

/// The sum of squared differences of the first `count` bytes of two buffers.
/// Refuses a `count` beyond a C `int` or beyond either buffer.
pub fn compute_sum_square_error(src_a: &[u8], src_b: &[u8], count: usize) -> (r: Result<u64, Error>)
    ensures
        r == compute_sum_square_error_result(src_a@, src_b@, count),
{
    require_c_int(count, "ComputeSumSquareError", "count exceeds c_int range")?;
    if src_a.len() < count {
        return Err(Error::with_reason(-1, "ComputeSumSquareError", "source A buffer too small"));
    }
    if src_b.len() < count {
        return Err(Error::with_reason(-1, "ComputeSumSquareError", "source B buffer too small"));
    }
    let s = sum_square_error_run(src_a, 0, src_b, 0, count);
    assert(src_a@.skip(0) == src_a@);
    assert(src_b@.skip(0) == src_b@);
    Ok(s)
}

/// What `compute_sum_square_error_plane` gives for planes `a` and `b`.
pub open spec fn compute_sum_square_error_plane_result(a: Seq<u8>, a_stride: usize, b: Seq<u8>, b_stride: usize, size: ImageSize) -> Result<u64, Error> {
    match first_error(
        dims_result(size, "ComputeSumSquareErrorPlane"),
        plane_pair_result(a.len(), a_stride, b.len(), b_stride, size, "ComputeSumSquareErrorPlane"),
    ) {
        Err(e) => Err(e),
        Ok(_) => Ok(
            (plane_sum_square_error(a, a_stride as int, b, b_stride as int, size.width as int, size.height as int)
                % 0x1_0000_0000_0000_0000) as u64,
        ),
    }
}

/// The sum of squared differences of two planes of `size` pixels, wrapping
/// modulo 2^64 as libyuv's 64-bit accumulator does.
pub fn compute_sum_square_error_plane(src_a: &[u8], src_a_stride: usize, src_b: &[u8], src_b_stride: usize, size: ImageSize) -> (r: Result<u64, Error>)
    ensures
        r == compute_sum_square_error_plane_result(src_a@, src_a_stride, src_b@, src_b_stride, size),
{
    check_dims(size, "ComputeSumSquareErrorPlane")?;
    check_plane_pair(src_a, src_a_stride, src_b, src_b_stride, size, "ComputeSumSquareErrorPlane")?;
    let width = size.width;
    let height = size.height;
    let a_len = src_a.len();
    let b_len = src_b.len();
    let mut total: u128 = 0;
    let mut row: usize = 0;
    let mut a_off: usize = 0;
    let mut b_off: usize = 0;
    while row < height
        invariant
            row <= height <= C_INT_MAX,
            width <= C_INT_MAX,
            width <= src_a_stride,
            width <= src_b_stride,
            a_len == src_a@.len(),
            b_len == src_b@.len(),
            src_a_stride * height <= src_a@.len(),
            src_b_stride * height <= src_b@.len(),
            a_off == row * src_a_stride,
            b_off == row * src_b_stride,
            total == plane_sum_square_error(src_a@, src_a_stride as int, src_b@, src_b_stride as int, width as int, row as int),
            total <= row * (width * 65025),
        decreases height - row,
    {
        assert(a_off + width <= src_a@.len() && b_off + width <= src_b@.len()) by (nonlinear_arith)
            requires
                a_off == row * src_a_stride,
                b_off == row * src_b_stride,
                row < height,
                width <= src_a_stride,
                width <= src_b_stride,
                src_a_stride * height <= src_a@.len(),
                src_b_stride * height <= src_b@.len(),
        ;
        let s = sum_square_error_run(src_a, a_off, src_b, b_off, width);
        assert(total + s <= (row + 1) * (width * 65025) <= 0x1_0000_0000_0000_0000_0000) by (nonlinear_arith)
            requires
                total <= row * (width * 65025),
                s <= width * 65025,
                row < height <= 0x8000_0000,
                width <= 0x8000_0000,
        ;
        total = total + s as u128;
        assert(a_off + src_a_stride <= src_a_stride * height && b_off + src_b_stride <= src_b_stride * height)
            by (nonlinear_arith)
            requires
                row < height,
                a_off == row * src_a_stride,
                b_off == row * src_b_stride,
        ;
        a_off = a_off + src_a_stride;
        b_off = b_off + src_b_stride;
        row = row + 1;
        assert(a_off == row * src_a_stride && b_off == row * src_b_stride) by (nonlinear_arith)
            requires
                a_off == (row - 1) * src_a_stride + src_a_stride,
                b_off == (row - 1) * src_b_stride + src_b_stride,
        ;
    }
    Ok((total % 0x1_0000_0000_0000_0000) as u64)
}

/// The sum of squared errors over `n + m` samples is that over the first `n`
/// plus that over the `m` that follow.
pub proof fn lemma_sum_square_error_split(a: Seq<u8>, b: Seq<u8>, n: int, m: int)
    requires
        0 <= n,
        0 <= m,
        n + m <= a.len(),
        n + m <= b.len(),
    ensures
        sum_square_error(a, b, n + m) == sum_square_error(a, b, n) + sum_square_error(a.skip(n), b.skip(n), m),
    decreases m,
{
    if m > 0 {
        lemma_sum_square_error_split(a, b, n, m - 1);
        assert(a.skip(n)[m - 1] == a[n + m - 1]);
        assert(b.skip(n)[m - 1] == b[n + m - 1]);
    }
}

/// The sum of squared errors does not depend on which image comes first, and
/// an image compared with itself has none.
pub proof fn law_sum_square_error_symmetric(a: Seq<u8>, b: Seq<u8>, count: int)
    ensures
        sum_square_error(a, b, count) == sum_square_error(b, a, count),
        sum_square_error(a, a, count) == 0,
    decreases count,
{
    if count > 0 {
        law_sum_square_error_symmetric(a, b, count - 1);
        let x = a[count - 1];
        let y = b[count - 1];
        assert((x - y) * (x - y) == (y - x) * (y - x)) by (nonlinear_arith);
    }
}

/// When both planes are packed (each stride equals the width), the plane's sum
/// of squared errors is that of `width * height` contiguous samples: libyuv's
/// coalescing of such rows into one does not change the result.
pub proof fn law_plane_sum_square_error_coalesces(a: Seq<u8>, b: Seq<u8>, width: int, height: int)
    requires
        0 <= width,
        0 <= height,
        width * height <= a.len(),
        width * height <= b.len(),
    ensures
        plane_sum_square_error(a, width, b, width, width, height) == sum_square_error(a, b, width * height),
    decreases height,
{
    if height > 0 {
        assert((height - 1) * width + width == width * height) by (nonlinear_arith);
        assert(0 <= (height - 1) * width) by (nonlinear_arith)
            requires
                height >= 1,
                width >= 0,
        ;
        law_plane_sum_square_error_coalesces(a, b, width, height - 1);
        assert(width * (height - 1) == (height - 1) * width) by (nonlinear_arith);
        lemma_sum_square_error_split(a, b, (height - 1) * width, width);
    } else {
        assert(width * height == 0) by (nonlinear_arith)
            requires
                height == 0,
        ;
    }
}

// ------------------------------------------------------------------
// DJB2 hash
// ------------------------------------------------------------------

/// The DJB2 hash of `s` starting from `seed`: `hash = hash * 33 + byte`
/// for each byte in turn, modulo 2^32.
pub open spec fn djb2(s: Seq<u8>, seed: u32) -> u32
    decreases s.len(),
{
    if s.len() == 0 {
        seed
    } else {
        ((djb2(s.drop_last(), seed) as int * 33 + s.last() as int) % 0x1_0000_0000) as u32
    }
}

/// Hashing a buffer in two pieces, the second seeded with the hash of the
/// first, gives the hash of the whole buffer: the seed carries the hash along.
pub proof fn law_djb2_chains(a: Seq<u8>, b: Seq<u8>, seed: u32)
    ensures
        djb2(a + b, seed) == djb2(b, djb2(a, seed)),
    decreases b.len(),
{
    if b.len() == 0 {
        assert(a + b == a);
    } else {
        assert((a + b).drop_last() == a + b.drop_last());
        assert((a + b).last() == b.last());
        law_djb2_chains(a, b.drop_last(), seed);
    }
}

/// The DJB2 hash of `src` starting from `seed`; an empty buffer hashes to `seed`.
pub fn hash_djb2(src: &[u8], seed: u32) -> (r: Result<u32, Error>)
    ensures
        r == Ok::<u32, Error>(djb2(src@, seed)),
{
    let mut hash: u32 = seed;
    let mut i: usize = 0;
    while i < src.len()
        invariant
            i <= src@.len(),
            hash == djb2(src@.take(i as int), seed),
        decreases src@.len() - i,
    {
        assert(src@.take(i + 1).drop_last() == src@.take(i as int));
        assert(src@.take(i + 1).last() == src@[i as int]);
        let next: u64 = (hash as u64 * 33 + src[i] as u64) % 0x1_0000_0000;
        hash = next as u32;
        i = i + 1;
    }
    assert(src@.take(src@.len() as int) == src@);
    Ok(hash)
}

/// The sum of squared errors of no samples is 0, and each further sample pair
/// `(x, y)` adds `(x - y)^2`.
pub proof fn law_sum_square_error_step(a: Seq<u8>, b: Seq<u8>, n: int)
    requires
        0 <= n,
    ensures
        sum_square_error(a, b, 0) == 0,
        sum_square_error(a, b, n + 1) == sum_square_error(a, b, n) + (a[n] - b[n]) * (a[n] - b[n]),
{
}

/// The sum of squared errors of a plane adds, for each further row, the sum
/// over the `width` samples starting `row * stride` into each plane.
pub proof fn law_plane_sum_square_error_step(a: Seq<u8>, a_stride: int, b: Seq<u8>, b_stride: int, width: int, rows: int)
    requires
        0 <= rows,
    ensures
        plane_sum_square_error(a, a_stride, b, b_stride, width, 0) == 0,
        plane_sum_square_error(a, a_stride, b, b_stride, width, rows + 1)
            == plane_sum_square_error(a, a_stride, b, b_stride, width, rows)
            + sum_square_error(a.skip(rows * a_stride), b.skip(rows * b_stride), width),
{
}

/// DJB2 of nothing is the seed, and each further byte `c` turns the hash `h`
/// into `h * 33 + c`, modulo `2^32`.
pub proof fn law_djb2_step(s: Seq<u8>, c: u8, seed: u32)
    ensures
        djb2(Seq::<u8>::empty(), seed) == seed,
        djb2(s.push(c), seed) == ((djb2(s, seed) as int * 33 + c as int) % 0x1_0000_0000) as u32,
{
    assert(s.push(c).drop_last() =~= s);
}

/// The checks made before `i420_psnr` pass exactly when each of them passes:
/// the images and planes it is handed all validate for the size.
pub proof fn law_i420_psnr_checks_pass(src_a: &I420Image, src_b: &I420Image, size: ImageSize)
    ensures
        i420_psnr_checks(src_a, src_b, size) is Ok <==> {
            &&& (src_a.spec_validate(size, "I420Psnr")) is Ok
            &&& (src_b.spec_validate(size, "I420Psnr")) is Ok
            &&& (nonempty_result(size, "I420Psnr")) is Ok
        },
{
}

/// The checks made before `i420_ssim` pass exactly when each of them passes:
/// the images and planes it is handed all validate for the size.
pub proof fn law_i420_ssim_checks_pass(src_a: &I420Image, src_b: &I420Image, size: ImageSize)
    ensures
        i420_ssim_checks(src_a, src_b, size) is Ok <==> {
            &&& (src_a.spec_validate(size, "I420Ssim")) is Ok
            &&& (src_b.spec_validate(size, "I420Ssim")) is Ok
            &&& (i420_ssim_size_result(size)) is Ok
        },
{
}

/// The checks made before `calc_frame_psnr` pass exactly when each of them passes:
/// the images and planes it is handed all validate for the size.
pub proof fn law_calc_frame_psnr_checks_pass(src_a: &[u8], src_a_stride: usize, src_b: &[u8], src_b_stride: usize, size: ImageSize)
    ensures
        calc_frame_psnr_checks(src_a, src_a_stride, src_b, src_b_stride, size) is Ok <==> {
            &&& (dims_result(size, "CalcFramePsnr")) is Ok
            &&& (nonempty_result(size, "CalcFramePsnr")) is Ok
            &&& (plane_pair_result(src_a@.len(), src_a_stride, src_b@.len(), src_b_stride, size, "CalcFramePsnr")) is Ok
        },
{
}

/// The checks made before `calc_frame_ssim` pass exactly when each of them passes:
/// the images and planes it is handed all validate for the size.
pub proof fn law_calc_frame_ssim_checks_pass(src_a: &[u8], src_a_stride: usize, src_b: &[u8], src_b_stride: usize, size: ImageSize)
    ensures
        calc_frame_ssim_checks(src_a, src_a_stride, src_b, src_b_stride, size) is Ok <==> {
            &&& (dims_result(size, "CalcFrameSsim")) is Ok
            &&& (frame_ssim_size_result(size)) is Ok
            &&& (plane_pair_result(src_a@.len(), src_a_stride, src_b@.len(), src_b_stride, size, "CalcFrameSsim")) is Ok
        },
{
}

/// A PSNR is computed exactly when there is at least one sample.
pub proof fn law_psnr_needs_samples(count: u64)
    ensures
        sum_square_error_to_psnr_checks(count) is Ok <==> count > 0,
{
}

/// The Hamming distance compares the bytes both buffers have, as many as the
/// shorter one holds, and is refused exactly when that count is not a C `int`.
pub proof fn law_hamming_compares_common_prefix(a_len: nat, b_len: nat)
    ensures
        hamming_count_result(a_len, b_len) is Ok <==> a_len < 0x8000_0000 || b_len < 0x8000_0000,
        hamming_count_result(a_len, b_len) is Ok ==> {
            let n = hamming_count_result(a_len, b_len)->Ok_0 as int;
            &&& n <= a_len && n <= b_len
            &&& (n == a_len || n == b_len)
        },
{
}

/// The sum of squared errors of `count` bytes is given exactly when `count` is
/// a C `int` no larger than either buffer, and it is then the whole sum of
/// `(a[i] - b[i])^2` over the first `count` bytes (it cannot wrap).
pub proof fn law_sum_square_error_given(a: Seq<u8>, b: Seq<u8>, count: usize)
    ensures
        compute_sum_square_error_result(a, b, count) is Ok <==> count < 0x8000_0000 && count <= a.len() && count <= b.len(),
        compute_sum_square_error_result(a, b, count) is Ok ==>
            compute_sum_square_error_result(a, b, count)->Ok_0 as int == sum_square_error(a, b, count as int),
{
    if compute_sum_square_error_result(a, b, count) is Ok {
        lemma_sum_square_error_bounds(a, b, count as int);
        assert(count * 65025 < 0x1_0000_0000_0000_0000) by (nonlinear_arith)
            requires
                count < 0x8000_0000,
        ;
    }
}

/// The sum of squared errors of two planes is given exactly when both
/// dimensions are C `int`s and each plane holds `height` rows of `width`
/// bytes, one stride apart, with C `int` strides; it is then the sum over every
/// row, modulo `2^64`.
pub proof fn law_plane_sum_square_error_given(a: Seq<u8>, a_stride: usize, b: Seq<u8>, b_stride: usize, size: ImageSize)
    requires
        a.len() <= usize::MAX,
        b.len() <= usize::MAX,
    ensures
        compute_sum_square_error_plane_result(a, a_stride, b, b_stride, size) is Ok <==> {
            &&& dims_fit(size)
            &&& plane_holds(a.len(), a_stride, size.width as int, size.height as int)
            &&& plane_holds(b.len(), b_stride, size.width as int, size.height as int)
        },
        compute_sum_square_error_plane_result(a, a_stride, b, b_stride, size) is Ok ==>
            compute_sum_square_error_plane_result(a, a_stride, b, b_stride, size)->Ok_0 as int
                == plane_sum_square_error(a, a_stride as int, b, b_stride as int, size.width as int, size.height as int)
                % 0x1_0000_0000_0000_0000,
{
}

} // verus!
