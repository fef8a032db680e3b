//! Range and size checks shared by every validation of the library.
use vstd::prelude::*;
use crate::error::{Error, refused};

verus! {

/// The largest value of C's `int` on every platform libyuv supports.
pub const C_INT_MAX: usize = 2147483647usize;

/// Whether `v` can be handed to libyuv as a C `int` without changing.
pub open spec fn fits_c_int(v: int) -> bool {
    0 <= v <= C_INT_MAX as int
}

/// `a / d` rounded up.
pub open spec fn ceil_div(a: int, d: int) -> int {
    (a + d - 1) / d
}

/// Whether `n` is a power of two (1, 2, 4, ...).
pub open spec fn is_pow2(n: nat) -> bool
    decreases n,
{
    if n == 1 {
        true
    } else if n == 0 || n % 2 == 1 {
        false
    } else {
        is_pow2(n / 2)
    }
}

/// `r` is `Ok(v)` exactly when `v` fits in `usize`, and refused with
/// `reason` otherwise.
pub open spec fn checked_result(v: int, function: &'static str, reason: &'static str) -> Result<usize, Error> {
    if v <= usize::MAX {
        Ok(v as usize)
    } else {
        refused(function, reason)
    }
}

/// The ceiling of `a / d` as computed by `ceil_div`, with its bounds.
pub proof fn lemma_ceil_div(a: int, d: int)
    requires
        a >= 0,
        d > 0,
    ensures
        ceil_div(a, d) == a / d + (if a % d == 0 { 0int } else { 1int }),
        0 <= ceil_div(a, d) <= a,
        ceil_div(a, d) * d >= a,
        d == 1 ==> ceil_div(a, d) == a,
{
    let q = a / d;
    let r = a % d;
    assert(a == q * d + r && 0 <= r < d) by (nonlinear_arith)
        requires
            d > 0,
            q == a / d,
            r == a % d,
    ;
    if r == 0 {
        assert((a + d - 1) / d == q) by (nonlinear_arith)
            requires
                a == q * d,
                d > 0,
        ;
    } else {
        assert((a + d - 1) / d == q + 1) by (nonlinear_arith)
            requires
                a == q * d + r,
                0 < r < d,
        ;
    }
    assert(q >= 0 && q * d <= a) by (nonlinear_arith)
        requires
            a == q * d + r,
            0 <= r < d,
            a >= 0,
            d > 0,
    ;
    if r != 0 {
        assert(q + 1 <= a) by (nonlinear_arith)
            requires
                a == q * d + r,
                0 < r < d,
                q >= 0,
        ;
        assert((q + 1) * d >= a) by (nonlinear_arith)
            requires
                a == q * d + r,
                r < d,
        ;
    }
}

/// `a / d` rounded up (`usize::div_ceil`).
pub fn div_ceil(a: usize, d: usize) -> (r: usize)
    requires
        d > 0,
    ensures
        r == ceil_div(a as int, d as int),
{
    proof {
        lemma_ceil_div(a as int, d as int);
    }
    if a % d == 0 {
        a / d
    } else {
        a / d + 1
    }
}

/// Whether `n` is a power of two (`usize::is_power_of_two`).
pub fn is_power_of_two(n: usize) -> (b: bool)
    ensures
        b == is_pow2(n as nat),
{
    let mut m = n;
    while m > 1 && m % 2 == 0
        invariant
            is_pow2(n as nat) == is_pow2(m as nat),
        decreases m,
    {
        m = m / 2;
    }
    m == 1
}

/// Checks that `value` fits a C `int`; refuses it with `reason` otherwise.
pub fn require_c_int(value: usize, function: &'static str, reason: &'static str) -> (r: Result<(), Error>)
    ensures
        r == (if fits_c_int(value as int) { Ok(()) } else { refused::<()>(function, reason) }),
{
    if i32::try_from(value).is_err() {
        return Err(Error::with_reason(-1, function, reason));
    }
    Ok(())
}

/// `stride * height`, refused with `reason` when the product overflows `usize`.
pub fn checked_buf_size(stride: usize, height: usize, function: &'static str, reason: &'static str) -> (r: Result<usize, Error>)
    ensures
        r == checked_result(stride * height, function, reason),
{
    match stride.checked_mul(height) {
        Some(v) => Ok(v),
        None => Err(Error::with_reason(-1, function, reason)),
    }
}

/// The number of bytes libyuv reads from the last row of tiles: the padded
/// width times the tile height, and ten eighths of that for 10-bit packed tiles.
pub open spec fn tile_row_size_result(padded_width: usize, tile_height: usize, is_10bit: bool, function: &'static str) -> Result<usize, Error> {
    let v = padded_width * tile_height;
    if v > usize::MAX {
        refused(function, "tile row size overflow")
    } else if is_10bit {
        if v * 10 > usize::MAX {
            refused(function, "tile row size overflow")
        } else {
            Ok((v * 10 / 8) as usize)
        }
    } else {
        Ok(v as usize)
    }
}

/// Computes the read size of one row of tiles without overflow.
pub fn checked_tile_row_size(padded_width: usize, tile_height: usize, is_10bit: bool, function: &'static str) -> (r: Result<usize, Error>)
    ensures
        r == tile_row_size_result(padded_width, tile_height, is_10bit, function),
{
    match padded_width.checked_mul(tile_height) {
        None => Err(Error::with_reason(-1, function, "tile row size overflow")),
        Some(v) => {
            if is_10bit {
                match v.checked_mul(10) {
                    None => Err(Error::with_reason(-1, function, "tile row size overflow")),
                    Some(w) => Ok(w / 8),
                }
            } else {
                Ok(v)
            }
        },
    }
}

/// The buffer size a tiled plane needs: every row of tiles but the last is
/// `stride * tile_height` bytes apart, and the last one reads `tile_row_size` bytes.
pub open spec fn tiled_buf_size_result(tile_rows: usize, stride: usize, tile_height: usize, tile_row_size: usize, function: &'static str) -> Result<usize, Error> {
    let a = (tile_rows - 1) * stride;
    if a > usize::MAX || a * tile_height > usize::MAX || a * tile_height + tile_row_size > usize::MAX {
        refused(function, "tiled buffer size overflow")
    } else {
        Ok((a * tile_height + tile_row_size) as usize)
    }
}

/// Computes the size a tiled plane needs without overflow.
pub fn checked_tiled_buf_size(tile_rows: usize, stride: usize, tile_height: usize, tile_row_size: usize, function: &'static str) -> (r: Result<usize, Error>)
    requires
        tile_rows >= 1,
    ensures
        r == tiled_buf_size_result(tile_rows, stride, tile_height, tile_row_size, function),
{
    let steps = (tile_rows - 1).checked_mul(stride);
    let span = match steps {
        Some(a) => a.checked_mul(tile_height),
        None => None,
    };
    let total = match span {
        Some(b) => b.checked_add(tile_row_size),
        None => None,
    };
    match total {
        Some(t) => Ok(t),
        None => Err(Error::with_reason(-1, function, "tiled buffer size overflow")),
    }
}

/// A C `int` holds exactly the values from 0 up to `2^31 - 1`.
pub proof fn law_c_int_range(v: int)
    ensures
        fits_c_int(v) <==> 0 <= v < 0x8000_0000,
{
}

/// The rounded-up quotient is the least multiple count that covers `a`:
/// `d * q >= a` and `d * (q - 1) < a`.
pub proof fn law_ceil_div_is_least_cover(a: int, d: int)
    requires
        a >= 0,
        d > 0,
    ensures
        d * ceil_div(a, d) >= a,
        d * (ceil_div(a, d) - 1) < a || (a == 0 && ceil_div(a, d) == 0),
        ceil_div(a, d) >= 0,
{
    lemma_ceil_div(a, d);
    let q = a / d;
    let r = a % d;
    assert(a == d * q + r && 0 <= r < d) by (nonlinear_arith)
        requires
            d > 0,
            q == a / d,
            r == a % d,
    ;
    assert(d * ceil_div(a, d) == ceil_div(a, d) * d) by (nonlinear_arith);
    assert(d * (ceil_div(a, d) - 1) == d * ceil_div(a, d) - d) by (nonlinear_arith);
}

/// The powers of two are 1 and the doubles of powers of two: 0 and odd
/// numbers above 1 are not.
pub proof fn law_pow2_doubles(n: nat)
    ensures
        is_pow2(1),
        !is_pow2(0),
        n >= 1 ==> (is_pow2(2 * n) <==> is_pow2(n)),
        n >= 1 ==> !is_pow2(2 * n + 1),
{
    if n >= 1 {
        assert((2 * n) / 2 == n);
        assert((2 * n + 1) % 2 == 1);
    }
}

/// A buffer size is reported exactly when `stride * height` fits a `usize`,
/// and is then that product.
pub proof fn law_checked_size(v: int, function: &'static str, reason: &'static str)
    ensures
        checked_result(v, function, reason) is Ok <==> v <= usize::MAX,
        v <= usize::MAX && v >= 0 ==> checked_result(v, function, reason) == Ok::<usize, Error>(v as usize),
{
}

} // verus!
