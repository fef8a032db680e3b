//! Validation of the buffer layouts libyuv reads and writes: planar YUV
//! (three planes), semi-planar YUV (luma plus interleaved chroma), single
//! planes, packed pixels, and the tiled layouts of MediaTek decoders.
use vstd::prelude::*;
use crate::checks::{C_INT_MAX, ceil_div, checked_buf_size, div_ceil, fits_c_int, require_c_int};
use crate::error::{Error, refused};
use crate::geometry::ImageSize;

verus! {

/// Whether a buffer is read (source) or written (destination); only the
/// wording of the errors depends on it.
#[derive(Debug, Clone, Copy, PartialEq, Eq, Structural)]
pub enum Direction {
    Source,
    Destination,
}

/// Whether strides count bytes or 16-bit elements; only the wording of the
/// errors depends on it.
#[derive(Debug, Clone, Copy, PartialEq, Eq, Structural)]
pub enum Unit {
    Byte,
    Element,
}

pub open spec fn y_too_small(dir: Direction) -> &'static str {
    match dir {
        Direction::Source => "source Y buffer too small",
        Direction::Destination => "destination Y buffer too small",
    }
}

pub open spec fn u_too_small(dir: Direction) -> &'static str {
    match dir {
        Direction::Source => "source U buffer too small",
        Direction::Destination => "destination U buffer too small",
    }
}

pub open spec fn v_too_small(dir: Direction) -> &'static str {
    match dir {
        Direction::Source => "source V buffer too small",
        Direction::Destination => "destination V buffer too small",
    }
}

pub open spec fn uv_too_small(dir: Direction) -> &'static str {
    match dir {
        Direction::Source => "source UV buffer too small",
        Direction::Destination => "destination UV buffer too small",
    }
}

pub open spec fn data_too_small(dir: Direction) -> &'static str {
    match dir {
        Direction::Source => "source buffer too small",
        Direction::Destination => "destination buffer too small",
    }
}

pub open spec fn stride_below_pixel_width(unit: Unit) -> &'static str {
    match unit {
        Unit::Byte => "stride smaller than width * bpp",
        Unit::Element => "stride smaller than width * epp",
    }
}

fn y_too_small_reason(dir: Direction) -> (s: &'static str)
    ensures
        s == y_too_small(dir),
{
    match dir {
        Direction::Source => "source Y buffer too small",
        Direction::Destination => "destination Y buffer too small",
    }
}

fn u_too_small_reason(dir: Direction) -> (s: &'static str)
    ensures
        s == u_too_small(dir),
{
    match dir {
        Direction::Source => "source U buffer too small",
        Direction::Destination => "destination U buffer too small",
    }
}

fn v_too_small_reason(dir: Direction) -> (s: &'static str)
    ensures
        s == v_too_small(dir),
{
    match dir {
        Direction::Source => "source V buffer too small",
        Direction::Destination => "destination V buffer too small",
    }
}

fn uv_too_small_reason(dir: Direction) -> (s: &'static str)
    ensures
        s == uv_too_small(dir),
{
    match dir {
        Direction::Source => "source UV buffer too small",
        Direction::Destination => "destination UV buffer too small",
    }
}

fn data_too_small_reason(dir: Direction) -> (s: &'static str)
    ensures
        s == data_too_small(dir),
{
    match dir {
        Direction::Source => "source buffer too small",
        Direction::Destination => "destination buffer too small",
    }
}

fn stride_below_pixel_width_reason(unit: Unit) -> (s: &'static str)
    ensures
        s == stride_below_pixel_width(unit),
{
    match unit {
        Unit::Byte => "stride smaller than width * bpp",
        Unit::Element => "stride smaller than width * epp",
    }
}

// ------------------------------------------------------------------
// Three planes: Y, U, V
// ------------------------------------------------------------------

/// The outcome of validating a three-plane image: the first check that fails,
/// in the order the library performs them, or `Ok`.
///
/// The chroma planes are `ceil(width / uv_width_divisor)` wide and
/// `ceil(height / uv_height_divisor)` high; each plane needs `stride * rows`
/// elements.
pub open spec fn planar3_result(
    y_len: nat,
    y_stride: usize,
    u_len: nat,
    u_stride: usize,
    v_len: nat,
    v_stride: usize,
    size: ImageSize,
    uv_height_divisor: usize,
    uv_width_divisor: usize,
    function: &'static str,
    dir: Direction,
) -> Result<(), Error> {
    let uv_width = ceil_div(size.width as int, uv_width_divisor as int);
    let uv_height = ceil_div(size.height as int, uv_height_divisor as int);
    if !fits_c_int(size.width as int) {
        refused(function, "width exceeds c_int range")
    } else if !fits_c_int(size.height as int) {
        refused(function, "height exceeds c_int range")
    } else if !fits_c_int(y_stride as int) {
        refused(function, "Y stride exceeds c_int range")
    } else if !fits_c_int(u_stride as int) {
        refused(function, "U stride exceeds c_int range")
    } else if !fits_c_int(v_stride as int) {
        refused(function, "V stride exceeds c_int range")
    } else if y_stride < size.width {
        refused(function, "Y stride smaller than width")
    } else if u_stride < uv_width {
        refused(function, "U stride smaller than chroma width")
    } else if v_stride < uv_width {
        refused(function, "V stride smaller than chroma width")
    } else if y_stride * size.height > usize::MAX {
        refused(function, "Y buffer size overflow")
    } else if y_len < y_stride * size.height {
        refused(function, y_too_small(dir))
    } else if u_stride * uv_height > usize::MAX {
        refused(function, "U buffer size overflow")
    } else if u_len < u_stride * uv_height {
        refused(function, u_too_small(dir))
    } else if v_stride * uv_height > usize::MAX {
        refused(function, "V buffer size overflow")
    } else if v_len < v_stride * uv_height {
        refused(function, v_too_small(dir))
    } else {
        Ok(())
    }
}

/// A three-plane layout libyuv can process: every value fits a C `int`, every
/// stride covers its row, and every plane holds `stride * rows` elements.
pub open spec fn planar3_fits(
    y_len: nat,
    y_stride: usize,
    u_len: nat,
    u_stride: usize,
    v_len: nat,
    v_stride: usize,
    size: ImageSize,
    uv_height_divisor: usize,
    uv_width_divisor: usize,
) -> bool {
    let uv_width = ceil_div(size.width as int, uv_width_divisor as int);
    let uv_height = ceil_div(size.height as int, uv_height_divisor as int);
    &&& fits_c_int(size.width as int) && fits_c_int(size.height as int)
    &&& fits_c_int(y_stride as int) && fits_c_int(u_stride as int) && fits_c_int(v_stride as int)
    &&& size.width <= y_stride && uv_width <= u_stride && uv_width <= v_stride
    &&& y_stride * size.height <= y_len
    &&& u_stride * uv_height <= u_len
    &&& v_stride * uv_height <= v_len
}

/// Validates a three-plane layout given the lengths of its planes.
pub fn check_planar3(
    y_len: usize,
    y_stride: usize,
    u_len: usize,
    u_stride: usize,
    v_len: usize,
    v_stride: usize,
    size: ImageSize,
    uv_height_divisor: usize,
    uv_width_divisor: usize,
    function: &'static str,
    dir: Direction,
) -> (r: Result<(), Error>)
    requires
        uv_height_divisor > 0,
        uv_width_divisor > 0,
    ensures
        r == planar3_result(
            y_len as nat, y_stride, u_len as nat, u_stride, v_len as nat, v_stride, size,
            uv_height_divisor, uv_width_divisor, function, dir,
        ),
{
    require_c_int(size.width, function, "width exceeds c_int range")?;
    require_c_int(size.height, function, "height exceeds c_int range")?;
    require_c_int(y_stride, function, "Y stride exceeds c_int range")?;
    require_c_int(u_stride, function, "U stride exceeds c_int range")?;
    require_c_int(v_stride, function, "V stride exceeds c_int range")?;
    if y_stride < size.width {
        return Err(Error::with_reason(-1, function, "Y stride smaller than width"));
    }
    let uv_width = div_ceil(size.width, uv_width_divisor);
    if u_stride < uv_width {
        return Err(Error::with_reason(-1, function, "U stride smaller than chroma width"));
    }
    if v_stride < uv_width {
        return Err(Error::with_reason(-1, function, "V stride smaller than chroma width"));
    }
    let y_size = checked_buf_size(y_stride, size.height, function, "Y buffer size overflow")?;
    if y_len < y_size {
        return Err(Error::with_reason(-1, function, y_too_small_reason(dir)));
    }
    let uv_height = div_ceil(size.height, uv_height_divisor);
    let u_size = checked_buf_size(u_stride, uv_height, function, "U buffer size overflow")?;
    if u_len < u_size {
        return Err(Error::with_reason(-1, function, u_too_small_reason(dir)));
    }
    let v_size = checked_buf_size(v_stride, uv_height, function, "V buffer size overflow")?;
    if v_len < v_size {
        return Err(Error::with_reason(-1, function, v_too_small_reason(dir)));
    }
    Ok(())
}

// ------------------------------------------------------------------
// Two planes: Y and interleaved UV
// ------------------------------------------------------------------

/// The outcome of validating a semi-planar image (luma plane and one plane of
/// interleaved chroma pairs, so a chroma row is `2 * ceil(width / uv_width_divisor)`
/// elements wide).
pub open spec fn planar2_result(
    y_len: nat,
    y_stride: usize,
    uv_len: nat,
    uv_stride: usize,
    size: ImageSize,
    uv_height_divisor: usize,
    uv_width_divisor: usize,
    function: &'static str,
    dir: Direction,
) -> Result<(), Error> {
    let uv_row = ceil_div(size.width as int, uv_width_divisor as int) * 2;
    let uv_height = ceil_div(size.height as int, uv_height_divisor as int);
    if !fits_c_int(size.width as int) {
        refused(function, "width exceeds c_int range")
    } else if !fits_c_int(size.height as int) {
        refused(function, "height exceeds c_int range")
    } else if !fits_c_int(y_stride as int) {
        refused(function, "Y stride exceeds c_int range")
    } else if !fits_c_int(uv_stride as int) {
        refused(function, "UV stride exceeds c_int range")
    } else if y_stride < size.width {
        refused(function, "Y stride smaller than width")
    } else if uv_row > usize::MAX {
        refused(function, "UV minimum stride overflow")
    } else if uv_stride < uv_row {
        refused(function, "UV stride smaller than chroma width")
    } else if y_stride * size.height > usize::MAX {
        refused(function, "Y buffer size overflow")
    } else if y_len < y_stride * size.height {
        refused(function, y_too_small(dir))
    } else if uv_stride * uv_height > usize::MAX {
        refused(function, "UV buffer size overflow")
    } else if uv_len < uv_stride * uv_height {
        refused(function, uv_too_small(dir))
    } else {
        Ok(())
    }
}

/// A semi-planar layout libyuv can process.
pub open spec fn planar2_fits(
    y_len: nat,
    y_stride: usize,
    uv_len: nat,
    uv_stride: usize,
    size: ImageSize,
    uv_height_divisor: usize,
    uv_width_divisor: usize,
) -> bool {
    let uv_row = ceil_div(size.width as int, uv_width_divisor as int) * 2;
    let uv_height = ceil_div(size.height as int, uv_height_divisor as int);
    &&& fits_c_int(size.width as int) && fits_c_int(size.height as int)
    &&& fits_c_int(y_stride as int) && fits_c_int(uv_stride as int)
    &&& size.width <= y_stride && uv_row <= uv_stride
    &&& y_stride * size.height <= y_len
    &&& uv_stride * uv_height <= uv_len
}

/// Validates a semi-planar layout given the lengths of its planes.
pub fn check_planar2(
    y_len: usize,
    y_stride: usize,
    uv_len: usize,
    uv_stride: usize,
    size: ImageSize,
    uv_height_divisor: usize,
    uv_width_divisor: usize,
    function: &'static str,
    dir: Direction,
) -> (r: Result<(), Error>)
    requires
        uv_height_divisor > 0,
        uv_width_divisor > 0,
    ensures
        r == planar2_result(
            y_len as nat, y_stride, uv_len as nat, uv_stride, size, uv_height_divisor,
            uv_width_divisor, function, dir,
        ),
{
    require_c_int(size.width, function, "width exceeds c_int range")?;
    require_c_int(size.height, function, "height exceeds c_int range")?;
    require_c_int(y_stride, function, "Y stride exceeds c_int range")?;
    require_c_int(uv_stride, function, "UV stride exceeds c_int range")?;
    if y_stride < size.width {
        return Err(Error::with_reason(-1, function, "Y stride smaller than width"));
    }
    let min_uv_stride = match div_ceil(size.width, uv_width_divisor).checked_mul(2) {
        Some(m) => m,
        None => return Err(Error::with_reason(-1, function, "UV minimum stride overflow")),
    };
    if uv_stride < min_uv_stride {
        return Err(Error::with_reason(-1, function, "UV stride smaller than chroma width"));
    }
    let y_size = checked_buf_size(y_stride, size.height, function, "Y buffer size overflow")?;
    if y_len < y_size {
        return Err(Error::with_reason(-1, function, y_too_small_reason(dir)));
    }
    let uv_height = div_ceil(size.height, uv_height_divisor);
    let uv_size = checked_buf_size(uv_stride, uv_height, function, "UV buffer size overflow")?;
    if uv_len < uv_size {
        return Err(Error::with_reason(-1, function, uv_too_small_reason(dir)));
    }
    Ok(())
}

// ------------------------------------------------------------------
// One plane: luma only, or packed pixels
// ------------------------------------------------------------------

/// The outcome of validating a luma-only image.
pub open spec fn luma_result(y_len: nat, y_stride: usize, size: ImageSize, function: &'static str, dir: Direction) -> Result<(), Error> {
    if !fits_c_int(size.width as int) {
        refused(function, "width exceeds c_int range")
    } else if !fits_c_int(size.height as int) {
        refused(function, "height exceeds c_int range")
    } else if !fits_c_int(y_stride as int) {
        refused(function, "Y stride exceeds c_int range")
    } else if y_stride < size.width {
        refused(function, "Y stride smaller than width")
    } else if y_stride * size.height > usize::MAX {
        refused(function, "buffer size overflow")
    } else if y_len < y_stride * size.height {
        refused(function, y_too_small(dir))
    } else {
        Ok(())
    }
}

/// Validates a luma-only layout given the length of its plane.
pub fn check_luma(y_len: usize, y_stride: usize, size: ImageSize, function: &'static str, dir: Direction) -> (r: Result<(), Error>)
    ensures
        r == luma_result(y_len as nat, y_stride, size, function, dir),
{
    require_c_int(size.width, function, "width exceeds c_int range")?;
    require_c_int(size.height, function, "height exceeds c_int range")?;
    require_c_int(y_stride, function, "Y stride exceeds c_int range")?;
    if y_stride < size.width {
        return Err(Error::with_reason(-1, function, "Y stride smaller than width"));
    }
    let buf_size = checked_buf_size(y_stride, size.height, function, "buffer size overflow")?;
    if y_len < buf_size {
        return Err(Error::with_reason(-1, function, y_too_small_reason(dir)));
    }
    Ok(())
}

/// The outcome of validating a packed image of `per_pixel` elements per pixel.
pub open spec fn packed_result(len: nat, stride: usize, size: ImageSize, per_pixel: usize, unit: Unit, function: &'static str, dir: Direction) -> Result<(), Error> {
    if !fits_c_int(size.width as int) {
        refused(function, "width exceeds c_int range")
    } else if !fits_c_int(size.height as int) {
        refused(function, "height exceeds c_int range")
    } else if !fits_c_int(stride as int) {
        refused(function, "stride exceeds c_int range")
    } else if size.width * per_pixel > usize::MAX {
        refused(function, "minimum stride overflow")
    } else if stride < size.width * per_pixel {
        refused(function, stride_below_pixel_width(unit))
    } else if stride * size.height > usize::MAX {
        refused(function, "buffer size overflow")
    } else if len < stride * size.height {
        refused(function, data_too_small(dir))
    } else {
        Ok(())
    }
}

/// A packed layout libyuv can process.
pub open spec fn packed_fits(len: nat, stride: usize, size: ImageSize, per_pixel: usize) -> bool {
    &&& fits_c_int(size.width as int) && fits_c_int(size.height as int) && fits_c_int(stride as int)
    &&& size.width * per_pixel <= stride
    &&& stride * size.height <= len
}

/// Validates a packed layout given the length of its buffer.
pub fn check_packed(len: usize, stride: usize, size: ImageSize, per_pixel: usize, unit: Unit, function: &'static str, dir: Direction) -> (r: Result<(), Error>)
    ensures
        r == packed_result(len as nat, stride, size, per_pixel, unit, function, dir),
{
    require_c_int(size.width, function, "width exceeds c_int range")?;
    require_c_int(size.height, function, "height exceeds c_int range")?;
    require_c_int(stride, function, "stride exceeds c_int range")?;
    let min_stride = match size.width.checked_mul(per_pixel) {
        Some(m) => m,
        None => return Err(Error::with_reason(-1, function, "minimum stride overflow")),
    };
    if stride < min_stride {
        return Err(Error::with_reason(-1, function, stride_below_pixel_width_reason(unit)));
    }
    let buf_size = checked_buf_size(stride, size.height, function, "buffer size overflow")?;
    if len < buf_size {
        return Err(Error::with_reason(-1, function, data_too_small_reason(dir)));
    }
    Ok(())
}

// ------------------------------------------------------------------
// Validators on the image slices themselves
// ------------------------------------------------------------------

/// Validates a three-plane 8-bit source image.
pub fn validate_yuv_src_inner(
    y: &[u8],
    y_stride: usize,
    u: &[u8],
    u_stride: usize,
    v: &[u8],
    v_stride: usize,
    size: ImageSize,
    uv_height_divisor: usize,
    uv_width_divisor: usize,
    function: &'static str,
) -> (r: Result<(), Error>)
    requires
        uv_height_divisor > 0,
        uv_width_divisor > 0,
    ensures
        r == planar3_result(
            y@.len(), y_stride, u@.len(), u_stride, v@.len(), v_stride, size, uv_height_divisor,
            uv_width_divisor, function, Direction::Source,
        ),
{
    check_planar3(
        y.len(), y_stride, u.len(), u_stride, v.len(), v_stride, size, uv_height_divisor,
        uv_width_divisor, function, Direction::Source,
    )
}

/// Validates a three-plane 8-bit destination image.
pub fn validate_yuv_dst_inner(
    y: &[u8],
    y_stride: usize,
    u: &[u8],
    u_stride: usize,
    v: &[u8],
    v_stride: usize,
    size: ImageSize,
    uv_height_divisor: usize,
    uv_width_divisor: usize,
    function: &'static str,
) -> (r: Result<(), Error>)
    requires
        uv_height_divisor > 0,
        uv_width_divisor > 0,
    ensures
        r == planar3_result(
            y@.len(), y_stride, u@.len(), u_stride, v@.len(), v_stride, size, uv_height_divisor,
            uv_width_divisor, function, Direction::Destination,
        ),
{
    check_planar3(
        y.len(), y_stride, u.len(), u_stride, v.len(), v_stride, size, uv_height_divisor,
        uv_width_divisor, function, Direction::Destination,
    )
}

/// Validates a three-plane 16-bit source image (strides count elements).
pub fn validate_yuv16_src_inner(
    y: &[u16],
    y_stride: usize,
    u: &[u16],
    u_stride: usize,
    v: &[u16],
    v_stride: usize,
    size: ImageSize,
    uv_height_divisor: usize,
    uv_width_divisor: usize,
    function: &'static str,
) -> (r: Result<(), Error>)
    requires
        uv_height_divisor > 0,
        uv_width_divisor > 0,
    ensures
        r == planar3_result(
            y@.len(), y_stride, u@.len(), u_stride, v@.len(), v_stride, size, uv_height_divisor,
            uv_width_divisor, function, Direction::Source,
        ),
{
    check_planar3(
        y.len(), y_stride, u.len(), u_stride, v.len(), v_stride, size, uv_height_divisor,
        uv_width_divisor, function, Direction::Source,
    )
}

/// Validates a three-plane 16-bit destination image (strides count elements).
pub fn validate_yuv16_dst_inner(
    y: &[u16],
    y_stride: usize,
    u: &[u16],
    u_stride: usize,
    v: &[u16],
    v_stride: usize,
    size: ImageSize,
    uv_height_divisor: usize,
    uv_width_divisor: usize,
    function: &'static str,
) -> (r: Result<(), Error>)
    requires
        uv_height_divisor > 0,
        uv_width_divisor > 0,
    ensures
        r == planar3_result(
            y@.len(), y_stride, u@.len(), u_stride, v@.len(), v_stride, size, uv_height_divisor,
            uv_width_divisor, function, Direction::Destination,
        ),
{
    check_planar3(
        y.len(), y_stride, u.len(), u_stride, v.len(), v_stride, size, uv_height_divisor,
        uv_width_divisor, function, Direction::Destination,
    )
}

/// Validates a semi-planar 8-bit source image.
pub fn validate_nv_src_inner(
    y: &[u8],
    y_stride: usize,
    uv: &[u8],
    uv_stride: usize,
    size: ImageSize,
    uv_height_divisor: usize,
    uv_width_divisor: usize,
    function: &'static str,
) -> (r: Result<(), Error>)
    requires
        uv_height_divisor > 0,
        uv_width_divisor > 0,
    ensures
        r == planar2_result(
            y@.len(), y_stride, uv@.len(), uv_stride, size, uv_height_divisor, uv_width_divisor,
            function, Direction::Source,
        ),
{
    check_planar2(
        y.len(), y_stride, uv.len(), uv_stride, size, uv_height_divisor, uv_width_divisor,
        function, Direction::Source,
    )
}

/// Validates a semi-planar 8-bit destination image.
pub fn validate_nv_dst_inner(
    y: &[u8],
    y_stride: usize,
    uv: &[u8],
    uv_stride: usize,
    size: ImageSize,
    uv_height_divisor: usize,
    uv_width_divisor: usize,
    function: &'static str,
) -> (r: Result<(), Error>)
    requires
        uv_height_divisor > 0,
        uv_width_divisor > 0,
    ensures
        r == planar2_result(
            y@.len(), y_stride, uv@.len(), uv_stride, size, uv_height_divisor, uv_width_divisor,
            function, Direction::Destination,
        ),
{
    check_planar2(
        y.len(), y_stride, uv.len(), uv_stride, size, uv_height_divisor, uv_width_divisor,
        function, Direction::Destination,
    )
}

/// Validates a semi-planar 16-bit source image (strides count elements).
pub fn validate_nv16_src_inner(
    y: &[u16],
    y_stride: usize,
    uv: &[u16],
    uv_stride: usize,
    size: ImageSize,
    uv_height_divisor: usize,
    uv_width_divisor: usize,
    function: &'static str,
) -> (r: Result<(), Error>)
    requires
        uv_height_divisor > 0,
        uv_width_divisor > 0,
    ensures
        r == planar2_result(
            y@.len(), y_stride, uv@.len(), uv_stride, size, uv_height_divisor, uv_width_divisor,
            function, Direction::Source,
        ),
{
    check_planar2(
        y.len(), y_stride, uv.len(), uv_stride, size, uv_height_divisor, uv_width_divisor,
        function, Direction::Source,
    )
}

/// Validates a semi-planar 16-bit destination image (strides count elements).
pub fn validate_nv16_dst_inner(
    y: &[u16],
    y_stride: usize,
    uv: &[u16],
    uv_stride: usize,
    size: ImageSize,
    uv_height_divisor: usize,
    uv_width_divisor: usize,
    function: &'static str,
) -> (r: Result<(), Error>)
    requires
        uv_height_divisor > 0,
        uv_width_divisor > 0,
    ensures
        r == planar2_result(
            y@.len(), y_stride, uv@.len(), uv_stride, size, uv_height_divisor, uv_width_divisor,
            function, Direction::Destination,
        ),
{
    check_planar2(
        y.len(), y_stride, uv.len(), uv_stride, size, uv_height_divisor, uv_width_divisor,
        function, Direction::Destination,
    )
}

} // verus!
