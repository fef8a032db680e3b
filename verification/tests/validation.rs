use shiguredo_libyuv::{ImageSize, checked_buf_size, require_c_int, validate_nv_src_inner, validate_yuv_src_inner};

#[test]
fn require_c_int_max_ok() {
    let result = require_c_int(i32::MAX as usize, "test", "test reason");
    assert!(result.is_ok(), "c_int::MAX must be accepted");
}

#[test]
fn require_c_int_overflow_err() {
    let result = require_c_int(i32::MAX as usize + 1, "test", "test reason");
    assert!(result.is_err(), "c_int::MAX + 1 must be refused");
}

#[test]
fn checked_buf_size_normal_ok() {
    let result = checked_buf_size(8, 8, "test", "test reason");
    assert!(result.is_ok(), "8 * 8 must be accepted");
    assert_eq!(result.expect("Ok expected"), 64);
}

#[test]
fn checked_buf_size_overflow_err() {
    let result = checked_buf_size(usize::MAX, 2, "test", "test reason");
    assert!(result.is_err(), "usize::MAX * 2 must be refused");
}

#[test]
fn validate_yuv_src_inner_ok() {
    let y = vec![0u8; 64];
    let u = vec![0u8; 16];
    let v = vec![0u8; 16];
    let size = ImageSize::new(8, 8);
    let result = validate_yuv_src_inner(&y, 8, &u, 4, &v, 4, size, 2, 2, "test");
    assert!(result.is_ok(), "well-sized buffers must be accepted");
}

#[test]
fn validate_yuv_src_inner_buffer_too_small() {
    // 64 bytes are needed, only 10 are given.
    let y = vec![0u8; 10];
    let u = vec![0u8; 16];
    let v = vec![0u8; 16];
    let size = ImageSize::new(8, 8);
    let result = validate_yuv_src_inner(&y, 8, &u, 4, &v, 4, size, 2, 2, "test");
    assert!(result.is_err(), "a short buffer must be refused");
}

#[test]
fn validate_yuv_src_inner_stride_too_small() {
    let y = vec![0u8; 64];
    let u = vec![0u8; 16];
    let v = vec![0u8; 16];
    let size = ImageSize::new(8, 8);
    let result = validate_yuv_src_inner(&y, 4, &u, 4, &v, 4, size, 2, 2, "test");
    assert!(result.is_err(), "a short stride must be refused");
}

#[test]
fn validate_nv_src_inner_ok() {
    let y = vec![0u8; 64];
    let uv = vec![0u8; 32];
    let size = ImageSize::new(8, 8);
    let result = validate_nv_src_inner(&y, 8, &uv, 8, size, 2, 2, "test");
    assert!(result.is_ok(), "well-sized buffers must be accepted");
}

#[test]
fn validate_nv_src_inner_buffer_too_small() {
    let y = vec![0u8; 10];
    let uv = vec![0u8; 32];
    let size = ImageSize::new(8, 8);
    let result = validate_nv_src_inner(&y, 8, &uv, 8, size, 2, 2, "test");
    assert!(result.is_err(), "a short buffer must be refused");
}
