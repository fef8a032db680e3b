use shiguredo_libyuv::{
    I420Image, ImageSize, compute_sum_square_error, compute_sum_square_error_plane, hash_djb2,
    validate_calc_frame_psnr, validate_calc_frame_ssim, validate_compute_hamming_distance, validate_i420_psnr,
    validate_i420_ssim, validate_sum_square_error_to_psnr,
};

fn reason(r: Result<(), shiguredo_libyuv::Error>) -> Option<&'static str> {
    match r {
        Ok(()) => None,
        Err(e) => e.reason(),
    }
}

#[test]
fn sum_square_error_exact() {
    let a = [10u8, 20, 30, 40];
    let b = [12u8, 18, 30, 45];
    assert_eq!(compute_sum_square_error(&a, &b, 4).unwrap(), 4 + 4 + 0 + 25);
    assert_eq!(compute_sum_square_error(&b, &a, 4).unwrap(), 33);
    assert_eq!(compute_sum_square_error(&a, &a, 4).unwrap(), 0);
    assert_eq!(compute_sum_square_error(&a, &b, 2).unwrap(), 8);
    assert_eq!(compute_sum_square_error(&[0u8, 255], &[255u8, 0], 2).unwrap(), 2 * 65025);
    let e = compute_sum_square_error(&a, &b[..3], 4).unwrap_err();
    assert_eq!(e.reason(), Some("source B buffer too small"));
    let e = compute_sum_square_error(&a[..3], &b, 4).unwrap_err();
    assert_eq!(e.reason(), Some("source A buffer too small"));
    let e = compute_sum_square_error(&a, &b, i32::MAX as usize + 1).unwrap_err();
    assert_eq!(e.reason(), Some("count exceeds c_int range"));
}

#[test]
fn sum_square_error_plane_skips_padding() {
    // Two rows of 2 samples, 3 apart; the padding bytes differ but are not compared.
    let a = [1u8, 2, 100, 3, 4, 9];
    let b = [1u8, 4, 0, 6, 4, 0];
    assert_eq!(compute_sum_square_error_plane(&a, 3, &b, 3, ImageSize::new(2, 2)).unwrap(), 4 + 9);
    // Different strides on each side.
    let c = [1u8, 4, 6, 4];
    assert_eq!(compute_sum_square_error_plane(&a, 3, &c, 2, ImageSize::new(2, 2)).unwrap(), 13);
    // Packed rows give the same as the contiguous sum.
    assert_eq!(
        compute_sum_square_error_plane(&c, 2, &a[..4], 2, ImageSize::new(2, 2)).unwrap(),
        compute_sum_square_error(&c, &a[..4], 4).unwrap()
    );
    let e = compute_sum_square_error_plane(&a, 1, &b, 3, ImageSize::new(2, 2)).unwrap_err();
    assert_eq!(e.reason(), Some("stride A smaller than width"));
    let e = compute_sum_square_error_plane(&a[..5], 3, &b, 3, ImageSize::new(2, 2)).unwrap_err();
    assert_eq!(e.reason(), Some("source A buffer too small"));
    assert_eq!(compute_sum_square_error_plane(&[], 0, &[], 0, ImageSize::new(0, 0)).unwrap(), 0);
}

#[test]
fn djb2_values() {
    assert_eq!(hash_djb2(b"", 7).unwrap(), 7);
    assert_eq!(hash_djb2(b"a", 5381).unwrap(), 5381 * 33 + 97);
    assert_eq!(hash_djb2(b"hello", 5381).unwrap(), 261238937);
    assert_eq!(hash_djb2(b"abc", 5381).unwrap(), 193485963);
    assert_eq!(hash_djb2(&[0xffu8; 10], 0xffff_ffff).unwrap(), 4049473301);
}

#[test]
fn djb2_chains_through_the_seed() {
    let whole = hash_djb2(b"hello world", 5381).unwrap();
    let first = hash_djb2(b"hello ", 5381).unwrap();
    assert_eq!(hash_djb2(b"world", first).unwrap(), whole);
}

#[test]
fn psnr_and_ssim_checks() {
    let y = vec![0u8; 17 * 17];
    let uv = vec![0u8; 9 * 9];
    let img = I420Image { y: &y, y_stride: 17, u: &uv, u_stride: 9, v: &uv, v_stride: 9 };
    assert!(validate_i420_psnr(&img, &img, ImageSize::new(17, 17)).is_ok());
    assert!(validate_i420_ssim(&img, &img, ImageSize::new(17, 17)).is_ok());
    assert_eq!(
        reason(validate_i420_ssim(&img, &img, ImageSize::new(16, 17))),
        Some("image must be at least 17x17 for SSIM calculation (U/V planes are downsampled)")
    );
    assert_eq!(
        reason(validate_i420_psnr(&img, &img, ImageSize::new(0, 17))),
        Some("width and height must be greater than 0")
    );
    assert!(validate_calc_frame_psnr(&y, 17, &y, 17, ImageSize::new(17, 17)).is_ok());
    assert_eq!(
        reason(validate_calc_frame_psnr(&y, 17, &y, 17, ImageSize::new(17, 0))),
        Some("width and height must be greater than 0")
    );
    assert!(validate_calc_frame_ssim(&y, 17, &y, 17, ImageSize::new(9, 9)).is_ok());
    assert_eq!(
        reason(validate_calc_frame_ssim(&y, 17, &y, 17, ImageSize::new(8, 9))),
        Some("image must be at least 9x9 for SSIM calculation")
    );
    assert_eq!(
        reason(validate_calc_frame_ssim(&y, 17, &y[..17 * 16], 17, ImageSize::new(17, 17))),
        Some("source B buffer too small")
    );
    assert_eq!(
        reason(validate_calc_frame_psnr(&y, 17, &y, 16, ImageSize::new(17, 17))),
        Some("stride B smaller than width")
    );
}

#[test]
fn psnr_needs_samples() {
    assert_eq!(reason(validate_sum_square_error_to_psnr(0)), Some("count must be greater than 0"));
    assert!(validate_sum_square_error_to_psnr(1).is_ok());
}

#[test]
fn hamming_compares_the_shorter_length() {
    assert_eq!(validate_compute_hamming_distance(&[1, 2, 3], &[4, 5]).unwrap(), 2);
    assert_eq!(validate_compute_hamming_distance(&[], &[4, 5]).unwrap(), 0);
}
