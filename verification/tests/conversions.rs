use shiguredo_libyuv::{
    AbgrImageMut, Android420Image, ArgbImage, ArgbImageMut, I420Image, I420ImageMut, ImageSize, Nv12Image,
    UyvyImage, Yuy2Image, Yuy2ImageMut, check_yuy2_uyvy_dst_overwrite, check_yuy2_uyvy_src_overread,
    mjpeg_size_from_decoded, validate_alpha_dst, validate_alpha_src, validate_android420_to_abgr,
    validate_android420_to_argb, validate_android420_to_i420, validate_argb_to_i420_alpha, validate_argb_to_yuy2,
    validate_detile_plane, validate_detile_plane_16, validate_detile_split_uv_plane, validate_detile_to_yuy2,
    validate_i420_alpha_to_argb, validate_i420_to_uyvy, validate_mjpeg_input, validate_mjpeg_size_input,
    validate_mjpeg_to_i420, validate_uyvy_to_y, validate_yuy2_to_argb, validate_yuy2_to_i420, validate_yuy2_to_y,
};

fn reason<T>(r: Result<T, shiguredo_libyuv::Error>) -> Option<&'static str> {
    match r {
        Ok(_) => None,
        Err(e) => e.reason(),
    }
}

#[test]
fn android420_pixel_stride() {
    // 4x2 frame; interleaved chroma rows need 4 bytes.
    let y = vec![0u8; 8];
    let u = vec![0u8; 4];
    let v = vec![0u8; 4];
    let src = Android420Image { y: &y, y_stride: 4, u: &u, u_stride: 4, v: &v, v_stride: 4 };
    let mut out = vec![0u8; 32];
    let dst = ArgbImageMut { data: &mut out, stride: 16 };
    let size = ImageSize::new(4, 2);
    assert!(validate_android420_to_argb(&src, 1, &dst, size).is_ok());
    assert!(validate_android420_to_argb(&src, 2, &dst, size).is_ok());
    assert_eq!(reason(validate_android420_to_argb(&src, 3, &dst, size)), Some("pixel_stride_uv must be 1 or 2"));
    let src = Android420Image { y: &y, y_stride: 4, u: &u, u_stride: 2, v: &v, v_stride: 4 };
    assert!(validate_android420_to_argb(&src, 1, &dst, size).is_ok());
    assert_eq!(
        reason(validate_android420_to_argb(&src, 2, &dst, size)),
        Some("U stride smaller than interleaved chroma width")
    );
    let src = Android420Image { y: &y, y_stride: 4, u: &u, u_stride: 4, v: &v, v_stride: 3 };
    let mut out2 = vec![0u8; 32];
    let dst2 = AbgrImageMut { data: &mut out2, stride: 16 };
    assert_eq!(
        reason(validate_android420_to_abgr(&src, 2, &dst2, size)),
        Some("V stride smaller than interleaved chroma width")
    );
    let (mut yy, mut uu, mut vv) = (vec![0u8; 8], vec![0u8; 2], vec![0u8; 2]);
    let dst3 = I420ImageMut { y: &mut yy, y_stride: 4, u: &mut uu, u_stride: 2, v: &mut vv, v_stride: 2 };
    let e = validate_android420_to_i420(&src, 5, &dst3, size).unwrap_err();
    assert_eq!(e.function(), "Android420ToI420");
}

#[test]
fn detile_plane_checks() {
    let src = vec![0u8; 16 * 4];
    let mut dst = vec![0u8; 8 * 4];
    let size = ImageSize::new(8, 4);
    assert_eq!(validate_detile_plane(&src, 16, &dst, 8, size, 4).unwrap(), true);
    assert_eq!(reason(validate_detile_plane(&src, 16, &dst, 8, size, 3)), Some("tile_height must be a power of two"));
    assert_eq!(reason(validate_detile_plane(&src, 16, &dst, 8, size, 0)), Some("tile_height must be a power of two"));
    assert_eq!(
        reason(validate_detile_plane(&src, 8, &dst, 8, size, 4)),
        Some("source stride smaller than round_up(width, 16)")
    );
    // 5 rows in tiles of 4 span two rows of tiles: 16 * 2 * 4 = 128 bytes.
    assert_eq!(reason(validate_detile_plane(&src, 16, &dst, 8, ImageSize::new(8, 5), 4)), Some("source buffer too small"));
    assert_eq!(reason(validate_detile_plane(&src, 16, &dst[..31], 8, size, 4)), Some("destination buffer too small"));
    assert_eq!(reason(validate_detile_plane(&src, 16, &dst, 7, size, 4)), Some("destination stride smaller than width"));
    // An empty image is a no-op, whatever the tile height.
    assert_eq!(validate_detile_plane(&[], 0, &mut dst, 0, ImageSize::new(0, 4), 3).unwrap(), false);
    let src16 = vec![0u16; 64];
    let dst16 = vec![0u16; 32];
    let e = validate_detile_plane_16(&src16, 16, &dst16, 8, size, 6).unwrap_err();
    assert_eq!(e.function(), "DetilePlane_16");
    assert!(validate_detile_plane_16(&src16, 16, &dst16, 8, size, 2).is_ok());
}

#[test]
fn detile_split_uv_plane_checks() {
    let src = vec![0u8; 16 * 4];
    let u = vec![0u8; 4 * 4];
    let v = vec![0u8; 4 * 4];
    let size = ImageSize::new(8, 4);
    assert!(validate_detile_split_uv_plane(&src, 16, &u, 4, &v, 4, size, 4).is_ok());
    assert_eq!(
        reason(validate_detile_split_uv_plane(&src, 16, &u, 3, &v, 4, size, 4)),
        Some("destination U stride smaller than (width + 1) / 2")
    );
    assert_eq!(
        reason(validate_detile_split_uv_plane(&src, 16, &u, 4, &v[..15], 4, size, 4)),
        Some("destination V buffer too small")
    );
    assert_eq!(validate_detile_split_uv_plane(&src, 16, &u, 4, &v, 4, ImageSize::new(8, 0), 4).unwrap(), false);
}

#[test]
fn detile_to_yuy2_checks() {
    let y = vec![0u8; 16 * 4];
    let uv = vec![0u8; 16 * 2];
    let src = Nv12Image { y: &y, y_stride: 16, uv: &uv, uv_stride: 16 };
    let mut out = vec![0u8; 16 * 4];
    let dst = Yuy2ImageMut { data: &mut out, stride: 16 };
    let size = ImageSize::new(8, 4);
    assert_eq!(validate_detile_to_yuy2(&src, &dst, size, 4).unwrap(), true);
    assert_eq!(reason(validate_detile_to_yuy2(&src, &dst, size, 1)), Some("tile_height must be at least 2"));
    assert_eq!(reason(validate_detile_to_yuy2(&src, &dst, size, 6)), Some("tile_height must be a power of two"));
    assert_eq!(validate_detile_to_yuy2(&src, &dst, ImageSize::new(0, 0), 1).unwrap(), false);
    let src = Nv12Image { y: &y, y_stride: 16, uv: &uv[..31], uv_stride: 16 };
    assert_eq!(reason(validate_detile_to_yuy2(&src, &dst, size, 4)), Some("source UV buffer too small"));
}

#[test]
fn alpha_plane_checks() {
    // 3 rows 4 apart, 3 wide: 4 * 2 + 3 = 11 bytes.
    let a = vec![0u8; 11];
    let size = ImageSize::new(3, 3);
    assert!(validate_alpha_src(&a, 4, size, "I420AlphaToARGB").is_ok());
    assert_eq!(reason(validate_alpha_src(&a[..10], 4, size, "I420AlphaToARGB")), Some("source alpha buffer too small"));
    assert_eq!(reason(validate_alpha_dst(&a[..10], 4, size, "ARGBToI420Alpha")), Some("destination alpha buffer too small"));
    assert_eq!(reason(validate_alpha_src(&a, 2, size, "I420AlphaToARGB")), Some("alpha stride smaller than width"));
    assert_eq!(
        reason(validate_alpha_src(&a, i32::MAX as usize + 1, size, "I420AlphaToARGB")),
        Some("alpha stride exceeds c_int range")
    );
}

#[test]
fn alpha_conversion_checks() {
    let y = vec![0u8; 16];
    let u = vec![0u8; 4];
    let v = vec![0u8; 4];
    let a = vec![0u8; 16];
    let src = I420Image { y: &y, y_stride: 4, u: &u, u_stride: 2, v: &v, v_stride: 2 };
    let mut out = vec![0u8; 64];
    let dst = ArgbImageMut { data: &mut out, stride: 16 };
    let size = ImageSize::new(4, 4);
    assert!(validate_i420_alpha_to_argb(&src, &a, 4, &dst, size).is_ok());
    assert_eq!(reason(validate_i420_alpha_to_argb(&src, &a[..14], 4, &dst, size)), Some("source alpha buffer too small"));
    let argb = vec![0u8; 64];
    let src = ArgbImage { data: &argb, stride: 16 };
    let (mut yy, mut uu, mut vv) = (vec![0u8; 16], vec![0u8; 4], vec![0u8; 4]);
    let dst = I420ImageMut { y: &mut yy, y_stride: 4, u: &mut uu, u_stride: 2, v: &mut vv, v_stride: 2 };
    let mut alpha = vec![0u8; 16];
    assert!(validate_argb_to_i420_alpha(&src, &dst, &mut alpha, 4, size).is_ok());
    assert_eq!(
        reason(validate_argb_to_i420_alpha(&src, &dst, &mut alpha[..15], 4, size)),
        Some("destination alpha buffer too small")
    );
}

#[test]
fn yuy2_odd_width_reads_past_the_last_row() {
    // 3x2 with 6-byte rows: the last row reads 3 * 2 + 2 = 8 bytes, 14 in all.
    let size = ImageSize::new(3, 2);
    let data = vec![0u8; 14];
    assert!(check_yuy2_uyvy_src_overread(&data, 6, size, false, "YUY2ToI420").is_ok());
    assert_eq!(
        reason(check_yuy2_uyvy_src_overread(&data[..13], 6, size, false, "YUY2ToI420")),
        Some("source buffer too small")
    );
    // Even widths read nothing past the rows.
    assert!(check_yuy2_uyvy_src_overread(&data[..8], 4, ImageSize::new(2, 2), false, "YUY2ToI420").is_ok());
    // Coalesced rows read two extra bytes only when width * height is odd.
    assert_eq!(
        reason(check_yuy2_uyvy_src_overread(&data[..12], 6, ImageSize::new(3, 2), true, "YUY2ToARGB")),
        None
    );
    assert_eq!(
        reason(check_yuy2_uyvy_src_overread(&data[..6], 6, ImageSize::new(3, 1), true, "YUY2ToARGB")),
        Some("source buffer too small")
    );
    assert!(check_yuy2_uyvy_src_overread(&data[..8], 6, ImageSize::new(3, 1), true, "YUY2ToARGB").is_ok());
    // An empty image is left to libyuv.
    assert!(check_yuy2_uyvy_src_overread(&[], 6, ImageSize::new(3, 0), false, "YUY2ToI420").is_ok());
    let e = check_yuy2_uyvy_src_overread(&data, usize::MAX, size, false, "YUY2ToI420").unwrap_err();
    assert_eq!(e.reason(), Some("source buffer size overflow"));
}

#[test]
fn yuy2_odd_width_writes_past_the_last_row() {
    let size = ImageSize::new(3, 2);
    let data = vec![0u8; 14];
    assert!(check_yuy2_uyvy_dst_overwrite(&data, 6, size, "ARGBToYUY2").is_ok());
    assert_eq!(
        reason(check_yuy2_uyvy_dst_overwrite(&data[..13], 6, size, "ARGBToYUY2")),
        Some("destination buffer too small")
    );
    assert!(check_yuy2_uyvy_dst_overwrite(&data[..8], 4, ImageSize::new(2, 2), "ARGBToYUY2").is_ok());
}

#[test]
fn yuy2_conversions() {
    let size = ImageSize::new(3, 1);
    // Packed rows on both sides: coalesced, width * height odd, 8 bytes read.
    let data = vec![0u8; 8];
    let src = Yuy2Image { data: &data[..6], stride: 6 };
    let mut out = vec![0u8; 12];
    let dst = ArgbImageMut { data: &mut out, stride: 12 };
    assert_eq!(reason(validate_yuy2_to_argb(&src, &dst, size)), Some("source buffer too small"));
    let src = Yuy2Image { data: &data, stride: 6 };
    assert!(validate_yuy2_to_argb(&src, &dst, size).is_ok());
    let (mut y, mut u, mut v) = (vec![0u8; 3], vec![0u8; 2], vec![0u8; 2]);
    let dst = I420ImageMut { y: &mut y, y_stride: 3, u: &mut u, u_stride: 2, v: &mut v, v_stride: 2 };
    assert!(validate_yuy2_to_i420(&src, &dst, size).is_ok());
    let mut y_out = vec![0u8; 3];
    assert!(validate_yuy2_to_y(&src, &mut y_out, 3, size).is_ok());
    assert_eq!(reason(validate_yuy2_to_y(&src, &mut y_out, 2, size)), Some("destination stride smaller than width"));
    assert_eq!(reason(validate_yuy2_to_y(&src, &mut y_out[..2], 3, size)), Some("destination Y buffer too small"));
    let usrc = UyvyImage { data: &data, stride: 6 };
    assert!(validate_uyvy_to_y(&usrc, &mut y_out, 3, size).is_ok());
    let argb = vec![0u8; 12];
    let asrc = ArgbImage { data: &argb, stride: 12 };
    let mut packed = vec![0u8; 6];
    let pdst = Yuy2ImageMut { data: &mut packed, stride: 6 };
    assert_eq!(reason(validate_argb_to_yuy2(&asrc, &pdst, size)), Some("destination buffer too small"));
    let yy = vec![0u8; 3];
    let uv = vec![0u8; 2];
    let isrc = I420Image { y: &yy, y_stride: 3, u: &uv, u_stride: 2, v: &uv, v_stride: 2 };
    let mut uyvy = vec![0u8; 8];
    let udst = shiguredo_libyuv::UyvyImageMut { data: &mut uyvy, stride: 6 };
    assert!(validate_i420_to_uyvy(&isrc, &udst, size).is_ok());
}

#[test]
fn mjpeg_checks() {
    let jpeg = vec![0xffu8, 0xd8, 0xff];
    assert_eq!(reason(validate_mjpeg_input(&[], ImageSize::new(2, 2), "MJPGToI420")), Some("src is empty"));
    assert_eq!(reason(validate_mjpeg_input(&jpeg, ImageSize::new(0, 2), "MJPGToI420")), Some("size width/height is zero"));
    assert!(validate_mjpeg_input(&jpeg, ImageSize::new(2, 2), "MJPGToI420").is_ok());
    assert_eq!(reason(validate_mjpeg_size_input(&[])), Some("src is empty"));
    assert!(validate_mjpeg_size_input(&jpeg).is_ok());
    let (mut y, mut u, mut v) = (vec![0u8; 4], vec![0u8; 1], vec![0u8; 1]);
    let dst = I420ImageMut { y: &mut y, y_stride: 2, u: &mut u, u_stride: 1, v: &mut v, v_stride: 1 };
    assert!(validate_mjpeg_to_i420(&jpeg, &dst, ImageSize::new(2, 2)).is_ok());
}

#[test]
fn mjpeg_size_from_libyuv_result() {
    let s = mjpeg_size_from_decoded(0, 640, 480).unwrap();
    assert_eq!((s.width, s.height), (640, 480));
    let e = mjpeg_size_from_decoded(1, 640, 480).unwrap_err();
    assert_eq!(e.code(), 1);
    assert_eq!(e.reason(), None);
    let e = mjpeg_size_from_decoded(0, 0, 480).unwrap_err();
    assert_eq!(e.reason(), Some("decoded JPEG dimensions are non-positive"));
    let e = mjpeg_size_from_decoded(0, 640, -1).unwrap_err();
    assert_eq!(e.code(), -1);
}
