use shiguredo_libyuv::{
    Ar64Image, ArgbImage, ArgbImageMut, I400ImageMut, I420Image, I420ImageMut, I422Image, I444Image, ImageSize,
    Mm21Image, Mt2tImage, Nv12Image, Nv24ImageMut, P010Image, Rgb24Image, Yuy2Image, checked_tile_row_size,
    checked_tiled_buf_size, validate_tiled_nv_src_inner,
};

fn reason(r: Result<(), shiguredo_libyuv::Error>) -> Option<&'static str> {
    match r {
        Ok(()) => None,
        Err(e) => e.reason(),
    }
}

#[test]
fn i420_odd_size_rounds_chroma_up() {
    // 5x3: chroma is 3x2.
    let y = vec![0u8; 15];
    let u = vec![0u8; 6];
    let v = vec![0u8; 6];
    let img = I420Image { y: &y, y_stride: 5, u: &u, u_stride: 3, v: &v, v_stride: 3 };
    assert!(img.validate(ImageSize::new(5, 3), "I420ToARGB").is_ok());
    let short_v = vec![0u8; 5];
    let img = I420Image { y: &y, y_stride: 5, u: &u, u_stride: 3, v: &short_v, v_stride: 3 };
    assert_eq!(reason(img.validate(ImageSize::new(5, 3), "I420ToARGB")), Some("source V buffer too small"));
    let img = I420Image { y: &y, y_stride: 5, u: &u, u_stride: 2, v: &v, v_stride: 3 };
    assert_eq!(reason(img.validate(ImageSize::new(5, 3), "I420ToARGB")), Some("U stride smaller than chroma width"));
}

#[test]
fn i422_and_i444_chroma_heights() {
    let y = vec![0u8; 16];
    let u = vec![0u8; 8];
    let v = vec![0u8; 8];
    // 4:2:2 chroma is 2 wide and 4 high.
    let img = I422Image { y: &y, y_stride: 4, u: &u, u_stride: 2, v: &v, v_stride: 2 };
    assert!(img.validate(ImageSize::new(4, 4), "I422ToARGB").is_ok());
    // 4:4:4 chroma is full size: 8 bytes are too few.
    let img = I444Image { y: &y, y_stride: 4, u: &u, u_stride: 4, v: &v, v_stride: 4 };
    assert_eq!(reason(img.validate(ImageSize::new(4, 4), "I444ToARGB")), Some("source U buffer too small"));
}

#[test]
fn destination_errors_name_the_destination() {
    let mut y = vec![0u8; 63];
    let mut u = vec![0u8; 16];
    let mut v = vec![0u8; 16];
    let img = I420ImageMut { y: &mut y, y_stride: 8, u: &mut u, u_stride: 4, v: &mut v, v_stride: 4 };
    let e = img.validate(ImageSize::new(8, 8), "ARGBToI420").unwrap_err();
    assert_eq!(e.code(), -1);
    assert_eq!(e.function(), "ARGBToI420");
    assert_eq!(e.reason(), Some("destination Y buffer too small"));
    assert_eq!(reason(img.as_ref().validate(ImageSize::new(8, 8), "ARGBToI420")), Some("source Y buffer too small"));
}

#[test]
fn as_ref_keeps_planes_and_strides() {
    let mut y = vec![1u8; 4];
    let mut u = vec![2u8; 1];
    let mut v = vec![3u8; 1];
    let img = I420ImageMut { y: &mut y, y_stride: 2, u: &mut u, u_stride: 1, v: &mut v, v_stride: 1 };
    let r = img.as_ref();
    assert_eq!(r.y, &[1u8, 1, 1, 1][..]);
    assert_eq!(r.u, &[2u8][..]);
    assert_eq!(r.v, &[3u8][..]);
    assert_eq!((r.y_stride, r.u_stride, r.v_stride), (2, 1, 1));
}

#[test]
fn values_beyond_c_int_are_refused() {
    let y = vec![0u8; 4];
    let img = I420Image { y: &y, y_stride: 2, u: &y, u_stride: 1, v: &y, v_stride: 1 };
    let big = i32::MAX as usize + 1;
    assert_eq!(reason(img.validate(ImageSize::new(big, 1), "F")), Some("width exceeds c_int range"));
    assert_eq!(reason(img.validate(ImageSize::new(1, big), "F")), Some("height exceeds c_int range"));
    let img = I420Image { y: &y, y_stride: big, u: &y, u_stride: 1, v: &y, v_stride: 1 };
    assert_eq!(reason(img.validate(ImageSize::new(1, 1), "F")), Some("Y stride exceeds c_int range"));
}

#[test]
fn empty_image_needs_no_bytes() {
    let empty: Vec<u8> = Vec::new();
    let img = I420Image { y: &empty, y_stride: 0, u: &empty, u_stride: 0, v: &empty, v_stride: 0 };
    assert!(img.validate(ImageSize::new(0, 0), "I420Copy").is_ok());
}

#[test]
fn nv12_interleaved_chroma_row() {
    // 5 wide: an interleaved chroma row is 2 * 3 = 6 bytes.
    let y = vec![0u8; 10];
    let uv = vec![0u8; 6];
    let img = Nv12Image { y: &y, y_stride: 5, uv: &uv, uv_stride: 5 };
    assert_eq!(reason(img.validate(ImageSize::new(5, 2), "NV12ToARGB")), Some("UV stride smaller than chroma width"));
    let img = Nv12Image { y: &y, y_stride: 5, uv: &uv, uv_stride: 6 };
    assert!(img.validate(ImageSize::new(5, 2), "NV12ToARGB").is_ok());
    let mut y2 = vec![0u8; 4];
    let mut uv2 = vec![0u8; 7];
    let img = Nv24ImageMut { y: &mut y2, y_stride: 2, uv: &mut uv2, uv_stride: 4 };
    assert_eq!(reason(img.validate(ImageSize::new(2, 2), "NV12ToNV24")), Some("destination UV buffer too small"));
}

#[test]
fn packed_stride_covers_pixel_width() {
    let data = vec![0u8; 24];
    let img = ArgbImage { data: &data, stride: 7 };
    assert_eq!(reason(img.validate(ImageSize::new(2, 3), "ARGBCopy")), Some("stride smaller than width * bpp"));
    let img = ArgbImage { data: &data, stride: 8 };
    assert!(img.validate(ImageSize::new(2, 3), "ARGBCopy").is_ok());
    let img = Rgb24Image { data: &data, stride: 6 };
    assert!(img.validate(ImageSize::new(2, 4), "RGB24ToARGB").is_ok());
    let img = Rgb24Image { data: &data, stride: 6 };
    assert_eq!(reason(img.validate(ImageSize::new(2, 5), "RGB24ToARGB")), Some("source buffer too small"));
    let mut out = vec![0u8; 8];
    let img = ArgbImageMut { data: &mut out, stride: 8 };
    assert_eq!(reason(img.validate(ImageSize::new(2, 2), "X")), Some("destination buffer too small"));
    let huge = ArgbImage { data: &data, stride: 8 };
    assert_eq!(reason(huge.validate(ImageSize::new(usize::MAX / 2, 1), "X")), Some("width exceeds c_int range"));
}

#[test]
fn sixteen_bit_images_count_elements() {
    let y = vec![0u16; 16];
    let uv = vec![0u16; 8];
    let img = P010Image { y: &y, y_stride: 4, uv: &uv, uv_stride: 4 };
    assert!(img.validate(ImageSize::new(4, 4), "P010ToARGB").is_ok());
    let data = vec![0u16; 16];
    let img = Ar64Image { data: &data, stride: 7 };
    assert_eq!(reason(img.validate(ImageSize::new(2, 2), "AR64ToARGB")), Some("stride smaller than width * epp"));
    let img = Ar64Image { data: &data, stride: 8 };
    assert!(img.validate(ImageSize::new(2, 2), "AR64ToARGB").is_ok());
}

#[test]
fn luma_only_image() {
    let mut y = vec![0u8; 11];
    let img = I400ImageMut { y: &mut y, y_stride: 4, };
    assert_eq!(reason(img.validate(ImageSize::new(3, 3), "ARGBToI400")), Some("destination Y buffer too small"));
    assert_eq!(reason(img.validate(ImageSize::new(5, 1), "ARGBToI400")), Some("Y stride smaller than width"));
    assert!(img.validate(ImageSize::new(4, 2), "ARGBToI400").is_ok());
}

#[test]
fn yuy2_is_two_bytes_per_pixel() {
    let data = vec![0u8; 8];
    let img = Yuy2Image { data: &data, stride: 4 };
    assert!(img.validate(ImageSize::new(2, 2), "YUY2ToARGB").is_ok());
}

#[test]
fn tile_row_sizes() {
    assert_eq!(checked_tile_row_size(32, 32, false, "MM21ToI420").unwrap(), 1024);
    assert_eq!(checked_tile_row_size(32, 32, true, "MT2TToP010").unwrap(), 1280);
    let e = checked_tile_row_size(usize::MAX, 2, false, "MM21ToI420").unwrap_err();
    assert_eq!(e.reason(), Some("tile row size overflow"));
    let e = checked_tile_row_size(usize::MAX / 4, 2, true, "MT2TToP010").unwrap_err();
    assert_eq!(e.reason(), Some("tile row size overflow"));
}

#[test]
fn tiled_buffer_sizes() {
    assert_eq!(checked_tiled_buf_size(1, 64, 32, 1024, "F").unwrap(), 1024);
    assert_eq!(checked_tiled_buf_size(2, 64, 32, 1024, "F").unwrap(), 64 * 32 + 1024);
    let e = checked_tiled_buf_size(2, usize::MAX, 32, 0, "F").unwrap_err();
    assert_eq!(e.reason(), Some("tiled buffer size overflow"));
}

#[test]
fn mm21_tiled_requirement() {
    // 20x40: padded width 32, two rows of tiles.
    // Y: 1 * 32 * 32 + 32 * 32 = 2048 bytes, UV: 1 * 32 * 16 + 32 * 16 = 1024 bytes.
    let size = ImageSize::new(20, 40);
    let y = vec![0u8; 2048];
    let uv = vec![0u8; 1024];
    let img = Mm21Image { y: &y, y_stride: 32, uv: &uv, uv_stride: 32 };
    assert!(img.validate(size, "MM21ToI420").is_ok());
    let img = Mm21Image { y: &y[..2047], y_stride: 32, uv: &uv, uv_stride: 32 };
    assert_eq!(reason(img.validate(size, "MM21ToI420")), Some("source Y buffer too small"));
    let img = Mm21Image { y: &y, y_stride: 32, uv: &uv[..1023], uv_stride: 32 };
    assert_eq!(reason(img.validate(size, "MM21ToI420")), Some("source UV buffer too small"));
    let img = Mm21Image { y: &y, y_stride: 32, uv: &uv, uv_stride: 32 };
    assert_eq!(reason(img.validate(ImageSize::new(0, 40), "MM21ToI420")), Some("width and height must be greater than 0"));
}

#[test]
fn mt2t_reads_ten_eighths() {
    // 16x32 at 10 bits: one row of tiles, Y 16 * 32 * 10 / 8 = 640 bytes, UV 320 bytes.
    let size = ImageSize::new(16, 32);
    let y = vec![0u8; 640];
    let uv = vec![0u8; 320];
    let img = Mt2tImage { y: &y, y_stride: 20, uv: &uv, uv_stride: 20 };
    assert!(img.validate(size, "MT2TToP010").is_ok());
    let img = Mt2tImage { y: &y[..639], y_stride: 20, uv: &uv, uv_stride: 20 };
    assert_eq!(reason(img.validate(size, "MT2TToP010")), Some("source Y buffer too small"));
    assert!(validate_tiled_nv_src_inner(&y, 20, &uv, 20, size, "MT2TToP010", true).is_ok());
    assert!(validate_tiled_nv_src_inner(&y, 20, &uv, 20, size, "MM21ToI420", false).is_ok());
    assert_eq!(
        reason(validate_tiled_nv_src_inner(&y, 15, &uv, 20, size, "MT2TToP010", true)),
        Some("Y stride smaller than width")
    );
}
