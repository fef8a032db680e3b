//! The buffer layouts libyuv reads and writes, and the checks that make a
//! call into it safe: every image is validated against the size it is
//! processed at before libyuv touches it. The integer measures libyuv offers
//! for comparing images (sum of squared errors, DJB2 hash) are computed here.
//!
//! `safety` states what a successful validation guarantees; the other
//! modules follow the families of formats.

pub mod alpha;
pub mod android;
pub mod check_laws;
pub mod checks;
pub mod compare;
pub mod detile;
pub mod detile_laws;
pub mod error;
pub mod geometry;
pub mod layout;
pub mod mjpeg;
pub mod packed422;
pub mod packed_images;
pub mod packed_laws;
pub mod planar_images;
pub mod planar_laws;
pub mod safety;
pub mod semi_planar_images;
pub mod semi_planar_laws;
pub mod tiled;

pub use checks::{
    C_INT_MAX, checked_buf_size, checked_tile_row_size, checked_tiled_buf_size, div_ceil,
    is_power_of_two, require_c_int,
};
pub use alpha::{
    validate_alpha_dst, validate_alpha_src, validate_argb_to_i420_alpha,
    validate_i420_alpha_to_abgr, validate_i420_alpha_to_argb, validate_i422_alpha_to_abgr,
    validate_i422_alpha_to_argb, validate_i444_alpha_to_abgr, validate_i444_alpha_to_argb,
};
pub use android::{
    check_android420_pixel_stride, validate_android420_to_abgr, validate_android420_to_argb,
    validate_android420_to_i420,
};
pub use compare::{
    compute_sum_square_error, compute_sum_square_error_plane, hash_djb2, validate_calc_frame_psnr,
    validate_calc_frame_ssim, validate_compute_hamming_distance, validate_i420_psnr,
    validate_i420_ssim, validate_sum_square_error_to_psnr,
};
pub use detile::{
    check_detile_plane, validate_detile_plane, validate_detile_plane_16,
    validate_detile_split_uv_plane, validate_detile_to_yuy2,
};
pub use mjpeg::{
    mjpeg_size_from_decoded, validate_mjpeg_input, validate_mjpeg_size_input,
    validate_mjpeg_to_argb, validate_mjpeg_to_i420, validate_mjpeg_to_nv12, validate_mjpeg_to_nv21,
};
pub use packed422::{
    check_yuy2_uyvy_dst_overwrite, check_yuy2_uyvy_src_overread, validate_argb_to_uyvy,
    validate_argb_to_yuy2, validate_i420_to_uyvy, validate_i420_to_yuy2, validate_i422_to_uyvy,
    validate_i422_to_yuy2, validate_uyvy_to_argb, validate_uyvy_to_i420, validate_uyvy_to_i422,
    validate_uyvy_to_nv12, validate_uyvy_to_y, validate_yuy2_to_argb, validate_yuy2_to_i420,
    validate_yuy2_to_i422, validate_yuy2_to_nv12, validate_yuy2_to_y,
};
pub use error::Error;
pub use geometry::{
    FilterMode, ImageSize, RotationMode,
};
pub use layout::{
    Direction, Unit, check_luma, check_packed, check_planar2, check_planar3,
    validate_nv16_dst_inner, validate_nv16_src_inner, validate_nv_dst_inner, validate_nv_src_inner,
    validate_yuv16_dst_inner, validate_yuv16_src_inner, validate_yuv_dst_inner,
    validate_yuv_src_inner,
};
pub use packed_images::{
    Ab30Image, Ab30ImageMut, Ab64Image, Ab64ImageMut, AbgrImage, AbgrImageMut, Ar30Image,
    Ar30ImageMut, Ar64Image, Ar64ImageMut, Argb1555Image, Argb1555ImageMut, Argb4444Image,
    Argb4444ImageMut, ArgbImage, ArgbImageMut, AyuvImage, AyuvImageMut, BgraImage, BgraImageMut,
    I400Image, I400ImageMut, J400Image, J400ImageMut, RawImage, RawImageMut, Rgb24Image,
    Rgb24ImageMut, Rgb565Image, Rgb565ImageMut, RgbaImage, RgbaImageMut, UyvyImage, UyvyImageMut,
    Yuv24Image, Yuv24ImageMut, Yuy2Image, Yuy2ImageMut,
};
pub use planar_images::{
    Android420Image, Android420ImageMut, H010Image, H010ImageMut, H210Image, H210ImageMut,
    H420Image, H420ImageMut, H422Image, H422ImageMut, H444Image, H444ImageMut, I010Image,
    I010ImageMut, I012Image, I012ImageMut, I210Image, I210ImageMut, I212Image, I212ImageMut,
    I410Image, I410ImageMut, I412Image, I412ImageMut, I420Image, I420ImageMut, I422Image,
    I422ImageMut, I444Image, I444ImageMut, J420Image, J420ImageMut, J422Image, J422ImageMut,
    J444Image, J444ImageMut, U010Image, U010ImageMut, U210Image, U210ImageMut, U420Image,
    U420ImageMut, U422Image, U422ImageMut, U444Image, U444ImageMut,
};
pub use semi_planar_images::{
    Mm21Image, Mt2tImage, Nv12Image, Nv12ImageMut, Nv16Image, Nv16ImageMut, Nv21Image,
    Nv21ImageMut, Nv24Image, Nv24ImageMut, P010Image, P010ImageMut, P012Image, P012ImageMut,
    P210Image, P210ImageMut, P212Image, P212ImageMut, P410Image, P410ImageMut,
};
pub use tiled::validate_tiled_nv_src_inner;
