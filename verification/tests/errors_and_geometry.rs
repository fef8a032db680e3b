use shiguredo_libyuv::{Error, FilterMode, ImageSize, RotationMode, div_ceil, is_power_of_two};

#[test]
fn check_zero_status_is_ok() {
    assert!(Error::check(0, "I420ToARGB").is_ok());
}

#[test]
fn check_nonzero_status_keeps_code() {
    let e = Error::check(-1, "I420ToARGB").unwrap_err();
    assert_eq!(e.code(), -1);
    assert_eq!(e.function(), "I420ToARGB");
    assert_eq!(e.reason(), None);
    let e = Error::check(7, "NV12ToARGB").unwrap_err();
    assert_eq!(e.code(), 7);
}

#[test]
fn error_message_with_reason() {
    let e = Error::with_reason(-1, "I420ToARGB", "source Y buffer too small");
    assert_eq!(e.message(), "I420ToARGB() failed: code=-1, reason=source Y buffer too small");
}

#[test]
fn error_message_without_reason() {
    let e = Error::new(-123, "ARGBToI420", None);
    assert_eq!(e.message(), "ARGBToI420() failed: code=-123");
    let e = Error::new(2147483647, "X", None);
    assert_eq!(e.message(), "X() failed: code=2147483647");
    let e = Error::new(i32::MIN, "X", None);
    assert_eq!(e.message(), "X() failed: code=-2147483648");
    let e = Error::new(0, "X", None);
    assert_eq!(e.message(), "X() failed: code=0");
}

#[test]
fn image_size_new_keeps_dimensions() {
    let s = ImageSize::new(640, 480);
    assert_eq!(s.width, 640);
    assert_eq!(s.height, 480);
}

#[test]
fn rotation_output_size() {
    let s = ImageSize::new(640, 480);
    let r90 = RotationMode::Rotate90.output_size(s);
    assert_eq!((r90.width, r90.height), (480, 640));
    let r270 = RotationMode::Rotate270.output_size(s);
    assert_eq!((r270.width, r270.height), (480, 640));
    let r180 = RotationMode::Rotate180.output_size(s);
    assert_eq!((r180.width, r180.height), (640, 480));
    let r0 = RotationMode::Rotate0.output_size(s);
    assert_eq!((r0.width, r0.height), (640, 480));
}

#[test]
fn rotation_twice_gives_back_size() {
    let s = ImageSize::new(3, 7);
    for mode in [RotationMode::Rotate0, RotationMode::Rotate90, RotationMode::Rotate180, RotationMode::Rotate270] {
        let back = mode.output_size(mode.output_size(s));
        assert_eq!(back, s);
    }
}

#[test]
fn mode_values_match_libyuv() {
    assert_eq!(FilterMode::NoFilter.to_sys(), 0);
    assert_eq!(FilterMode::Linear.to_sys(), 1);
    assert_eq!(FilterMode::Bilinear.to_sys(), 2);
    assert_eq!(FilterMode::Box.to_sys(), 3);
    assert_eq!(RotationMode::Rotate0.to_sys(), 0);
    assert_eq!(RotationMode::Rotate90.to_sys(), 90);
    assert_eq!(RotationMode::Rotate180.to_sys(), 180);
    assert_eq!(RotationMode::Rotate270.to_sys(), 270);
}

#[test]
fn div_ceil_rounds_up() {
    assert_eq!(div_ceil(0, 2), 0);
    assert_eq!(div_ceil(7, 2), 4);
    assert_eq!(div_ceil(8, 2), 4);
    assert_eq!(div_ceil(17, 16), 2);
    assert_eq!(div_ceil(usize::MAX, 1), usize::MAX);
    assert_eq!(div_ceil(usize::MAX, 2), usize::MAX / 2 + 1);
}

#[test]
fn power_of_two_detection() {
    assert!(!is_power_of_two(0));
    assert!(is_power_of_two(1));
    assert!(is_power_of_two(2));
    assert!(!is_power_of_two(3));
    assert!(is_power_of_two(16));
    assert!(!is_power_of_two(24));
    assert!(is_power_of_two(1usize << 40));
}
