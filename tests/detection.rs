use fast_image::format::{starts_with, ImageType};
use fast_image::{validate_quality, CompressError};

#[test]
fn lib_test_image_type_detection() {
    let png_header = b"\x89PNG\r\n\x1a\n";
    assert!(matches!(ImageType::detect_type(png_header), Some(ImageType::PNG)));

    let jpeg_header = b"\xff\xd8\xff";
    assert!(matches!(ImageType::detect_type(jpeg_header), Some(ImageType::JPEG)));

    let unknown = b"unknown format";
    assert!(ImageType::detect_type(unknown).is_none());
}

#[test]
fn test_jni_compress_function_exists() {
    // The host entry point lives in the application crate; the library it calls is linked here.
    let entry: fn(&[u8], i32) -> Result<Vec<u8>, CompressError> = fast_image::compress_request;
    assert!(entry(b"", 50).is_err());
}

#[test]
fn test_quality_validation() {
    assert!(matches!(validate_quality(0), Ok(0)));
    assert!(matches!(validate_quality(50), Ok(50)));
    assert!(matches!(validate_quality(100), Ok(100)));
    assert!(matches!(validate_quality(-1), Err(CompressError::InvalidQuality(-1))));
    assert!(matches!(validate_quality(101), Err(CompressError::InvalidQuality(101))));
}

#[test]
fn test_function_naming() {
    let function_name = "Java_cn_lihongjie_image_FastImageUtils_compressNative";
    assert!(function_name.starts_with("Java_"));
    assert!(function_name.contains("FastImageUtils"));
    assert!(function_name.contains("compressNative"));
}

#[test]
fn short_buffers_are_unrecognised() {
    assert!(ImageType::detect_type(b"").is_none());
    assert!(ImageType::detect_type(b"\x89PNG\r\n\x1a").is_none());
    assert!(ImageType::detect_type(b"\xff").is_none());
}

#[test]
fn jpeg_marker_needs_only_two_bytes() {
    assert_eq!(ImageType::detect_type(b"\xff\xd8"), Some(ImageType::JPEG));
    assert_eq!(ImageType::detect_type(b"\xff\xd9\xff"), None);
}

#[test]
fn png_signature_with_trailing_bytes() {
    assert_eq!(ImageType::detect_type(b"\x89PNG\r\n\x1a\nIHDR"), Some(ImageType::PNG));
    assert_eq!(ImageType::detect_type(b"\x89PNG\r\n\x1a\x0b"), None);
}

#[test]
fn prefix_comparison() {
    assert!(starts_with(b"abcdef", b"abc"));
    assert!(starts_with(b"abc", b""));
    assert!(!starts_with(b"ab", b"abc"));
    assert!(!starts_with(b"abd", b"abc"));
}

#[test]
fn quality_bounds_are_inclusive() {
    assert!(matches!(validate_quality(i32::MIN), Err(CompressError::InvalidQuality(i32::MIN))));
    assert!(matches!(validate_quality(i32::MAX), Err(CompressError::InvalidQuality(i32::MAX))));
}
