use gimg::error::AppError;
use gimg::format::ImageFormat;
use gimg::decimal::parse_decimal;
use gimg::text::{decimal_string, parse_bool, parse_i32, parse_u32, split_by};
use gimg::validation::{parse_crop_ratio, parse_region, validate_upload, MAX_UPLOAD_SIZE};

#[test]
fn parse_u32_reads_plain_and_signed_numbers() {
    assert_eq!(parse_u32("0"), Some(0));
    assert_eq!(parse_u32("200"), Some(200));
    assert_eq!(parse_u32("+7"), Some(7));
    assert_eq!(parse_u32("4294967295"), Some(u32::MAX));
    assert_eq!(parse_u32("4294967296"), None);
    assert_eq!(parse_u32(""), None);
    assert_eq!(parse_u32("+"), None);
    assert_eq!(parse_u32("-1"), None);
    assert_eq!(parse_u32("12a"), None);
    assert_eq!(parse_u32(" 1"), None);
}

#[test]
fn parse_i32_reads_negative_numbers() {
    assert_eq!(parse_i32("-90"), Some(-90));
    assert_eq!(parse_i32("270"), Some(270));
    assert_eq!(parse_i32("+45"), Some(45));
    assert_eq!(parse_i32("-2147483648"), Some(i32::MIN));
    assert_eq!(parse_i32("2147483648"), None);
    assert_eq!(parse_i32("-"), None);
    assert_eq!(parse_i32("90.5"), None);
}

#[test]
fn parse_bool_accepts_only_exact_words() {
    assert_eq!(parse_bool("true"), Some(true));
    assert_eq!(parse_bool("false"), Some(false));
    assert_eq!(parse_bool("True"), None);
    assert_eq!(parse_bool("1"), None);
}

#[test]
fn split_by_keeps_empty_pieces() {
    assert_eq!(split_by("a:b", ':'), vec!["a", "b"]);
    assert_eq!(split_by("", ':'), vec![""]);
    assert_eq!(split_by(":x:", ':'), vec!["", "x", ""]);
    assert_eq!(split_by("a/b/c.png", '/'), vec!["a", "b", "c.png"]);
}

#[test]
fn decimal_string_renders_numbers() {
    assert_eq!(decimal_string(0), "0");
    assert_eq!(decimal_string(400), "400");
    assert_eq!(decimal_string(u64::MAX), "18446744073709551615");
}

#[test]
fn sniffs_every_supported_signature() {
    assert_eq!(ImageFormat::from_magic_bytes(&[0xFF, 0xD8, 0xFF, 0xE0]), Some(ImageFormat::Jpeg));
    assert_eq!(
        ImageFormat::from_magic_bytes(&[0x89, 0x50, 0x4E, 0x47, 0x0D, 0x0A, 0x1A, 0x0A]),
        Some(ImageFormat::Png)
    );
    assert_eq!(ImageFormat::from_magic_bytes(b"RIFF\x10\x00\x00\x00WEBPVP8 "), Some(ImageFormat::Webp));
    assert_eq!(ImageFormat::from_magic_bytes(b"BM\x00\x00"), Some(ImageFormat::Bmp));
    assert_eq!(ImageFormat::from_magic_bytes(b"II*\x00"), Some(ImageFormat::Tiff));
    assert_eq!(ImageFormat::from_magic_bytes(b"MM\x00*"), Some(ImageFormat::Tiff));
    assert_eq!(ImageFormat::from_magic_bytes(b"GIF89a"), Some(ImageFormat::Gif));
}

#[test]
fn sniffing_rejects_short_and_unknown_input() {
    assert_eq!(ImageFormat::from_magic_bytes(&[0xFF, 0xD8, 0xFF]), None);
    assert_eq!(ImageFormat::from_magic_bytes(&[]), None);
    assert_eq!(ImageFormat::from_magic_bytes(b"RIFF\x10\x00\x00\x00WAVE"), None);
    assert_eq!(ImageFormat::from_magic_bytes(b"RIFF"), None);
    assert_eq!(ImageFormat::from_magic_bytes(b"hello world"), None);
}

#[test]
fn extensions_and_mime_types() {
    assert_eq!(ImageFormat::Jpeg.extension(), "jpg");
    assert_eq!(ImageFormat::Tiff.extension(), "tiff");
    assert_eq!(ImageFormat::Webp.mime_type(), "image/webp");
    assert_eq!(ImageFormat::Png.mime_type(), "image/png");
    assert_eq!(ImageFormat::Gif.mime_type(), "image/gif");
}

#[test]
fn format_names_ignore_case() {
    assert_eq!(ImageFormat::from_name("JPG").ok(), Some(ImageFormat::Jpeg));
    assert_eq!(ImageFormat::from_name("jpeg").ok(), Some(ImageFormat::Jpeg));
    assert_eq!(ImageFormat::from_name("Tif").ok(), Some(ImageFormat::Tiff));
    assert_eq!(ImageFormat::from_name("png").ok(), Some(ImageFormat::Png));
    assert_eq!("WebP".parse::<ImageFormat>().ok(), Some(ImageFormat::Webp));
    assert_eq!(ImageFormat::from_name("gif").ok(), Some(ImageFormat::Gif));
    assert_eq!(ImageFormat::from_name("bmp").ok(), Some(ImageFormat::Bmp));
}

#[test]
fn unknown_format_name_is_unsupported() {
    assert!(matches!(ImageFormat::from_name("foo"), Err(AppError::UnsupportedImageFormat)));
    assert!(matches!(ImageFormat::from_name(""), Err(AppError::UnsupportedImageFormat)));
    assert!(matches!(ImageFormat::from_name("pngg"), Err(AppError::UnsupportedImageFormat)));
}

#[test]
fn oversized_upload_is_too_large() {
    let mut data = vec![0u8; MAX_UPLOAD_SIZE + 1];
    data[0] = 0x89;
    data[1] = 0x50;
    data[2] = 0x4E;
    data[3] = 0x47;
    assert!(matches!(validate_upload(&data), Err(AppError::FileTooLarge)));
    let exact = &data[..MAX_UPLOAD_SIZE];
    assert_eq!(validate_upload(exact).ok(), Some(ImageFormat::Png));
    assert_eq!(MAX_UPLOAD_SIZE, 20 * 1024 * 1024);
}

#[test]
fn unknown_upload_is_unsupported() {
    assert!(matches!(validate_upload(b"plain text"), Err(AppError::UnsupportedImageFormat)));
    assert!(matches!(validate_upload(b""), Err(AppError::UnsupportedImageFormat)));
}

#[test]
fn crop_ratio_parsing() {
    assert_eq!(parse_crop_ratio("16:9").ok(), Some((16, 9)));
    assert_eq!(parse_crop_ratio("1:1").ok(), Some((1, 1)));
    assert!(matches!(parse_crop_ratio("0:1"), Err(AppError::InvalidFieldValue(_))));
    assert!(matches!(parse_crop_ratio("4:0"), Err(AppError::InvalidFieldValue(_))));
    assert!(matches!(parse_crop_ratio("a:b"), Err(AppError::InvalidFieldValue(_))));
    assert!(matches!(parse_crop_ratio("1:2:3"), Err(AppError::InvalidFieldValue(_))));
    assert!(matches!(parse_crop_ratio("16x9"), Err(AppError::InvalidFieldValue(_))));
}

#[test]
fn region_parsing() {
    assert_eq!(parse_region("10,20,30,40").ok(), Some((10, 20, 30, 40)));
    assert_eq!(parse_region("0,0,1,1").ok(), Some((0, 0, 1, 1)));
    assert!(matches!(parse_region("10,20,0,40"), Err(AppError::InvalidFieldValue(_))));
    assert!(matches!(parse_region("10,20,30"), Err(AppError::InvalidFieldValue(_))));
    assert!(matches!(parse_region("x,20,30,40"), Err(AppError::InvalidFieldValue(_))));
    assert!(matches!(parse_region("1,2,3,-4"), Err(AppError::InvalidFieldValue(_))));
}

#[test]
fn error_status_and_messages() {
    assert_eq!(AppError::UnsupportedImageFormat.status_code(), 415);
    assert_eq!(AppError::InvalidImageFormat.status_code(), 415);
    assert_eq!(AppError::FileTooLarge.status_code(), 413);
    assert_eq!(AppError::MissingField("file".to_string()).status_code(), 400);
    assert_eq!(AppError::InvalidFieldValue("x".to_string()).status_code(), 400);
    assert_eq!(AppError::ImageProcessingError("x".to_string()).status_code(), 500);
    assert_eq!(AppError::IoError("x".to_string()).status_code(), 500);
    assert_eq!(AppError::NotImplemented.status_code(), 501);
    assert_eq!(AppError::MissingField("file".to_string()).message(), "Missing required field: file");
    assert_eq!(AppError::FileTooLarge.message(), "File too large (max 20MB)");
    assert_eq!(AppError::IoError("disk".to_string()).message(), "IO error: disk");
    assert_eq!(AppError::NotImplemented.message(), "Not implemented");
}

#[test]
fn parse_decimal_reads_float_forms() {
    assert_eq!(parse_decimal("50"), Some((false, 50, 0)));
    assert_eq!(parse_decimal("+50"), Some((false, 50, 0)));
    assert_eq!(parse_decimal("12.5"), Some((false, 125, -1)));
    assert_eq!(parse_decimal(".25"), Some((false, 25, -2)));
    assert_eq!(parse_decimal("5."), Some((false, 5, 0)));
    assert_eq!(parse_decimal("-0.5"), Some((true, 5, -1)));
    assert_eq!(parse_decimal("1e2"), Some((false, 1, 2)));
    assert_eq!(parse_decimal("1e-1"), Some((false, 1, -1)));
    assert_eq!(parse_decimal("9E+1"), Some((false, 9, 1)));
    assert_eq!(parse_decimal("2.5e-3"), Some((false, 25, -4)));
    assert_eq!(parse_decimal("0.0000000001"), Some((false, 1, -10)));
    assert_eq!(parse_decimal("."), None);
    assert_eq!(parse_decimal(""), None);
    assert_eq!(parse_decimal("1.2.3"), None);
    assert_eq!(parse_decimal("e5"), None);
    assert_eq!(parse_decimal("1e"), None);
    assert_eq!(parse_decimal("1e2e3"), None);
    assert_eq!(parse_decimal("--5"), None);
    assert_eq!(parse_decimal("inf"), None);
    assert_eq!(parse_decimal("nan"), None);
}
