use gimg::color::parse_color;
use gimg::engine::{convert_image, encode_image, load_upload};
use gimg::error::AppError;
use gimg::format::ImageFormat;
use gimg::info::{format_file_size, get_image_info, get_tools, ColorMode};
use gimg::pipeline::{
    blur_face_upload, compress_upload, crop_upload, describe_upload, edit_upload, reencode_upload,
    resize_upload, rotate_upload, upscale_upload, watermark_upload,
};
use gimg::plan::Step;
use gimg::resolve::{BlurFaceFields, CropFields, EditFields, ResizeFields, RotateFields, UpscaleFields};
use image::DynamicImage;
use std::io::Cursor;

fn encoded(img: DynamicImage, format: image::ImageFormat) -> Vec<u8> {
    let mut buf = Cursor::new(Vec::new());
    img.write_to(&mut buf, format).unwrap();
    buf.into_inner()
}

fn sample_png(width: u32, height: u32) -> Vec<u8> {
    let img = image::RgbImage::from_fn(width, height, |x, y| image::Rgb([(x % 256) as u8, (y % 256) as u8, 7]));
    encoded(DynamicImage::ImageRgb8(img), image::ImageFormat::Png)
}

fn size_of(bytes: &[u8]) -> (u32, u32) {
    let img = image::load_from_memory(bytes).unwrap();
    (img.width(), img.height())
}

fn filters(img: DynamicImage, step: Step) -> DynamicImage {
    match step {
        Step::Blur { sigma_tenths } => img.blur(sigma_tenths as f32 / 10.0),
        _ => img.unsharpen(1.0, 1),
    }
}

fn no_edit() -> EditFields {
    EditFields {
        brightness: None,
        contrast: None,
        saturation: None,
        sharpness: None,
        filter: None,
        border: None,
        border_color: None,
        flip: None,
        auto_enhance: None,
        thumbnail: None,
    }
}

fn s(v: &str) -> Option<String> {
    Some(v.to_string())
}

#[test]
fn info_dimensions_match_independent_decode() {
    let bytes = sample_png(40, 30);
    let info = describe_upload(&bytes, "photos/cat.png").unwrap();
    assert_eq!((info.width, info.height), size_of(&bytes));
    assert_eq!(info.dimensions, "40x30");
    assert_eq!(info.file, "cat.png");
    assert_eq!(info.format, "PNG");
    assert_eq!(info.mode, "RGB");
    assert_eq!(info.file_size, bytes.len() as u64);
    assert_eq!(info.file_size_human, format_file_size(bytes.len() as u64));
    let named_wrong = describe_upload(&bytes, "photo.jpg").unwrap();
    assert_eq!(named_wrong.format, "PNG");
}

#[test]
fn info_labels() {
    let info = get_image_info(1, 2, ColorMode::GrayAlpha, ImageFormat::Tiff, "scan.tif", 1536);
    assert_eq!(info.format, "TIFF");
    assert_eq!(info.mode, "LA");
    assert_eq!(info.file, "scan.tif");
    assert_eq!(info.dimensions, "1x2");
    assert_eq!(info.file_size_human, "1.5 KB");
    let info = get_image_info(1, 2, ColorMode::Other, ImageFormat::Gif, "noext", 0);
    assert_eq!(info.format, "GIF");
    assert_eq!(info.mode, "Unknown");
    assert_eq!(get_image_info(1, 1, ColorMode::Rgba, ImageFormat::Jpeg, "a.png", 1).format, "JPEG");
}

#[test]
fn file_sizes_for_people() {
    assert_eq!(format_file_size(0), "0 B");
    assert_eq!(format_file_size(1023), "1023 B");
    assert_eq!(format_file_size(1024), "1.0 KB");
    assert_eq!(format_file_size(1536), "1.5 KB");
    assert_eq!(format_file_size(20 * 1024 * 1024), "20.0 MB");
    assert_eq!(format_file_size(1073741824), "1.0 GB");
    assert_eq!(format_file_size(5 * 1073741824 + 1073741824 / 2), "5.5 GB");
}

#[test]
fn tools_are_listed() {
    let tools = get_tools();
    assert_eq!(tools.len(), 14);
    assert_eq!(tools[0].name, "compress");
    assert_eq!(tools[13].name, "html-to-img");
}

#[test]
fn colors_by_name_and_code() {
    assert_eq!(parse_color("white").ok(), Some((255, 255, 255, 255)));
    assert_eq!(parse_color("Magenta").ok(), Some((255, 0, 255, 255)));
    assert_eq!(parse_color("#1a2B3c").ok(), Some((0x1a, 0x2b, 0x3c, 255)));
    assert!(matches!(parse_color("#12345g"), Err(AppError::InvalidFieldValue(_))));
    assert!(matches!(parse_color("#12345"), Err(AppError::InvalidFieldValue(_))));
    assert!(matches!(parse_color("purple"), Err(AppError::InvalidFieldValue(_))));
}

#[test]
fn convert_to_png_is_sniffed_as_png() {
    let img = image::RgbImage::from_fn(8, 6, |x, _| image::Rgb([x as u8 * 20, 0, 0]));
    let bmp = encoded(DynamicImage::ImageRgb8(img), image::ImageFormat::Bmp);
    let (format, out) = convert_image(&bmp, &s("PNG")).unwrap();
    assert_eq!(format, ImageFormat::Png);
    assert_eq!(ImageFormat::from_magic_bytes(&out), Some(ImageFormat::Png));
    assert_ne!(out, bmp);
    assert_eq!(size_of(&out), (8, 6));
}

#[test]
fn convert_with_unknown_format_is_unsupported() {
    let bytes = sample_png(4, 4);
    assert!(matches!(convert_image(&bytes, &s("foo")), Err(AppError::UnsupportedImageFormat)));
    assert!(matches!(convert_image(&bytes, &None), Err(AppError::MissingField(_))));
}

#[test]
fn broken_upload_is_a_processing_error() {
    let mut bytes = sample_png(4, 4);
    bytes.truncate(20);
    assert!(matches!(load_upload(&bytes), Err(AppError::ImageProcessingError(_))));
    assert!(matches!(reencode_upload(&bytes), Err(AppError::ImageProcessingError(_))));
}

#[test]
fn oversized_upload_is_refused_before_decoding() {
    let mut data = sample_png(4, 4);
    data.resize(20 * 1024 * 1024 + 1, 0);
    assert!(matches!(load_upload(&data), Err(AppError::FileTooLarge)));
    assert!(matches!(convert_image(&data, &s("png")), Err(AppError::FileTooLarge)));
    assert!(matches!(reencode_upload(&data), Err(AppError::FileTooLarge)));
    assert!(matches!(describe_upload(&data, "x.png"), Err(AppError::FileTooLarge)));
}

#[test]
fn resize_upload_produces_planned_size() {
    let bytes = sample_png(400, 300);
    let out = resize_upload(&bytes, &ResizeFields { width: s("200"), height: None, percentage: None, max_size: None }).unwrap();
    assert_eq!(size_of(&out), (200, 150));
    let out = resize_upload(&bytes, &ResizeFields { width: None, height: None, percentage: s("50"), max_size: None }).unwrap();
    assert_eq!(size_of(&out), (200, 150));
}

#[test]
fn crop_upload_by_ratio_and_bounds() {
    let bytes = sample_png(400, 300);
    let f = CropFields { x: None, y: None, width: None, height: None, ratio: s("1:1") };
    let out = crop_upload(&bytes, &f).unwrap();
    assert_eq!(size_of(&out), (300, 300));
    let px = image::load_from_memory(&out).unwrap().to_rgb8();
    assert_eq!(px.get_pixel(0, 0)[0], 50);
    let f = CropFields { x: s("390"), y: s("0"), width: s("50"), height: s("50"), ratio: None };
    assert!(matches!(crop_upload(&bytes, &f), Err(AppError::InvalidFieldValue(_))));
}

#[test]
fn rotate_quarter_turn_swaps_sides() {
    let bytes = sample_png(40, 30);
    let out = rotate_upload(&bytes, &RotateFields { degrees: s("90"), auto: None }).unwrap();
    assert_eq!(size_of(&out), (30, 40));
    let out = rotate_upload(&bytes, &RotateFields { degrees: s("45"), auto: None }).unwrap();
    assert_eq!(out, reencode_upload(&bytes).unwrap());
    assert!(matches!(rotate_upload(&bytes, &RotateFields { degrees: None, auto: None }), Err(AppError::MissingField(_))));
}

#[test]
fn empty_edit_reencodes_identically() {
    let bytes = sample_png(20, 10);
    let edited = edit_upload(&bytes, &no_edit(), &filters).unwrap();
    assert_eq!(edited, reencode_upload(&bytes).unwrap());
    let (_, img) = load_upload(&bytes).unwrap();
    assert_eq!(edited, encode_image(&img, ImageFormat::Png).unwrap());
}

#[test]
fn edit_applies_thumbnail_and_filters() {
    let bytes = sample_png(40, 30);
    let mut f = no_edit();
    f.brightness = s("0.04");
    f.filter = s("invert");
    f.flip = s("vertical");
    f.thumbnail = s("20");
    assert_eq!(size_of(&edit_upload(&bytes, &f, &filters).unwrap()), (20, 15));
    let mut f = no_edit();
    f.filter = s("blur");
    let out = edit_upload(&bytes, &f, &filters).unwrap();
    assert_eq!(size_of(&out), (40, 30));
    assert_ne!(out, reencode_upload(&bytes).unwrap());
    let mut f = no_edit();
    f.filter = s("invert");
    let out = image::load_from_memory(&edit_upload(&bytes, &f, &filters).unwrap()).unwrap().to_rgba8();
    assert_eq!(out.get_pixel(3, 2).0, [252, 253, 248, 255]);
}

#[test]
fn upscale_doubles_by_default() {
    let bytes = sample_png(10, 8);
    let out = upscale_upload(&bytes, &UpscaleFields { scale: None, sharpen: None }, &filters).unwrap();
    assert_eq!(size_of(&out), (20, 16));
    let out = upscale_upload(&bytes, &UpscaleFields { scale: s("3"), sharpen: s("false") }, &filters).unwrap();
    assert_eq!(size_of(&out), (30, 24));
}

#[test]
fn blur_face_checks_region_first() {
    let bytes = sample_png(10, 8);
    let f = BlurFaceFields { strength: None, region: s("1,1,0,1") };
    assert!(matches!(blur_face_upload(&bytes, &f, &filters), Err(AppError::InvalidFieldValue(_))));
    let f = BlurFaceFields { strength: s("10"), region: None };
    assert_eq!(size_of(&blur_face_upload(&bytes, &f, &filters).unwrap()), (10, 8));
}

#[test]
fn watermark_requires_text() {
    let bytes = sample_png(10, 8);
    assert!(matches!(watermark_upload(&bytes, &None), Err(AppError::MissingField(_))));
    assert_eq!(watermark_upload(&bytes, &s("hi")).unwrap(), reencode_upload(&bytes).unwrap());
}

#[test]
fn compress_flattens_alpha_to_jpeg() {
    let img = image::RgbaImage::from_fn(6, 4, |x, _| image::Rgba([x as u8 * 30, 10, 20, 128]));
    let png = encoded(DynamicImage::ImageRgba8(img), image::ImageFormat::Png);
    let out = compress_upload(&png, &s("50")).unwrap();
    assert_eq!(ImageFormat::from_magic_bytes(&out), Some(ImageFormat::Jpeg));
    let back = image::load_from_memory(&out).unwrap();
    assert!(!back.color().has_alpha());
    assert_eq!((back.width(), back.height()), (6, 4));
}

#[test]
fn oversized_resize_is_refused() {
    let bytes = sample_png(4, 4);
    let f = ResizeFields { width: s("100000000"), height: s("1"), percentage: None, max_size: None };
    assert!(matches!(resize_upload(&bytes, &f), Err(AppError::InvalidFieldValue(_))));
    assert!(gimg::plan::fits_limits(&vec![Step::Resize { width: 1 << 26, height: 1 }]));
    assert!(!gimg::plan::fits_limits(&vec![Step::Rotate90, Step::Resize { width: (1 << 26) + 1, height: 1 }]));
}

#[test]
fn convert_and_compress_name_their_format() {
    let bytes = sample_png(6, 4);
    match convert_image(&bytes, &None) {
        Err(AppError::MissingField(n)) => assert_eq!(n, "format"),
        _ => panic!("expected a missing field"),
    }
    let (format, out) = convert_image(&bytes, &s("jpeg")).unwrap();
    assert_eq!(format, ImageFormat::Jpeg);
    assert_eq!(ImageFormat::from_magic_bytes(&out), Some(ImageFormat::Jpeg));
    assert!(matches!(compress_upload(&bytes, &s("high")), Err(AppError::InvalidFieldValue(_))));
    assert!(matches!(resize_upload(&bytes, &ResizeFields { width: s("abc"), height: None, percentage: None, max_size: None }), Err(AppError::InvalidFieldValue(_))));
}

#[test]
fn huge_brightness_is_safe() {
    let bytes = sample_png(6, 4);
    let mut f = no_edit();
    f.brightness = s("10000000");
    let out = image::load_from_memory(&edit_upload(&bytes, &f, &filters).unwrap()).unwrap().to_rgb8();
    assert_eq!(out.get_pixel(0, 0).0, [255, 255, 255]);
}

#[test]
fn color_names_fold_the_kelvin_sign() {
    assert_eq!(parse_color("blac\u{212A}").ok(), Some((0, 0, 0, 255)));
    assert_eq!(parse_color("BLACK").ok(), Some((0, 0, 0, 255)));
}

#[test]
fn every_conversion_is_sniffed_as_its_format() {
    let bytes = sample_png(6, 4);
    for name in ["png", "jpg", "bmp", "gif", "tiff", "webp"] {
        let (format, out) = convert_image(&bytes, &s(name)).unwrap();
        assert_eq!(ImageFormat::from_magic_bytes(&out), Some(format));
        assert_eq!(size_of(&out), (6, 4));
    }
}

#[test]
fn pipeline_results_decode_to_planned_size() {
    let bytes = sample_png(40, 30);
    let out = crop_upload(&bytes, &CropFields { x: s("10"), y: s("5"), width: s("20"), height: None, ratio: None }).unwrap();
    assert_eq!(size_of(&out), (20, 25));
    let out = compress_upload(&bytes, &None).unwrap();
    assert_eq!(size_of(&out), (40, 30));
    let out = rotate_upload(&bytes, &RotateFields { degrees: s("-9e1"), auto: None }).unwrap();
    assert_eq!(size_of(&out), (30, 40));
}
