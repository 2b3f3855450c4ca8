use gimg::error::AppError;
use gimg::plan::Step;
use gimg::resolve::{
    brightness_delta, plan_blur_face, plan_compress, plan_crop, plan_edit, plan_resize, plan_rotate, plan_upscale,
    plan_watermark, BlurFaceFields, CropFields, EditFields, ResizeFields, RotateFields, UpscaleFields,
};

fn s(v: &str) -> Option<String> {
    Some(v.to_string())
}

fn resize(width: Option<String>, height: Option<String>, percentage: Option<String>, max_size: Option<String>) -> ResizeFields {
    ResizeFields { width, height, percentage, max_size }
}

fn crop(x: Option<String>, y: Option<String>, width: Option<String>, height: Option<String>, ratio: Option<String>) -> CropFields {
    CropFields { x, y, width, height, ratio }
}

fn no_edit() -> EditFields {
    EditFields {
        brightness: None,
        contrast: None,
        saturation: None,
        sharpness: None,
        filter: None,
        border: None,
        border_color: None,
        flip: None,
        auto_enhance: None,
        thumbnail: None,
    }
}

#[test]
fn resize_width_only_keeps_aspect() {
    let r = plan_resize(&resize(s("200"), None, None, None), 400, 300).unwrap();
    assert_eq!(r, vec![Step::Resize { width: 200, height: 150 }]);
}

#[test]
fn resize_height_only_keeps_aspect() {
    let r = plan_resize(&resize(None, s("100"), None, None), 400, 300).unwrap();
    assert_eq!(r, vec![Step::Resize { width: 133, height: 100 }]);
}

#[test]
fn resize_by_percentage() {
    let r = plan_resize(&resize(s("10"), None, s("50"), s("10")), 400, 300).unwrap();
    assert_eq!(r, vec![Step::Resize { width: 200, height: 150 }]);
}

#[test]
fn resize_by_max_size_never_enlarges() {
    let r = plan_resize(&resize(s("10"), None, None, s("200")), 400, 300).unwrap();
    assert_eq!(r, vec![Step::Resize { width: 200, height: 150 }]);
    let r = plan_resize(&resize(None, None, None, s("1000")), 400, 300).unwrap();
    assert_eq!(r, vec![Step::Resize { width: 400, height: 300 }]);
}

#[test]
fn resize_explicit_and_default() {
    let r = plan_resize(&resize(s("50"), s("60"), None, None), 400, 300).unwrap();
    assert_eq!(r, vec![Step::Resize { width: 50, height: 60 }]);
    let r = plan_resize(&resize(None, None, None, None), 400, 300).unwrap();
    assert_eq!(r, vec![Step::Resize { width: 400, height: 300 }]);
    assert!(matches!(plan_resize(&resize(s("abc"), None, None, None), 400, 300), Err(AppError::InvalidFieldValue(_))));
}

#[test]
fn resize_to_zero_is_refused() {
    assert!(matches!(plan_resize(&resize(s("0"), None, None, None), 400, 300), Err(AppError::InvalidFieldValue(_))));
    assert!(matches!(plan_resize(&resize(None, None, s("0"), None), 400, 300), Err(AppError::InvalidFieldValue(_))));
    assert!(matches!(plan_resize(&resize(s("1"), None, None, None), 400, 300), Err(AppError::InvalidFieldValue(_))));
}

#[test]
fn crop_ratio_square_is_centred() {
    let r = plan_crop(&crop(None, None, None, None, s("1:1")), 400, 300).unwrap();
    assert_eq!(r, vec![Step::Crop { x: 50, y: 0, width: 300, height: 300 }]);
}

#[test]
fn crop_ratio_on_tall_image() {
    let r = plan_crop(&crop(None, None, None, None, s("16:9")), 300, 400).unwrap();
    assert_eq!(r, vec![Step::Crop { x: 0, y: 116, width: 300, height: 168 }]);
}

#[test]
fn crop_ratio_malformed_is_invalid() {
    assert!(matches!(plan_crop(&crop(None, None, None, None, s("1-1")), 400, 300), Err(AppError::InvalidFieldValue(_))));
}

#[test]
fn crop_out_of_bounds_is_invalid() {
    let r = plan_crop(&crop(s("390"), s("0"), s("50"), s("50"), None), 400, 300);
    assert!(matches!(r, Err(AppError::InvalidFieldValue(_))));
}

#[test]
fn crop_coordinates_default_to_far_edge() {
    let r = plan_crop(&crop(s("100"), s("50"), None, None, None), 400, 300).unwrap();
    assert_eq!(r, vec![Step::Crop { x: 100, y: 50, width: 300, height: 250 }]);
    let r = plan_crop(&crop(None, None, None, None, None), 400, 300).unwrap();
    assert_eq!(r, vec![Step::Crop { x: 0, y: 0, width: 400, height: 300 }]);
    let r = plan_crop(&crop(s("350"), s("250"), s("50"), s("50"), None), 400, 300).unwrap();
    assert_eq!(r, vec![Step::Crop { x: 350, y: 250, width: 50, height: 50 }]);
    assert!(matches!(plan_crop(&crop(s("500"), None, None, None, None), 400, 300), Err(AppError::InvalidFieldValue(_))));
}

#[test]
fn rotate_quarter_turns() {
    let f = |d: &str| RotateFields { degrees: s(d), auto: None };
    assert_eq!(plan_rotate(&f("90")).unwrap(), vec![Step::Rotate90]);
    assert_eq!(plan_rotate(&f("-270")).unwrap(), vec![Step::Rotate90]);
    assert_eq!(plan_rotate(&f("180")).unwrap(), vec![Step::Rotate180]);
    assert_eq!(plan_rotate(&f("-180")).unwrap(), vec![Step::Rotate180]);
    assert_eq!(plan_rotate(&f("270")).unwrap(), vec![Step::Rotate270]);
    assert_eq!(plan_rotate(&f("-90")).unwrap(), vec![Step::Rotate270]);
}

#[test]
fn rotate_other_angles_leave_image() {
    let r = plan_rotate(&RotateFields { degrees: s("45"), auto: None }).unwrap();
    assert!(r.is_empty());
    let r = plan_rotate(&RotateFields { degrees: s("90"), auto: s("true") }).unwrap();
    assert!(r.is_empty());
    let r = plan_rotate(&RotateFields { degrees: s("90"), auto: s("false") }).unwrap();
    assert_eq!(r, vec![Step::Rotate90]);
}

#[test]
fn rotate_without_fields_is_missing() {
    assert!(matches!(plan_rotate(&RotateFields { degrees: None, auto: None }), Err(AppError::MissingField(_))));
    assert!(matches!(plan_rotate(&RotateFields { degrees: s("ninety"), auto: s("yes") }), Err(AppError::MissingField(_))));
}

#[test]
fn edit_without_fields_has_no_steps() {
    assert!(plan_edit(&no_edit(), 400, 300).unwrap().is_empty());
    let mut f = no_edit();
    f.contrast = s("1.5");
    f.border = s("10");
    f.filter = s("posterize");
    f.flip = s("diagonal");
    f.thumbnail = s("500");
    assert!(plan_edit(&f, 400, 300).unwrap().is_empty());
}

#[test]
fn edit_steps_come_in_fixed_order() {
    let mut f = no_edit();
    f.thumbnail = s("100");
    f.flip = s("horizontal");
    f.filter = s("invert");
    f.brightness = s("0.2");
    assert_eq!(
        plan_edit(&f, 400, 300).unwrap(),
        vec![Step::Brighten(51), Step::Invert, Step::FlipHorizontal, Step::Resize { width: 100, height: 75 }]
    );
}

#[test]
fn edit_filters_by_name() {
    let with = |n: &str| {
        let mut f = no_edit();
        f.filter = s(n);
        plan_edit(&f, 10, 10).unwrap()
    };
    assert_eq!(with("grayscale"), vec![Step::Grayscale]);
    assert_eq!(with("sepia"), vec![Step::Grayscale]);
    assert_eq!(with("blur"), vec![Step::Blur { sigma_tenths: 20 }]);
    let mut f = no_edit();
    f.flip = s("vertical");
    assert_eq!(plan_edit(&f, 10, 10).unwrap(), vec![Step::FlipVertical]);
}

#[test]
fn upscale_defaults_and_clamping() {
    let f = |sc: Option<String>, sh: Option<String>| UpscaleFields { scale: sc, sharpen: sh };
    assert_eq!(plan_upscale(&f(None, None), 10, 20).unwrap(), vec![Step::Resize { width: 20, height: 40 }, Step::Sharpen]);
    assert_eq!(plan_upscale(&f(s("20"), s("false")), 10, 20).unwrap(), vec![Step::Resize { width: 80, height: 160 }]);
    assert_eq!(plan_upscale(&f(s("0"), s("maybe")), 10, 20).unwrap(), vec![Step::Resize { width: 10, height: 20 }, Step::Sharpen]);
    assert!(matches!(plan_upscale(&f(s("8"), None), u32::MAX, 1), Err(AppError::InvalidFieldValue(_))));
}

#[test]
fn compress_quality_and_alpha() {
    let p = plan_compress(&None, false).unwrap();
    assert_eq!(p.quality, 80);
    assert!(p.steps.is_empty());
    let p = plan_compress(&s("150"), true).unwrap();
    assert_eq!(p.quality, 100);
    assert_eq!(p.steps, vec![Step::DropAlpha]);
    assert_eq!(plan_compress(&s("-5"), false).unwrap().quality, 1);
    assert!(matches!(plan_compress(&s("abc"), false), Err(AppError::InvalidFieldValue(_))));
    assert_eq!(plan_compress(&s("55"), false).unwrap().quality, 55);
}

#[test]
fn blur_face_strength_and_region() {
    let r = plan_blur_face(&BlurFaceFields { strength: None, region: None }).unwrap();
    assert_eq!(r, vec![Step::Blur { sigma_tenths: 25 }]);
    let r = plan_blur_face(&BlurFaceFields { strength: s("40"), region: s("1,2,3,4") }).unwrap();
    assert_eq!(r, vec![Step::Blur { sigma_tenths: 40 }]);
    assert!(matches!(plan_blur_face(&BlurFaceFields { strength: None, region: s("1,2,0,4") }), Err(AppError::InvalidFieldValue(_))));
}

#[test]
fn watermark_needs_text() {
    assert!(plan_watermark(&s("hello")).unwrap().is_empty());
    assert!(matches!(plan_watermark(&None), Err(AppError::MissingField(_))));
}

#[test]
fn resize_by_fractional_percentage() {
    let r = plan_resize(&resize(None, None, s("12.5"), None), 400, 300).unwrap();
    assert_eq!(r, vec![Step::Resize { width: 50, height: 37 }]);
    let r = plan_resize(&resize(None, None, s("150"), None), 400, 300).unwrap();
    assert_eq!(r, vec![Step::Resize { width: 600, height: 450 }]);
    assert!(matches!(plan_resize(&resize(s("80"), None, s("half"), None), 400, 300), Err(AppError::InvalidFieldValue(_))));
}

#[test]
fn brightness_scales_and_rounds() {
    assert_eq!(brightness_delta("0.5"), Some(128));
    assert_eq!(brightness_delta("-0.5"), Some(-128));
    assert_eq!(brightness_delta("0.2"), Some(51));
    assert_eq!(brightness_delta("1"), Some(255));
    assert_eq!(brightness_delta("-1.0"), Some(-255));
    assert_eq!(brightness_delta("0"), Some(0));
    assert_eq!(brightness_delta("4000000000"), Some(65535));
    assert_eq!(brightness_delta("-4000000000"), Some(-65535));
    assert_eq!(brightness_delta("abc"), None);
    assert_eq!(brightness_delta("-+1"), None);
    assert_eq!(brightness_delta("-"), None);
    assert_eq!(brightness_delta("1000"), Some(65535));
    let mut f = no_edit();
    f.brightness = s("bright");
    assert!(matches!(plan_edit(&f, 10, 10), Err(AppError::InvalidFieldValue(_))));
    let mut f = no_edit();
    f.thumbnail = s("small");
    assert!(matches!(plan_edit(&f, 10, 10), Err(AppError::InvalidFieldValue(_))));
}

#[test]
fn rotate_accepts_decimal_angles() {
    let f = |d: &str| RotateFields { degrees: s(d), auto: None };
    assert_eq!(plan_rotate(&f("90.0")).unwrap(), vec![Step::Rotate90]);
    assert_eq!(plan_rotate(&f("-90.00")).unwrap(), vec![Step::Rotate270]);
    assert_eq!(plan_rotate(&f("180.")).unwrap(), vec![Step::Rotate180]);
    assert!(plan_rotate(&f("90.5")).unwrap().is_empty());
    assert!(plan_rotate(&f("360")).unwrap().is_empty());
    assert!(plan_rotate(&f("0")).unwrap().is_empty());
}

#[test]
fn malformed_numbers_are_invalid() {
    let c = CropFields { x: s("ten"), y: None, width: None, height: None, ratio: None };
    assert!(matches!(plan_crop(&c, 400, 300), Err(AppError::InvalidFieldValue(_))));
    let c = CropFields { x: None, y: None, width: s("-1"), height: None, ratio: s("1:1") };
    assert!(matches!(plan_crop(&c, 400, 300), Err(AppError::InvalidFieldValue(_))));
    let u = UpscaleFields { scale: s("two"), sharpen: None };
    assert!(matches!(plan_upscale(&u, 10, 10), Err(AppError::InvalidFieldValue(_))));
    let b = BlurFaceFields { strength: s("strong"), region: None };
    assert!(matches!(plan_blur_face(&b), Err(AppError::InvalidFieldValue(_))));
    assert!(matches!(plan_resize(&resize(None, None, None, s("big")), 400, 300), Err(AppError::InvalidFieldValue(_))));
}

#[test]
fn missing_fields_are_named() {
    match plan_rotate(&RotateFields { degrees: None, auto: None }) {
        Err(AppError::MissingField(n)) => assert_eq!(n, "degrees or auto"),
        _ => panic!("expected a missing field"),
    }
    match plan_watermark(&None) {
        Err(AppError::MissingField(n)) => assert_eq!(n, "text"),
        _ => panic!("expected a missing field"),
    }
}

#[test]
fn exponent_forms_are_read_exactly() {
    let r = plan_resize(&resize(None, None, s("1e2"), None), 400, 300).unwrap();
    assert_eq!(r, vec![Step::Resize { width: 400, height: 300 }]);
    let r = plan_resize(&resize(None, None, s("5E1"), None), 400, 300).unwrap();
    assert_eq!(r, vec![Step::Resize { width: 200, height: 150 }]);
    let r = plan_resize(&resize(None, None, s("1e5"), None), 400, 300).unwrap();
    assert_eq!(r, vec![Step::Resize { width: 400000, height: 300000 }]);
    assert!(matches!(plan_resize(&resize(None, None, s("1e-9"), None), 400, 300), Err(AppError::InvalidFieldValue(_))));
    assert!(matches!(plan_resize(&resize(None, None, s("-50"), None), 400, 300), Err(AppError::InvalidFieldValue(_))));
    assert_eq!(brightness_delta("1e-1"), Some(26));
    assert_eq!(brightness_delta("-2.5e-1"), Some(-64));
    assert_eq!(brightness_delta("1e300"), Some(65535));
    assert_eq!(brightness_delta("1e-300"), Some(0));
    let f = |d: &str| RotateFields { degrees: s(d), auto: None };
    assert_eq!(plan_rotate(&f("9e1")).unwrap(), vec![Step::Rotate90]);
    assert_eq!(plan_rotate(&f("-2.7E2")).unwrap(), vec![Step::Rotate90]);
    assert_eq!(plan_rotate(&f("1800e-1")).unwrap(), vec![Step::Rotate180]);
    assert!(plan_rotate(&f("9e9")).unwrap().is_empty());
    assert!(plan_rotate(&f("9e-30")).unwrap().is_empty());
}

fn invalid_field<T>(r: Result<T, AppError>) -> String {
    match r {
        Err(AppError::InvalidFieldValue(n)) => n,
        _ => panic!("expected an invalid field value"),
    }
}

#[test]
fn invalid_values_name_their_field() {
    assert_eq!(invalid_field(plan_resize(&resize(s("abc"), None, None, None), 4, 3)), "width");
    assert_eq!(invalid_field(plan_resize(&resize(None, s("x"), None, None), 4, 3)), "height");
    assert_eq!(invalid_field(plan_resize(&resize(None, None, None, s("m")), 4, 3)), "max_size");
    assert_eq!(invalid_field(plan_resize(&resize(None, None, s("p"), None), 4, 3)), "percentage");
    let c = CropFields { x: None, y: s("?"), width: None, height: None, ratio: None };
    assert_eq!(invalid_field(plan_crop(&c, 4, 3)), "y");
    assert_eq!(invalid_field(plan_upscale(&UpscaleFields { scale: s("big"), sharpen: None }, 4, 3)), "scale");
    assert_eq!(invalid_field(plan_compress(&s("best"), false)), "quality");
    assert_eq!(invalid_field(plan_blur_face(&BlurFaceFields { strength: s("hard"), region: None })), "strength");
    let mut f = no_edit();
    f.brightness = s("dim");
    assert_eq!(invalid_field(plan_edit(&f, 4, 3)), "brightness");
}

#[test]
fn blur_face_hands_on_the_region_error() {
    let f = BlurFaceFields { strength: None, region: s("1,y,3,4") };
    assert_eq!(invalid_field(plan_blur_face(&f)), "Invalid y coordinate");
    let f = BlurFaceFields { strength: None, region: s("1,2,3") };
    assert_eq!(invalid_field(plan_blur_face(&f)), "Invalid region format. Expected 'x,y,w,h'");
}
