//! One function per operation: validate the upload, resolve the fields,
//! decode, transform, encode. Each stops at the first failure.
use vstd::prelude::*;
use image::DynamicImage;
use crate::engine::{
    Picture, acceptable, apply_steps, as_size, checks_upload, color_mode, decoded_size,
    decodes_nonempty, decodes_as, encode_image, encode_jpeg, jpeg_sized, filter_free, has_alpha, load_upload, needs_filter,
    run_steps,
};
use crate::error::AppError;
use crate::format::{ImageFormat, sniff};
use crate::info::{ImageInfo, format_label, get_image_info, size_text};
use crate::plan::{MAX_SIDE, Step, within_limits, all_within_limits, fits_limits, lemma_plan_dims_single, plan_dims, step_dims};
use crate::resolve::{
    angle_steps, bad_num, scale_of, crop_box, degrees_of, edit_malformed, edit_plan, flag_of,
    plan_blur_face, plan_compress, plan_crop, plan_edit, plan_resize, plan_rotate, plan_upscale,
    plan_watermark, lemma_resize_target_range, resize_malformed, resize_target, upscale_plan, BlurFaceFields,
    CropFields, EditFields, ResizeFields, RotateFields, UpscaleFields,
};
use crate::text::split_on;
use crate::validation::{region_spec, validate_upload};

verus! {

/// A successful outcome is bytes recognised as PNG.
pub open spec fn png_result(r: Result<Vec<u8>, AppError>) -> bool {
    r is Ok ==> sniff(r->Ok_0@) == Some(ImageFormat::Png)
}

/// A plan that this library carries out by itself on an image of size `s`
/// and whose result has no empty side.
pub open spec fn renders(steps: Seq<Step>, s: (u32, u32)) -> bool {
    &&& all_within_limits(steps)
    &&& filter_free(steps)
    &&& plan_dims(steps, s.0 as int, s.1 as int).0 > 0
    &&& plan_dims(steps, s.0 as int, s.1 as int).1 > 0
}

pub open spec fn edit_renders(f: EditFields, s: (u32, u32)) -> bool {
    renders(edit_plan(f, s.0 as int, s.1 as int), s)
}

pub open spec fn upscale_renders(f: UpscaleFields, s: (u32, u32)) -> bool {
    &&& s.0 * scale_of(f) <= u32::MAX
    &&& s.1 * scale_of(f) <= u32::MAX
    &&& renders(upscale_plan(f, s.0 as int, s.1 as int), s)
}

pub open spec fn edit_size(f: EditFields, s: (u32, u32)) -> (int, int) {
    plan_dims(edit_plan(f, s.0 as int, s.1 as int), s.0 as int, s.1 as int)
}

pub open spec fn upscale_size(f: UpscaleFields, s: (u32, u32)) -> (int, int) {
    plan_dims(upscale_plan(f, s.0 as int, s.1 as int), s.0 as int, s.1 as int)
}

pub open spec fn rotate_size(f: RotateFields, s: (u32, u32)) -> (int, int) {
    plan_dims(rotate_plan(f), s.0 as int, s.1 as int)
}

/// The steps a rotate request resolves to.
pub open spec fn rotate_plan(f: RotateFields) -> Seq<Step> {
    if flag_of(f.auto, false) || degrees_of(f) is None {
        Seq::empty()
    } else {
        angle_steps(degrees_of(f)->0)
    }
}

pub open spec fn filter_ready<F: Fn(DynamicImage, Step) -> DynamicImage>(filter: &F) -> bool {
    forall|i: DynamicImage, s: Step| needs_filter(s) ==> #[trigger] filter.requires((i, s))
}

fn decoded(data: &[u8]) -> (r: Result<Picture, AppError>)
    ensures
        checks_upload(data@, r),
        acceptable(data@) ==> (r is Ok <==> decoded_size(data@) is Some),
        acceptable(data@) && r is Err ==> r->Err_0 is ImageProcessingError,
        r is Ok ==> r->Ok_0.size() == as_size(decoded_size(data@)->0),
{
    match load_upload(data) {
        Ok((_, img)) => Ok(img),
        Err(e) => Err(e),
    }
}

/// Carries out a plan and encodes the result as PNG; sizes out of range are
/// an invalid value.
fn render<F: Fn(DynamicImage, Step) -> DynamicImage>(
    p: Picture,
    steps: &Vec<Step>,
    filter: &F,
) -> (r: Result<Vec<u8>, AppError>)
    requires
        filter_ready(filter),
    ensures
        png_result(r),
        r is Err ==> r->Err_0 is ImageProcessingError || r->Err_0 is InvalidFieldValue,
        !all_within_limits(steps@) ==> r is Err && r->Err_0 is InvalidFieldValue,
        renders(steps@, (p.size().0 as u32, p.size().1 as u32)) ==> r is Ok,
        decodes_as(r, plan_dims(steps@, p.size().0, p.size().1)),
{
    proof {
        p.lemma_size_bounds();
    }
    if !fits_limits(steps) {
        return Err(AppError::InvalidFieldValue(String::from_str("Requested size is too large")));
    }
    let out = match run_steps(p, steps, filter) {
        Ok(out) => out,
        Err(e) => return Err(e),
    };
    encode_image(&out, ImageFormat::Png)
}

fn no_filter(img: DynamicImage, step: Step) -> (r: DynamicImage) {
    img
}

/// Re-encodes an upload as JPEG at the requested quality (1 to 100, 80 by
/// default), flattening an alpha channel first.
pub fn compress_upload(data: &[u8], quality: &Option<String>) -> (r: Result<Vec<u8>, AppError>)
    ensures
        checks_upload(data@, r),
        acceptable(data@) && decoded_size(data@) is None ==> r is Err
            && r->Err_0 is ImageProcessingError,
        acceptable(data@) && decoded_size(data@) is Some && quality is Some && crate::text::parse_i32_spec(
            quality->0@,
        ) is None ==> r is Err && r->Err_0 is InvalidFieldValue,
        acceptable(data@) && r is Err ==> r->Err_0 is ImageProcessingError
            || r->Err_0 is InvalidFieldValue,
        acceptable(data@) && decoded_size(data@) is Some && jpeg_sized(
            as_size(decoded_size(data@)->0),
        ) && !(quality is Some && crate::text::parse_i32_spec(quality->0@) is None) ==> r is Ok,
        r is Ok ==> sniff(r->Ok_0@) == Some(ImageFormat::Jpeg),
        acceptable(data@) && decoded_size(data@) is Some ==> decodes_as(
            r,
            as_size(decoded_size(data@)->0),
        ),
{
    let img = match decoded(data) {
        Ok(img) => img,
        Err(e) => return Err(e),
    };
    let plan = match plan_compress(quality, has_alpha(&img)) {
        Ok(p) => p,
        Err(e) => return Err(e),
    };
    let ghost (w, h) = img.size();
    proof {
        if plan.steps@.len() > 0 {
            lemma_plan_dims_single(plan.steps@[0], w, h);
            assert(plan.steps@ =~= seq![plan.steps@[0]]);
        }
    }
    let img = apply_steps(img, &plan.steps);
    encode_jpeg(&img, plan.quality)
}

/// Resizes an upload as the fields ask and returns it as PNG.
pub fn resize_upload(data: &[u8], f: &ResizeFields) -> (r: Result<Vec<u8>, AppError>)
    ensures
        checks_upload(data@, r),
        png_result(r),
        acceptable(data@) && decoded_size(data@) is None ==> r is Err
            && r->Err_0 is ImageProcessingError,
        acceptable(data@) && decoded_size(data@) is Some ==> ({
            let s = decoded_size(data@)->0;
            let t = resize_target(*f, s.0 as int, s.1 as int);
            let good = !resize_malformed(*f) && 0 < t.0 <= MAX_SIDE && 0 < t.1 <= MAX_SIDE;
            &&& good ==> r is Ok
            &&& !good ==> r is Err && r->Err_0 is InvalidFieldValue
            &&& decodes_as(r, t)
        }),
{
    let img = match decoded(data) {
        Ok(img) => img,
        Err(e) => return Err(e),
    };
    let (w, h) = (img.width(), img.height());
    let steps = match plan_resize(f, w, h) {
        Ok(s) => s,
        Err(e) => return Err(e),
    };
    proof {
        lemma_resize_target_range(*f, w as int, h as int);
        lemma_plan_dims_single(steps@[0], w as int, h as int);
        assert(steps@ =~= seq![steps@[0]]);
        let t = resize_target(*f, w as int, h as int);
        if !(t.0 <= MAX_SIDE && t.1 <= MAX_SIDE) {
            assert(!within_limits(steps@[0]));
        }
    }
    render(img, &steps, &no_filter)
}

/// Crops an upload as the fields ask and returns it as PNG.
pub fn crop_upload(data: &[u8], f: &CropFields) -> (r: Result<Vec<u8>, AppError>)
    ensures
        checks_upload(data@, r),
        png_result(r),
        acceptable(data@) && decoded_size(data@) is None ==> r is Err
            && r->Err_0 is ImageProcessingError,
        acceptable(data@) && decoded_size(data@) is Some ==> ({
            let s = decoded_size(data@)->0;
            let b = crop_box(*f, s.0 as int, s.1 as int);
            let bad = bad_num(f.x) || bad_num(f.y) || bad_num(f.width) || bad_num(f.height);
            let cut = step_dims(
                Step::Crop {
                    x: b->Ok_0.0 as u32,
                    y: b->Ok_0.1 as u32,
                    width: b->Ok_0.2 as u32,
                    height: b->Ok_0.3 as u32,
                },
                s.0 as int,
                s.1 as int,
            );
            &&& (bad || b is Err) ==> r is Err && r->Err_0 is InvalidFieldValue
            &&& !bad && b is Ok && cut.0 > 0 && cut.1 > 0 ==> r is Ok
            &&& decodes_as(r, cut)
            &&& r is Err ==> r->Err_0 is ImageProcessingError || r->Err_0 is InvalidFieldValue
        }),
{
    let img = match decoded(data) {
        Ok(img) => img,
        Err(e) => return Err(e),
    };
    let (w, h) = (img.width(), img.height());
    let steps = match plan_crop(f, w, h) {
        Ok(s) => s,
        Err(e) => return Err(e),
    };
    proof {
        lemma_plan_dims_single(steps@[0], w as int, h as int);
        assert(steps@ =~= seq![steps@[0]]);
    }
    render(img, &steps, &no_filter)
}

/// Rotates an upload by a quarter-turn angle and returns it as PNG; the
/// fields are resolved before anything is decoded.
pub fn rotate_upload(data: &[u8], f: &RotateFields) -> (r: Result<Vec<u8>, AppError>)
    ensures
        checks_upload(data@, r),
        png_result(r),
        acceptable(data@) && !flag_of(f.auto, false) && degrees_of(*f) is None ==> r is Err
            && r->Err_0 is MissingField && r->Err_0->MissingField_0@ == "degrees or auto"@,
        acceptable(data@) && (flag_of(f.auto, false) || degrees_of(*f) is Some) && decodes_nonempty(
            data@,
        ) ==> r is Ok,
        acceptable(data@) && decoded_size(data@) is Some ==> decodes_as(r, rotate_size(*f, decoded_size(data@)->0)),
        acceptable(data@) && r is Err && (flag_of(f.auto, false) || degrees_of(*f) is Some)
            ==> r->Err_0 is ImageProcessingError,
{
    if let Err(e) = validate_upload(data) {
        return Err(e);
    }
    let steps = match plan_rotate(f) {
        Ok(s) => s,
        Err(e) => return Err(e),
    };
    let img = match decoded(data) {
        Ok(img) => img,
        Err(e) => return Err(e),
    };
    let ghost (w, h) = img.size();
    proof {
        if steps@.len() > 0 {
            lemma_plan_dims_single(steps@[0], w, h);
            assert(steps@ =~= seq![steps@[0]]);
        }
    }
    let out = apply_steps(img, &steps);
    encode_image(&out, ImageFormat::Png)
}

/// Applies brightness, filter, flip and thumbnail in that order and returns
/// the result as PNG; `filter` supplies the blur.
pub fn edit_upload<F: Fn(DynamicImage, Step) -> DynamicImage>(
    data: &[u8],
    f: &EditFields,
    filter: &F,
) -> (r: Result<Vec<u8>, AppError>)
    requires
        filter_ready(filter),
    ensures
        checks_upload(data@, r),
        png_result(r),
        acceptable(data@) && decoded_size(data@) is None ==> r is Err
            && r->Err_0 is ImageProcessingError,
        acceptable(data@) && decoded_size(data@) is Some && edit_malformed(*f) ==> r is Err
            && r->Err_0 is InvalidFieldValue,
        acceptable(data@) && decoded_size(data@) is Some && !edit_malformed(*f) && edit_renders(*f, decoded_size(data@)->0)
            ==> r is Ok,
        acceptable(data@) && decoded_size(data@) is Some ==> decodes_as(r, edit_size(*f, decoded_size(data@)->0)),
        acceptable(data@) && r is Err ==> r->Err_0 is ImageProcessingError
            || r->Err_0 is InvalidFieldValue,
{
    let img = match decoded(data) {
        Ok(img) => img,
        Err(e) => return Err(e),
    };
    let (w, h) = (img.width(), img.height());
    let steps = match plan_edit(f, w, h) {
        Ok(s) => s,
        Err(e) => return Err(e),
    };
    render(img, &steps, filter)
}

/// Enlarges an upload by the clamped factor, sharpening unless asked not to,
/// and returns it as PNG; `filter` supplies the sharpening.
pub fn upscale_upload<F: Fn(DynamicImage, Step) -> DynamicImage>(
    data: &[u8],
    f: &UpscaleFields,
    filter: &F,
) -> (r: Result<Vec<u8>, AppError>)
    requires
        filter_ready(filter),
    ensures
        checks_upload(data@, r),
        png_result(r),
        acceptable(data@) && decoded_size(data@) is None ==> r is Err
            && r->Err_0 is ImageProcessingError,
        acceptable(data@) && decoded_size(data@) is Some && bad_num(f.scale) ==> r is Err
            && r->Err_0 is InvalidFieldValue,
        acceptable(data@) && decoded_size(data@) is Some && !bad_num(f.scale) && upscale_renders(*f, decoded_size(data@)->0)
            ==> r is Ok,
        acceptable(data@) && decoded_size(data@) is Some ==> decodes_as(r, upscale_size(*f, decoded_size(data@)->0)),
        acceptable(data@) && r is Err ==> r->Err_0 is ImageProcessingError
            || r->Err_0 is InvalidFieldValue,
{
    let img = match decoded(data) {
        Ok(img) => img,
        Err(e) => return Err(e),
    };
    let (w, h) = (img.width(), img.height());
    let steps = match plan_upscale(f, w, h) {
        Ok(s) => s,
        Err(e) => return Err(e),
    };
    render(img, &steps, filter)
}

/// Blurs an upload with the requested strength and returns it as PNG; the
/// fields are checked before anything is decoded. The blur itself comes from
/// `filter`.
pub fn blur_face_upload<F: Fn(DynamicImage, Step) -> DynamicImage>(
    data: &[u8],
    f: &BlurFaceFields,
    filter: &F,
) -> (r: Result<Vec<u8>, AppError>)
    requires
        filter_ready(filter),
    ensures
        checks_upload(data@, r),
        png_result(r),
        acceptable(data@) && (bad_num(f.strength) || (f.region is Some && region_spec(
            f.region->0@,
        ) is None)) ==> r is Err && r->Err_0 is InvalidFieldValue,
        acceptable(data@) && r is Err && !bad_num(f.strength) && (f.region is None || region_spec(
            f.region->0@,
        ) is Some) ==> r->Err_0 is ImageProcessingError,
{
    if let Err(e) = validate_upload(data) {
        return Err(e);
    }
    let steps = match plan_blur_face(f) {
        Ok(s) => s,
        Err(e) => return Err(e),
    };
    let img = match decoded(data) {
        Ok(img) => img,
        Err(e) => return Err(e),
    };
    let out = match run_steps(img, &steps, filter) {
        Ok(out) => out,
        Err(e) => return Err(e),
    };
    encode_image(&out, ImageFormat::Png)
}

/// Re-encodes an upload as PNG, which keeps no metadata.
pub fn reencode_upload(data: &[u8]) -> (r: Result<Vec<u8>, AppError>)
    ensures
        checks_upload(data@, r),
        png_result(r),
        acceptable(data@) && decodes_nonempty(data@) ==> r is Ok,
        acceptable(data@) && r is Err ==> r->Err_0 is ImageProcessingError,
        acceptable(data@) && decoded_size(data@) is Some ==> decodes_as(
            r,
            as_size(decoded_size(data@)->0),
        ),
{
    let img = match decoded(data) {
        Ok(img) => img,
        Err(e) => return Err(e),
    };
    encode_image(&img, ImageFormat::Png)
}

/// Checks a watermark request and returns the upload as PNG; text rendering
/// is not available, so the pixels are unchanged.
pub fn watermark_upload(data: &[u8], text: &Option<String>) -> (r: Result<Vec<u8>, AppError>)
    ensures
        checks_upload(data@, r),
        png_result(r),
        acceptable(data@) && text is None ==> r is Err && r->Err_0 is MissingField
            && r->Err_0->MissingField_0@ == "text"@,
        acceptable(data@) && text is Some && decodes_nonempty(data@) ==> r is Ok,
        acceptable(data@) && decoded_size(data@) is Some ==> decodes_as(
            r,
            as_size(decoded_size(data@)->0),
        ),
        acceptable(data@) && text is Some && r is Err ==> r->Err_0 is ImageProcessingError,
{
    if let Err(e) = validate_upload(data) {
        return Err(e);
    }
    if let Err(e) = plan_watermark(text) {
        return Err(e);
    }
    reencode_upload(data)
}

/// Summarises an upload: its decoded size and storage, the format its bytes
/// announce, the last part of its name and its byte count.
pub fn describe_upload(data: &[u8], file_name: &str) -> (r: Result<ImageInfo, AppError>)
    ensures
        checks_upload(data@, r),
        acceptable(data@) ==> (r is Ok <==> decoded_size(data@) is Some),
        acceptable(data@) && r is Err ==> r->Err_0 is ImageProcessingError,
        r is Ok ==> ({
            let i = r->Ok_0;
            &&& (i.width as int, i.height as int) == as_size(decoded_size(data@)->0)
            &&& i.format@ == format_label(sniff(data@)->0)
            &&& i.file@ == split_on(file_name@, '/').last()
            &&& i.file_size == data@.len()
            &&& i.file_size_human@ == size_text(data@.len())
        }),
{
    let (format, img) = match load_upload(data) {
        Ok(p) => p,
        Err(e) => return Err(e),
    };
    Ok(get_image_info(img.width(), img.height(), color_mode(&img), format, file_name, data.len() as u64))
}

} // verus!
