//! Decoding, pixel operations and encoding, through the `image` crate.
use vstd::prelude::*;
use image::{DynamicImage, ImageError};
use crate::error::AppError;
use crate::format::{ImageFormat, format_named, signature, sniff};
use crate::info::ColorMode;
use crate::plan::{MAX_BRIGHTEN, MAX_SIDE, Step, all_within_limits, plan_dims, step_dims, within_limits};
use crate::validation::{MAX_UPLOAD_SIZE, validate_upload};

verus! {

#[verifier::external_type_specification]
#[verifier::external_body]
pub struct ExDynamicImage(DynamicImage);

#[verifier::external_type_specification]
#[verifier::external_body]
pub struct ExImageError(ImageError);

/// The width and height of the image that `data` decodes to, when it decodes.
pub uninterp spec fn decoded_size(data: Seq<u8>) -> Option<(u32, u32)>;

/// `data` decodes to an image with no empty side.
pub open spec fn decodes_nonempty(data: Seq<u8>) -> bool {
    match decoded_size(data) {
        Some((w, h)) => w > 0 && h > 0,
        None => false,
    }
}

/// The most pixels for which an encoded result is promised to decode again:
/// at 8 bytes per pixel it stays well below the decoder's default 512 MiB
/// allocation limit.
pub const MAX_ROUND_TRIP_PIXELS: u64 = 16_777_216;

/// Encoded bytes decode again to an image of size `d`, where `d` is small
/// enough for the decoder's limit.
pub open spec fn decodes_as(r: Result<Vec<u8>, AppError>, d: (int, int)) -> bool {
    r is Ok && 0 <= d.0 && 0 <= d.1 && d.0 * d.1 <= MAX_ROUND_TRIP_PIXELS ==> decoded_size(
        r->Ok_0@,
    ) == Some((d.0 as u32, d.1 as u32))
}

/// Same as `decodes_as`, for the raw encoder result.
pub open spec fn bytes_decode_as(r: Result<Vec<u8>, ImageError>, d: (int, int)) -> bool {
    r is Ok && 0 <= d.0 && 0 <= d.1 && d.0 * d.1 <= MAX_ROUND_TRIP_PIXELS ==> decoded_size(
        r->Ok_0@,
    ) == Some((d.0 as u32, d.1 as u32))
}

/// The bytes of a conversion's result.
pub open spec fn bytes_of(r: Result<(ImageFormat, Vec<u8>), AppError>) -> Result<Vec<u8>, AppError> {
    match r {
        Ok((_, b)) => Ok(b),
        Err(e) => Err(e),
    }
}

/// Both sides within what JPEG can hold.
pub open spec fn jpeg_sized(s: (int, int)) -> bool {
    1 <= s.0 <= 65535 && 1 <= s.1 <= 65535
}

pub open spec fn as_size(s: (u32, u32)) -> (int, int) {
    (s.0 as int, s.1 as int)
}

/// A decoded image with its width and height beside it. Only the functions
/// of this module build one, each from the size that the image reports.
/// Float storage is turned into 16 bits per channel as soon as an image
/// enters (`integer_storage`), so its pixels always have 8 or 16 bits per
/// channel: PNG can hold them all, and brightening never meets a NaN.
pub struct Picture {
    image: DynamicImage,
    width: u32,
    height: u32,
}

impl Picture {
    pub closed spec fn size(&self) -> (int, int) {
        (self.width as int, self.height as int)
    }

    pub fn width(&self) -> (r: u32)
        ensures
            r == self.size().0,
    {
        self.width
    }

    pub fn height(&self) -> (r: u32)
        ensures
            r == self.size().1,
    {
        self.height
    }

    pub proof fn lemma_size_bounds(&self)
        ensures
            0 <= self.size().0 <= u32::MAX,
            0 <= self.size().1 <= u32::MAX,
    {
    }

    /// The image itself, for operations outside this library.
    pub fn into_image(self) -> DynamicImage {
        self.image
    }
}

/// Relies on image::load_from_memory, which decodes from the bytes alone,
/// and on width/height of the result.
#[verifier::external_body]
fn load_from_memory(data: &[u8]) -> (r: Result<Picture, ImageError>)
    ensures
        r is Ok <==> decoded_size(data@) is Some,
        r is Ok ==> r->Ok_0.size() == as_size(decoded_size(data@)->0),
{
    image::load_from_memory(data).map(|image| Picture { width: image.width(), height: image.height(), image })
}

/// Relies on width/height of an image handed back by a caller's filter.
#[verifier::external_body]
fn measure(image: DynamicImage) -> (r: Picture) {
    Picture { width: image.width(), height: image.height(), image }
}

/// Relies on image::DynamicImage::to_rgb16 / to_rgba16, which keep the size:
/// float storage becomes 16 bits per channel; other storage is kept.
#[verifier::external_body]
fn integer_storage(p: Picture) -> (r: Picture)
    ensures
        r.size() == p.size(),
{
    let image = match &p.image {
        DynamicImage::ImageRgb32F(_) => DynamicImage::ImageRgb16(p.image.to_rgb16()),
        DynamicImage::ImageRgba32F(_) => DynamicImage::ImageRgba16(p.image.to_rgba16()),
        _ => return p,
    };
    Picture { width: image.width(), height: image.height(), image }
}

/// Relies on the `Display` impl of image::ImageError, for the message.
#[verifier::external_body]
fn error_text(e: &ImageError) -> (r: String) {
    e.to_string()
}

/// Relies on image::DynamicImage::write_to: encodes into memory. Each encoder
/// writes its format's magic bytes first: PNG its signature (png
/// encoder.rs), JPEG `FF D8 FF E0`, BMP `BM`, GIF `GIF89a` (gif
/// encoder.rs), TIFF `II`/`MM` and 42 (tiff encoder/writer.rs), WebP `RIFF`,
/// a length and `WEBP` (image-webp encoder.rs). The PNG encoder and refuses only empty images and
/// float storage (png encoder.rs, image codecs/png.rs). The JPEG encoder
/// converts any storage to L8 or Rgb8 and refuses only sides outside
/// 1..=65535 (image codecs/jpeg/encoder.rs). Both write the size into their
/// header, so image::load_from_memory reads the same size back while the
/// image stays within its default allocation limit.
#[verifier::external_body]
fn write_encoded(p: &Picture, format: ImageFormat) -> (r: Result<Vec<u8>, ImageError>)
    ensures
        r is Ok ==> sniff(r->Ok_0@) == Some(format),
        format == ImageFormat::Png && p.size().0 > 0 && p.size().1 > 0 ==> r is Ok,
        format == ImageFormat::Jpeg && jpeg_sized(p.size()) ==> r is Ok,
        format == ImageFormat::Png || format == ImageFormat::Jpeg ==> bytes_decode_as(r, p.size()),
{
    let target = match format {
        ImageFormat::Jpeg => image::ImageFormat::Jpeg,
        ImageFormat::Png => image::ImageFormat::Png,
        ImageFormat::Webp => image::ImageFormat::WebP,
        ImageFormat::Bmp => image::ImageFormat::Bmp,
        ImageFormat::Tiff => image::ImageFormat::Tiff,
        ImageFormat::Gif => image::ImageFormat::Gif,
    };
    let mut buf = std::io::Cursor::new(Vec::new());
    p.image.write_to(&mut buf, target).map(|_| buf.into_inner())
}

/// Relies on image::codecs::jpeg::JpegEncoder::new_with_quality and
/// image::DynamicImage::write_with_encoder: encodes as JPEG at `quality`; the
/// encoder writes the start-of-image and JFIF markers first, converts any
/// storage to L8 or Rgb8 and refuses only sides outside 1..=65535. The size
/// stands in the frame header and is read back on decoding.
#[verifier::external_body]
fn write_jpeg(p: &Picture, quality: u8) -> (r: Result<Vec<u8>, ImageError>)
    requires
        1 <= quality <= 100,
    ensures
        r is Ok ==> r->Ok_0@.len() >= 4 && r->Ok_0@.subrange(0, 4) == signature(
            ImageFormat::Jpeg,
        ),
        jpeg_sized(p.size()) ==> r is Ok,
        bytes_decode_as(r, p.size()),
{
    let mut buf: Vec<u8> = Vec::new();
    let encoder = image::codecs::jpeg::JpegEncoder::new_with_quality(&mut buf, quality);
    p.image.write_with_encoder(encoder).map(|_| buf)
}

/// Relies on the variants of image::DynamicImage: how the pixels are stored.
#[verifier::external_body]
pub(crate) fn color_mode(p: &Picture) -> (r: ColorMode) {
    match p.image {
        DynamicImage::ImageLuma8(_) => ColorMode::Gray,
        DynamicImage::ImageLumaA8(_) => ColorMode::GrayAlpha,
        DynamicImage::ImageRgb8(_) => ColorMode::Rgb,
        DynamicImage::ImageRgba8(_) => ColorMode::Rgba,
        _ => ColorMode::Other,
    }
}

/// Relies on image::ColorType::has_alpha of image::DynamicImage::color.
#[verifier::external_body]
pub(crate) fn has_alpha(p: &Picture) -> (r: bool) {
    p.image.color().has_alpha()
}

/// Relies on image::DynamicImage::resize_exact (Lanczos3), whose result has
/// exactly the size asked for. Its buffers (`ImageBuffer::new` panics beyond
/// the largest vector) hold at most 16 bytes per pixel of the source width
/// times the new height, or of the new size; the side bound keeps both below
/// `isize::MAX`.
#[verifier::external_body]
fn resize_lanczos(p: &Picture, width: u32, height: u32) -> (r: Picture)
    requires
        width <= MAX_SIDE,
        height <= MAX_SIDE,
    ensures
        r.size() == (width as int, height as int),
{
    let image = p.image.resize_exact(width, height, image::imageops::FilterType::Lanczos3);
    Picture { width: image.width(), height: image.height(), image }
}

/// Relies on image::DynamicImage::crop_imm, which first cuts the rectangle
/// back to the image (imageops `crop_dimms`).
#[verifier::external_body]
fn crop(p: &Picture, x: u32, y: u32, width: u32, height: u32) -> (r: Picture)
    ensures
        r.size() == step_dims(Step::Crop { x, y, width, height }, p.size().0, p.size().1),
{
    let image = p.image.crop_imm(x, y, width, height);
    Picture { width: image.width(), height: image.height(), image }
}

/// Relies on image::DynamicImage::rotate90 / rotate270: a quarter turn either
/// way swaps the sides.
#[verifier::external_body]
fn rotate_quarter(p: &Picture, clockwise: bool) -> (r: Picture)
    ensures
        r.size() == (p.size().1, p.size().0),
{
    let image = if clockwise { p.image.rotate90() } else { p.image.rotate270() };
    Picture { width: image.width(), height: image.height(), image }
}

/// Relies on image::DynamicImage::rotate180, fliph, flipv, grayscale and
/// brighten: each keeps the size. `brighten` adds to every channel of 8 or
/// 16 bits and clamps; the bound keeps its `i32` addition from overflowing.
#[verifier::external_body]
fn same_size_op(p: &Picture, step: Step) -> (r: Picture)
    requires
        step is Rotate180 || step is FlipHorizontal || step is FlipVertical || step is Grayscale
            || step is Brighten,
        step is Brighten ==> -MAX_BRIGHTEN <= step->Brighten_0 <= MAX_BRIGHTEN,
    ensures
        r.size() == p.size(),
{
    let image = match step {
        Step::Rotate180 => p.image.rotate180(),
        Step::FlipHorizontal => p.image.fliph(),
        Step::FlipVertical => p.image.flipv(),
        Step::Brighten(d) => p.image.brighten(d),
        _ => p.image.grayscale(),
    };
    Picture { width: image.width(), height: image.height(), image }
}

/// Relies on image::DynamicImage::to_rgba8 and image::imageops::invert:
/// colour channels inverted, alpha kept, stored as RGBA, size kept.
#[verifier::external_body]
fn invert_rgba(p: &Picture) -> (r: Picture)
    ensures
        r.size() == p.size(),
{
    let mut rgba = p.image.to_rgba8();
    image::imageops::invert(&mut rgba);
    Picture { width: rgba.width(), height: rgba.height(), image: DynamicImage::ImageRgba8(rgba) }
}

/// Relies on image::DynamicImage::to_rgb8: the alpha channel dropped, size
/// kept.
#[verifier::external_body]
fn flatten_rgb(p: &Picture) -> (r: Picture)
    ensures
        r.size() == p.size(),
{
    let rgb = p.image.to_rgb8();
    Picture { width: rgb.width(), height: rgb.height(), image: DynamicImage::ImageRgb8(rgb) }
}

/// Whether a step needs the floating-point filters (blur, unsharp mask),
/// which are supplied from outside this library.
pub open spec fn needs_filter(s: Step) -> bool {
    s is Blur || s is Sharpen
}

pub fn is_filter_step(s: &Step) -> (r: bool)
    ensures
        r == needs_filter(*s),
{
    match s {
        Step::Blur { .. } | Step::Sharpen => true,
        _ => false,
    }
}

/// No step of the plan needs a floating-point filter.
pub open spec fn filter_free(steps: Seq<Step>) -> bool {
    forall|k: int| 0 <= k < steps.len() ==> !needs_filter(#[trigger] steps[k])
}

/// Applies one step that needs no floating-point filter.
pub fn apply_step(p: Picture, step: &Step) -> (r: Picture)
    requires
        !needs_filter(*step),
        within_limits(*step),
    ensures
        r.size() == step_dims(*step, p.size().0, p.size().1),
{
    match *step {
        Step::Resize { width, height } => resize_lanczos(&p, width, height),
        Step::Crop { x, y, width, height } => crop(&p, x, y, width, height),
        Step::Rotate90 => rotate_quarter(&p, true),
        Step::Rotate270 => rotate_quarter(&p, false),
        Step::Invert => invert_rgba(&p),
        Step::DropAlpha => flatten_rgb(&p),
        Step::Blur { .. } | Step::Sharpen => p,
        _ => same_size_op(&p, *step),
    }
}

proof fn lemma_plan_dims_step(steps: Seq<Step>, k: int, w: int, h: int)
    requires
        0 <= k < steps.len(),
    ensures
        plan_dims(steps.subrange(0, k + 1), w, h) == step_dims(
            steps[k],
            plan_dims(steps.subrange(0, k), w, h).0,
            plan_dims(steps.subrange(0, k), w, h).1,
        ),
{
    assert(steps.subrange(0, k + 1).drop_last() =~= steps.subrange(0, k));
}

/// Applies `steps` in order, none of which needs a floating-point filter.
pub fn apply_steps(p: Picture, steps: &Vec<Step>) -> (r: Picture)
    requires
        filter_free(steps@),
        all_within_limits(steps@),
    ensures
        r.size() == plan_dims(steps@, p.size().0, p.size().1),
{
    let ghost (w, h) = p.size();
    let mut img = p;
    let mut k: usize = 0;
    assert(steps@.subrange(0, 0) =~= Seq::<Step>::empty());
    while k < steps.len()
        invariant
            k <= steps@.len(),
            filter_free(steps@),
            all_within_limits(steps@),
            img.size() == plan_dims(steps@.subrange(0, k as int), w, h),
        decreases steps@.len() - k,
    {
        proof {
            lemma_plan_dims_step(steps@, k as int, w, h);
        }
        img = apply_step(img, &steps[k]);
        k = k + 1;
    }
    assert(steps@.subrange(0, k as int) =~= steps@);
    img
}

/// Applies `steps` in order; the blur and unsharp-mask steps are handed to
/// `filter`, which supplies those two floating-point operations. A filter
/// that changes the size of the image is refused.
pub fn run_steps<F: Fn(DynamicImage, Step) -> DynamicImage>(
    p: Picture,
    steps: &Vec<Step>,
    filter: &F,
) -> (r: Result<Picture, AppError>)
    requires
        forall|i: DynamicImage, s: Step| needs_filter(s) ==> #[trigger] filter.requires((i, s)),
        all_within_limits(steps@),
    ensures
        r is Ok ==> r->Ok_0.size() == plan_dims(steps@, p.size().0, p.size().1),
        filter_free(steps@) ==> r is Ok,
        r is Err ==> r->Err_0 is ImageProcessingError,
{
    let ghost (w, h) = p.size();
    let mut img = p;
    let mut k: usize = 0;
    assert(steps@.subrange(0, 0) =~= Seq::<Step>::empty());
    while k < steps.len()
        invariant
            k <= steps@.len(),
            forall|i: DynamicImage, s: Step| needs_filter(s) ==> #[trigger] filter.requires((i, s)),
            all_within_limits(steps@),
            img.size() == plan_dims(steps@.subrange(0, k as int), w, h),
        decreases steps@.len() - k,
    {
        proof {
            lemma_plan_dims_step(steps@, k as int, w, h);
        }
        let s = steps[k];
        if is_filter_step(&s) {
            let (before_w, before_h) = (img.width(), img.height());
            let out = integer_storage(measure(filter(img.into_image(), s)));
            if out.width() != before_w || out.height() != before_h {
                return Err(AppError::ImageProcessingError(String::from_str("A filter changed the image size")));
            }
            img = out;
        } else {
            img = apply_step(img, &s);
        }
        k = k + 1;
    }
    assert(steps@.subrange(0, k as int) =~= steps@);
    Ok(img)
}

fn processing_error(e: &ImageError) -> (r: AppError)
    ensures
        r is ImageProcessingError,
{
    AppError::ImageProcessingError(error_text(e))
}

/// Decodes bytes that already passed validation.
pub fn load_image_from_bytes(data: &[u8]) -> (r: Result<Picture, AppError>)
    ensures
        r is Ok <==> decoded_size(data@) is Some,
        r is Ok ==> r->Ok_0.size() == as_size(decoded_size(data@)->0),
        r is Err ==> r->Err_0 is ImageProcessingError,
{
    match load_from_memory(data) {
        Ok(p) => Ok(integer_storage(p)),
        Err(e) => Err(processing_error(&e)),
    }
}

/// An upload within the size limit whose leading bytes name a known format.
pub open spec fn acceptable(data: Seq<u8>) -> bool {
    data.len() <= MAX_UPLOAD_SIZE && sniff(data) is Some
}

/// The outcome refuses an unacceptable upload with the right error.
pub open spec fn checks_upload<T>(data: Seq<u8>, r: Result<T, AppError>) -> bool {
    &&& data.len() > MAX_UPLOAD_SIZE ==> r is Err && r->Err_0 is FileTooLarge
    &&& data.len() <= MAX_UPLOAD_SIZE && sniff(data) is None ==> r is Err
        && r->Err_0 is UnsupportedImageFormat
}

/// Validates an upload, then decodes it. Nothing is decoded when the upload
/// is too large or of no recognised format.
pub fn load_upload(data: &[u8]) -> (r: Result<(ImageFormat, Picture), AppError>)
    ensures
        checks_upload(data@, r),
        acceptable(data@) ==> (r is Ok <==> decoded_size(data@) is Some),
        acceptable(data@) && r is Err ==> r->Err_0 is ImageProcessingError,
        r is Ok ==> r->Ok_0.0 == sniff(data@)->0 && r->Ok_0.1.size() == as_size(
            decoded_size(data@)->0,
        ),
{
    let format = match validate_upload(data) {
        Ok(f) => f,
        Err(e) => return Err(e),
    };
    match load_image_from_bytes(data) {
        Ok(img) => Ok((format, img)),
        Err(e) => Err(e),
    }
}

/// Encodes an image in `format`; the result is recognised as that format.
/// PNG always succeeds for an image with no empty side.
pub fn encode_image(p: &Picture, format: ImageFormat) -> (r: Result<Vec<u8>, AppError>)
    ensures
        r is Ok ==> sniff(r->Ok_0@) == Some(format),
        format == ImageFormat::Png && p.size().0 > 0 && p.size().1 > 0 ==> r is Ok,
        format == ImageFormat::Jpeg && jpeg_sized(p.size()) ==> r is Ok,
        format == ImageFormat::Png || format == ImageFormat::Jpeg ==> decodes_as(r, p.size()),
        r is Err ==> r->Err_0 is ImageProcessingError,
{
    match write_encoded(p, format) {
        Ok(bytes) => Ok(bytes),
        Err(e) => Err(processing_error(&e)),
    }
}

/// Encodes an image as JPEG at `quality`; the result is recognised as JPEG.
pub fn encode_jpeg(p: &Picture, quality: u8) -> (r: Result<Vec<u8>, AppError>)
    requires
        1 <= quality <= 100,
    ensures
        r is Ok ==> sniff(r->Ok_0@) == Some(ImageFormat::Jpeg),
        jpeg_sized(p.size()) ==> r is Ok,
        decodes_as(r, p.size()),
        r is Err ==> r->Err_0 is ImageProcessingError,
{
    match write_jpeg(p, quality) {
        Ok(bytes) => {
            proof {
                crate::format::lemma_sniff_after_signature(ImageFormat::Jpeg, bytes@);
            }
            Ok(bytes)
        },
        Err(e) => Err(processing_error(&e)),
    }
}

/// Converts an upload to the format named by `format`. The upload is
/// validated and the name resolved before anything is decoded, and the
/// result is recognised as the format asked for. A conversion to PNG of an upload that decodes to an image with no empty side succeeds,
/// and its result is recognised as PNG again; so does one to JPEG when both
/// sides are at most 65535.
pub fn convert_image(data: &[u8], format: &Option<String>) -> (r: Result<
    (ImageFormat, Vec<u8>),
    AppError,
>)
    ensures
        checks_upload(data@, r),
        acceptable(data@) && format is None ==> r is Err && r->Err_0 is MissingField
            && r->Err_0->MissingField_0@ == "format"@,
        acceptable(data@) && format is Some && format_named(format->0@) is None ==> r is Err
            && r->Err_0 is UnsupportedImageFormat,
        acceptable(data@) && format is Some && format_named(format->0@) is Some && r is Err
            ==> r->Err_0 is ImageProcessingError,
        acceptable(data@) && format is Some && format_named(format->0@) == Some(ImageFormat::Png)
            && decodes_nonempty(data@) ==> r is Ok,
        acceptable(data@) && format is Some && format_named(format->0@) == Some(ImageFormat::Jpeg)
            && decoded_size(data@) is Some && jpeg_sized(as_size(decoded_size(data@)->0)) ==> r is Ok,
        r is Ok ==> format is Some && r->Ok_0.0 == format_named(format->0@)->0,
        r is Ok ==> sniff(r->Ok_0.1@) == Some(r->Ok_0.0),
        acceptable(data@) && decoded_size(data@) is Some && format is Some && (format_named(
            format->0@,
        ) == Some(ImageFormat::Png) || format_named(format->0@) == Some(ImageFormat::Jpeg))
            ==> decodes_as(crate::engine::bytes_of(r), as_size(decoded_size(data@)->0)),
{
    if let Err(e) = validate_upload(data) {
        return Err(e);
    }
    let target = match format {
        Some(name) => match ImageFormat::from_name(name.as_str()) {
            Ok(f) => f,
            Err(e) => return Err(e),
        },
        None => return Err(AppError::MissingField(String::from_str("format"))),
    };
    let img = match load_image_from_bytes(data) {
        Ok(img) => img,
        Err(e) => return Err(e),
    };
    match encode_image(&img, target) {
        Ok(bytes) => Ok((target, bytes)),
        Err(e) => Err(e),
    }
}

} // verus!
