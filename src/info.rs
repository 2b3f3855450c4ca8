//! The read-only summary of an uploaded image, and the list of tools offered.
use vstd::prelude::*;
use crate::format::ImageFormat;
use crate::text::{decimal_spec, decimal_string, digit_char, split_by, split_on, views_of, lemma_split_on_nonempty};

verus! {

/// How the pixels of a decoded image are stored.
#[derive(Debug, Clone, Copy, PartialEq, Eq, Structural)]
pub enum ColorMode {
    Gray,
    GrayAlpha,
    Rgb,
    Rgba,
    Other,
}

pub open spec fn mode_label(m: ColorMode) -> Seq<char> {
    match m {
        ColorMode::Gray => "L"@,
        ColorMode::GrayAlpha => "LA"@,
        ColorMode::Rgb => "RGB"@,
        ColorMode::Rgba => "RGBA"@,
        ColorMode::Other => "Unknown"@,
    }
}

/// A summary of an image and of the upload it came from.
#[derive(Debug, Clone)]
pub struct ImageInfo {
    pub file: String,
    pub format: String,
    pub dimensions: String,
    pub width: u32,
    pub height: u32,
    pub mode: String,
    pub file_size: u64,
    pub file_size_human: String,
}

/// `1024` to the power `k`.
pub open spec fn pow1024(k: nat) -> nat
    decreases k,
{
    if k == 0 {
        1
    } else {
        1024 * pow1024((k - 1) as nat)
    }
}

/// How many times a size is divided by 1024 before it is shown: until it is
/// under 1024, at most three times.
pub open spec fn unit_index(s: nat) -> nat {
    if s < 1024 {
        0
    } else if s < 1024 * 1024 {
        1
    } else if s < 1024 * 1024 * 1024 {
        2
    } else {
        3
    }
}

pub open spec fn unit_label(k: nat) -> Seq<char> {
    if k == 0 {
        "B"@
    } else if k == 1 {
        "KB"@
    } else if k == 2 {
        "MB"@
    } else {
        "GB"@
    }
}

/// `n / d` rounded to the nearest integer, a tie going to the even one.
pub open spec fn div_round_even(n: nat, d: nat) -> nat {
    let q = n / d;
    let r = n % d;
    if 2 * r > d || (2 * r == d && q % 2 == 1) {
        q + 1
    } else {
        q
    }
}

/// A byte count for people: whole bytes under 1 KB, else the value in the
/// largest unit up to GB with one decimal.
pub open spec fn size_text(s: nat) -> Seq<char> {
    let k = unit_index(s);
    if k == 0 {
        decimal_spec(s) + " B"@
    } else {
        let t = div_round_even(s * 10, pow1024(k));
        decimal_spec(t / 10) + "."@ + seq![digit_char(t % 10)] + " "@ + unit_label(k)
    }
}

/// Renders a byte count as `"512 B"`, `"1.5 KB"`, `"20.0 MB"` and the like.
pub fn format_file_size(size: u64) -> (r: String)
    ensures
        r@ == size_text(size as nat),
{
    if size < 1024 {
        let mut r = decimal_string(size);
        r.append(" B");
        return r;
    }
    let (d, unit): (u128, &str) = if size < 1048576 {
        (1024, "KB")
    } else if size < 1073741824 {
        (1048576, "MB")
    } else {
        (1073741824, "GB")
    };
    proof {
        reveal_with_fuel(pow1024, 4);
        assert(pow1024(unit_index(size as nat)) == d);
    }
    let n: u128 = size as u128 * 10;
    let q: u128 = n / d;
    let rem: u128 = n % d;
    let t: u128 = if 2 * rem > d || (2 * rem == d && q % 2 == 1) { q + 1 } else { q };
    assert(q <= n);
    let mut r = decimal_string((t / 10) as u64);
    r.append(".");
    let digit = decimal_string((t % 10) as u64);
    r.append(digit.as_str());
    r.append(" ");
    r.append(unit);
    proof {
        assert(decimal_spec((t % 10) as nat) == seq![digit_char((t % 10) as nat)]);
    }
    r
}

/// The name under which a detected format is reported.
pub open spec fn format_label(f: ImageFormat) -> Seq<char> {
    match f {
        ImageFormat::Jpeg => "JPEG"@,
        ImageFormat::Png => "PNG"@,
        ImageFormat::Webp => "WEBP"@,
        ImageFormat::Bmp => "BMP"@,
        ImageFormat::Tiff => "TIFF"@,
        ImageFormat::Gif => "GIF"@,
    }
}

fn format_text(f: ImageFormat) -> (r: &'static str)
    ensures
        r@ == format_label(f),
{
    match f {
        ImageFormat::Jpeg => "JPEG",
        ImageFormat::Png => "PNG",
        ImageFormat::Webp => "WEBP",
        ImageFormat::Bmp => "BMP",
        ImageFormat::Tiff => "TIFF",
        ImageFormat::Gif => "GIF",
    }
}

fn mode_text(m: ColorMode) -> (r: &'static str)
    ensures
        r@ == mode_label(m),
{
    match m {
        ColorMode::Gray => "L",
        ColorMode::GrayAlpha => "LA",
        ColorMode::Rgb => "RGB",
        ColorMode::Rgba => "RGBA",
        ColorMode::Other => "Unknown",
    }
}

/// Summarises a decoded `width`×`height` image stored as `mode`, detected as
/// `format`, uploaded under `upload_name` with `upload_size` bytes.
pub fn get_image_info(
    width: u32,
    height: u32,
    mode: ColorMode,
    format: ImageFormat,
    upload_name: &str,
    upload_size: u64,
) -> (r: ImageInfo)
    ensures
        r.width == width,
        r.height == height,
        r.file@ == split_on(upload_name@, '/').last(),
        r.format@ == format_label(format),
        r.dimensions@ == decimal_spec(width as nat) + "x"@ + decimal_spec(height as nat),
        r.mode@ == mode_label(mode),
        r.file_size == upload_size,
        r.file_size_human@ == size_text(upload_size as nat),
{
    let parts = split_by(upload_name, '/');
    proof {
        lemma_split_on_nonempty(upload_name@, '/');
        assert(views_of(parts@).len() == parts@.len());
        assert(views_of(parts@)[parts@.len() - 1] == parts@[parts@.len() - 1]@);
    }
    let file = String::from_str(parts[parts.len() - 1]);
    let mut dimensions = decimal_string(width as u64);
    dimensions.append("x");
    let h = decimal_string(height as u64);
    dimensions.append(h.as_str());
    ImageInfo {
        file,
        format: String::from_str(format_text(format)),
        dimensions,
        width,
        height,
        mode: String::from_str(mode_text(mode)),
        file_size: upload_size,
        file_size_human: format_file_size(upload_size),
    }
}

/// One operation that the service offers.
#[derive(Debug, Clone)]
pub struct Tool {
    pub name: String,
    pub description: String,
}

pub open spec fn tool_names() -> Seq<Seq<char>> {
    seq![
        "compress"@, "resize"@, "crop"@, "rotate"@, "convert"@, "info"@, "metadata"@,
        "watermark"@, "blur-face"@, "remove-bg"@, "upscale"@, "meme"@, "edit"@, "html-to-img"@,
    ]
}

fn tool(name: &str, description: &str) -> (r: Tool)
    ensures
        r.name@ == name@,
        r.description@ == description@,
{
    Tool { name: String::from_str(name), description: String::from_str(description) }
}

/// The operations offered, in the order they are listed to users.
pub fn get_tools() -> (r: Vec<Tool>)
    ensures
        r@.len() == tool_names().len(),
        forall|i: int| 0 <= i < r@.len() ==> (#[trigger] r@[i]).name@ == tool_names()[i],
{
    let mut v: Vec<Tool> = Vec::new();
    v.push(tool("compress", "Compress images by reducing quality"));
    v.push(tool("resize", "Resize images by dimensions or percentage"));
    v.push(tool("crop", "Crop images by coordinates or aspect ratio"));
    v.push(tool("rotate", "Rotate images by degrees or auto-orient"));
    v.push(tool("convert", "Convert images between formats"));
    v.push(tool("info", "Get image info (dimensions, format, size, mode)"));
    v.push(tool("metadata", "View or strip EXIF metadata"));
    v.push(tool("watermark", "Add text or image watermarks"));
    v.push(tool("blur-face", "Detect and blur faces"));
    v.push(tool("remove-bg", "Remove image background"));
    v.push(tool("upscale", "Upscale images with LANCZOS resampling"));
    v.push(tool("meme", "Add meme text (top/bottom)"));
    v.push(tool("edit", "Photo editor: brightness, contrast, filters, borders, etc."));
    v.push(tool("html-to-img", "Screenshot a URL (not available in web mode)"));
    v
}

} // verus!
