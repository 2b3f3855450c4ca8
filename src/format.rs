//! Image container formats: detection from leading bytes, names, extensions
//! and MIME types.
use vstd::prelude::*;
use crate::error::AppError;

verus! {

#[derive(Debug, Clone, Copy, PartialEq, Eq, Structural)]
pub enum ImageFormat {
    Jpeg,
    Png,
    Webp,
    Bmp,
    Tiff,
    Gif,
}

/// The container format that the leading bytes of `b` announce, if any.
pub open spec fn sniff(b: Seq<u8>) -> Option<ImageFormat> {
    if b.len() < 4 {
        None
    } else if b[0] == 0xFF && b[1] == 0xD8 && b[2] == 0xFF {
        Some(ImageFormat::Jpeg)
    } else if b[0] == 0x89 && b[1] == 0x50 && b[2] == 0x4E && b[3] == 0x47 {
        Some(ImageFormat::Png)
    } else if b[0] == 0x52 && b[1] == 0x49 && b[2] == 0x46 && b[3] == 0x46 && b.len() >= 12
        && b[8] == 0x57 && b[9] == 0x45 && b[10] == 0x42 && b[11] == 0x50 {
        Some(ImageFormat::Webp)
    } else if b[0] == 0x42 && b[1] == 0x4D {
        Some(ImageFormat::Bmp)
    } else if (b[0] == 0x49 && b[1] == 0x49) || (b[0] == 0x4D && b[1] == 0x4D) {
        Some(ImageFormat::Tiff)
    } else if b[0] == 0x47 && b[1] == 0x49 && b[2] == 0x46 && b[3] == 0x38 {
        Some(ImageFormat::Gif)
    } else {
        None
    }
}

/// The canonical leading bytes of a file in format `f`.
pub open spec fn signature(f: ImageFormat) -> Seq<u8> {
    match f {
        ImageFormat::Jpeg => seq![0xFFu8, 0xD8, 0xFF, 0xE0],
        ImageFormat::Png => seq![0x89u8, 0x50, 0x4E, 0x47, 0x0D, 0x0A, 0x1A, 0x0A],
        ImageFormat::Webp => seq![
            0x52u8, 0x49, 0x46, 0x46, 0, 0, 0, 0, 0x57, 0x45, 0x42, 0x50,
        ],
        ImageFormat::Bmp => seq![0x42u8, 0x4D, 0, 0],
        ImageFormat::Tiff => seq![0x49u8, 0x49, 0x2A, 0x00],
        ImageFormat::Gif => seq![0x47u8, 0x49, 0x46, 0x38, 0x39, 0x61],
    }
}

pub open spec fn extension_of(f: ImageFormat) -> Seq<char> {
    match f {
        ImageFormat::Jpeg => "jpg"@,
        ImageFormat::Png => "png"@,
        ImageFormat::Webp => "webp"@,
        ImageFormat::Bmp => "bmp"@,
        ImageFormat::Tiff => "tiff"@,
        ImageFormat::Gif => "gif"@,
    }
}

pub open spec fn mime_of(f: ImageFormat) -> Seq<char> {
    match f {
        ImageFormat::Jpeg => "image/jpeg"@,
        ImageFormat::Png => "image/png"@,
        ImageFormat::Webp => "image/webp"@,
        ImageFormat::Bmp => "image/bmp"@,
        ImageFormat::Tiff => "image/tiff"@,
        ImageFormat::Gif => "image/gif"@,
    }
}

/// `c` lowers to the ASCII character `l`: it is `l`, or `l` is a lower-case
/// letter and `c` its capital, or `l` is `k` and `c` the Kelvin sign, the one
/// other character whose lower case is an ASCII letter.
pub open spec fn char_folds_to(c: char, l: char) -> bool {
    c == l || ('a' <= l && l <= 'z' && (c as int) == (l as int) - 32) || (l == 'k' && (c as int)
        == 0x212A)
}

/// `s` equals the lower-case word `l` when ASCII case is ignored.
pub open spec fn folds_to(s: Seq<char>, l: Seq<char>) -> bool {
    s.len() == l.len() && forall|i: int| 0 <= i < s.len() ==> char_folds_to(#[trigger] s[i], l[i])
}

/// The output format that a user-supplied name selects, case ignored.
pub open spec fn format_named(s: Seq<char>) -> Option<ImageFormat> {
    if folds_to(s, "jpg"@) || folds_to(s, "jpeg"@) {
        Some(ImageFormat::Jpeg)
    } else if folds_to(s, "png"@) {
        Some(ImageFormat::Png)
    } else if folds_to(s, "webp"@) {
        Some(ImageFormat::Webp)
    } else if folds_to(s, "bmp"@) {
        Some(ImageFormat::Bmp)
    } else if folds_to(s, "tiff"@) || folds_to(s, "tif"@) {
        Some(ImageFormat::Tiff)
    } else if folds_to(s, "gif"@) {
        Some(ImageFormat::Gif)
    } else {
        None
    }
}

/// Whether `s` equals the lower-case word `l` when ASCII case is ignored.
pub fn folds_eq(s: &str, l: &str) -> (r: bool)
    ensures
        r == folds_to(s@, l@),
{
    let n = s.unicode_len();
    if n != l.unicode_len() {
        return false;
    }
    let mut i: usize = 0;
    while i < n
        invariant
            i <= n,
            n == s@.len(),
            n == l@.len(),
            forall|j: int| 0 <= j < i ==> char_folds_to(#[trigger] s@[j], l@[j]),
        decreases n - i,
    {
        let c = s.get_char(i);
        let d = l.get_char(i);
        let ok = c == d || ('a' <= d && d <= 'z' && (c as u32) + 32 == (d as u32)) || (d == 'k'
            && (c as u32) == 0x212A);
        if !ok {
            return false;
        }
        i = i + 1;
    }
    true
}

/// Every format is found again by sniffing its own signature.
pub proof fn lemma_signature_sniffed(f: ImageFormat)
    ensures
        sniff(signature(f)) == Some(f),
{
}

/// Every byte string that starts with a format's signature sniffs as that
/// format: an encoder that writes the signature first produces bytes that are
/// recognised as what was asked for.
pub proof fn lemma_sniff_after_signature(f: ImageFormat, b: Seq<u8>)
    requires
        b.len() >= signature(f).len(),
        b.subrange(0, signature(f).len() as int) == signature(f),
    ensures
        sniff(b) == Some(f),
{
    let sig = signature(f);
    assert(forall|i: int| 0 <= i < sig.len() ==> b[i] == #[trigger] sig[i]) by {
        assert forall|i: int| 0 <= i < sig.len() implies b[i] == #[trigger] sig[i] by {
            assert(b.subrange(0, sig.len() as int)[i] == b[i]);
        }
    }
    assert(b[0] == sig[0] && b[1] == sig[1] && b[2] == sig[2] && b[3] == sig[3]);
    if f == ImageFormat::Webp {
        assert(b[8] == sig[8] && b[9] == sig[9] && b[10] == sig[10] && b[11] == sig[11]);
    }
}

impl ImageFormat {
    /// Detects the format from the magic numbers at the start of `bytes`.
    pub fn from_magic_bytes(bytes: &[u8]) -> (r: Option<ImageFormat>)
        ensures
            r == sniff(bytes@),
    {
        let n = bytes.len();
        if n < 4 {
            return None;
        }
        let (b0, b1, b2, b3) = (bytes[0], bytes[1], bytes[2], bytes[3]);
        if b0 == 0xFF && b1 == 0xD8 && b2 == 0xFF {
            Some(ImageFormat::Jpeg)
        } else if b0 == 0x89 && b1 == 0x50 && b2 == 0x4E && b3 == 0x47 {
            Some(ImageFormat::Png)
        } else if b0 == 0x52 && b1 == 0x49 && b2 == 0x46 && b3 == 0x46 && n >= 12 && bytes[8]
            == 0x57 && bytes[9] == 0x45 && bytes[10] == 0x42 && bytes[11] == 0x50 {
            Some(ImageFormat::Webp)
        } else if b0 == 0x42 && b1 == 0x4D {
            Some(ImageFormat::Bmp)
        } else if (b0 == 0x49 && b1 == 0x49) || (b0 == 0x4D && b1 == 0x4D) {
            Some(ImageFormat::Tiff)
        } else if b0 == 0x47 && b1 == 0x49 && b2 == 0x46 && b3 == 0x38 {
            Some(ImageFormat::Gif)
        } else {
            None
        }
    }

    /// The canonical file extension, without the dot.
    pub fn extension(&self) -> (r: &'static str)
        ensures
            r@ == extension_of(*self),
    {
        match self {
            ImageFormat::Jpeg => "jpg",
            ImageFormat::Png => "png",
            ImageFormat::Webp => "webp",
            ImageFormat::Bmp => "bmp",
            ImageFormat::Tiff => "tiff",
            ImageFormat::Gif => "gif",
        }
    }

    /// The MIME type of the format.
    pub fn mime_type(&self) -> (r: &'static str)
        ensures
            r@ == mime_of(*self),
    {
        match self {
            ImageFormat::Jpeg => "image/jpeg",
            ImageFormat::Png => "image/png",
            ImageFormat::Webp => "image/webp",
            ImageFormat::Bmp => "image/bmp",
            ImageFormat::Tiff => "image/tiff",
            ImageFormat::Gif => "image/gif",
        }
    }

    /// Selects an output format by name, ignoring case; an unknown name is
    /// `UnsupportedImageFormat`.
    pub fn from_name(s: &str) -> (r: Result<ImageFormat, AppError>)
        ensures
            r is Ok <==> format_named(s@) is Some,
            r is Ok ==> r->Ok_0 == format_named(s@)->0,
            r is Err ==> r->Err_0 is UnsupportedImageFormat,
    {
        if folds_eq(s, "jpg") || folds_eq(s, "jpeg") {
            Ok(ImageFormat::Jpeg)
        } else if folds_eq(s, "png") {
            Ok(ImageFormat::Png)
        } else if folds_eq(s, "webp") {
            Ok(ImageFormat::Webp)
        } else if folds_eq(s, "bmp") {
            Ok(ImageFormat::Bmp)
        } else if folds_eq(s, "tiff") || folds_eq(s, "tif") {
            Ok(ImageFormat::Tiff)
        } else if folds_eq(s, "gif") {
            Ok(ImageFormat::Gif)
        } else {
            Err(AppError::UnsupportedImageFormat)
        }
    }
}

impl std::str::FromStr for ImageFormat {
    type Err = AppError;

    fn from_str(s: &str) -> (r: Result<ImageFormat, AppError>)
        ensures
            r is Ok <==> format_named(s@) is Some,
            r is Ok ==> r->Ok_0 == format_named(s@)->0,
            r is Err ==> r->Err_0 is UnsupportedImageFormat,
    {
        ImageFormat::from_name(s)
    }
}

} // verus!
