//! Checks on uploads and on the ratio and region strings of requests.
use vstd::prelude::*;
use crate::error::AppError;
use crate::format::{ImageFormat, sniff};
use crate::text::{parse_u32, parse_u32_spec, split_by, split_on, views_of};

verus! {

/// The largest upload accepted: 20 MiB.
pub const MAX_UPLOAD_SIZE: usize = 20971520;

/// Checks the size of an upload and detects its format. An upload over the
/// limit is refused before its bytes are looked at.
pub fn validate_upload(data: &[u8]) -> (r: Result<ImageFormat, AppError>)
    ensures
        data@.len() > MAX_UPLOAD_SIZE ==> r is Err && r->Err_0 is FileTooLarge,
        data@.len() <= MAX_UPLOAD_SIZE ==> (r is Ok <==> sniff(data@) is Some),
        data@.len() <= MAX_UPLOAD_SIZE && r is Ok ==> r->Ok_0 == sniff(data@)->0,
        data@.len() <= MAX_UPLOAD_SIZE && r is Err ==> r->Err_0 is UnsupportedImageFormat,
{
    if data.len() > MAX_UPLOAD_SIZE {
        return Err(AppError::FileTooLarge);
    }
    match ImageFormat::from_magic_bytes(data) {
        Some(format) => Ok(format),
        None => Err(AppError::UnsupportedImageFormat),
    }
}

/// The pair that a `"w:h"` string names: two numbers, neither zero.
pub open spec fn ratio_spec(s: Seq<char>) -> Option<(u32, u32)> {
    let p = split_on(s, ':');
    if p.len() == 2 {
        match (parse_u32_spec(p[0]), parse_u32_spec(p[1])) {
            (Some(w), Some(h)) => if w > 0 && h > 0 {
                Some((w, h))
            } else {
                None
            },
            _ => None,
        }
    } else {
        None
    }
}

/// The box that an `"x,y,w,h"` string names: four numbers, `w` and `h` not zero.
pub open spec fn region_spec(s: Seq<char>) -> Option<(u32, u32, u32, u32)> {
    let p = split_on(s, ',');
    if p.len() == 4 {
        match (parse_u32_spec(p[0]), parse_u32_spec(p[1]), parse_u32_spec(p[2]), parse_u32_spec(p[3])) {
            (Some(x), Some(y), Some(w), Some(h)) => if w > 0 && h > 0 {
                Some((x, y, w, h))
            } else {
                None
            },
            _ => None,
        }
    } else {
        None
    }
}

fn invalid(msg: &str) -> (r: AppError)
    ensures
        r is InvalidFieldValue,
        r->InvalidFieldValue_0@ == msg@,
{
    AppError::InvalidFieldValue(String::from_str(msg))
}

/// Parses an aspect ratio written `"w:h"`.
pub fn parse_crop_ratio(ratio: &str) -> (r: Result<(u32, u32), AppError>)
    ensures
        r is Ok <==> ratio_spec(ratio@) is Some,
        r is Ok ==> r->Ok_0 == ratio_spec(ratio@)->0,
        r is Err ==> r->Err_0 is InvalidFieldValue,
{
    let parts = split_by(ratio, ':');
    proof {
        assert(views_of(parts@).len() == parts@.len());
    }
    if parts.len() != 2 {
        return Err(invalid("Invalid ratio format. Expected 'width:height'"));
    }
    assert(views_of(parts@)[0] == parts@[0]@);
    assert(views_of(parts@)[1] == parts@[1]@);
    let width = match parse_u32(parts[0]) {
        Some(v) => v,
        None => return Err(invalid("Invalid width in ratio")),
    };
    let height = match parse_u32(parts[1]) {
        Some(v) => v,
        None => return Err(invalid("Invalid height in ratio")),
    };
    if width == 0 || height == 0 {
        return Err(invalid("Ratio dimensions must be greater than 0"));
    }
    Ok((width, height))
}

/// The message with which a region is refused: the first thing wrong with it.
pub open spec fn region_error(s: Seq<char>) -> Seq<char> {
    let p = split_on(s, ',');
    if p.len() != 4 {
        "Invalid region format. Expected 'x,y,w,h'"@
    } else if parse_u32_spec(p[0]) is None {
        "Invalid x coordinate"@
    } else if parse_u32_spec(p[1]) is None {
        "Invalid y coordinate"@
    } else if parse_u32_spec(p[2]) is None {
        "Invalid width"@
    } else if parse_u32_spec(p[3]) is None {
        "Invalid height"@
    } else {
        "Region dimensions must be greater than 0"@
    }
}

/// Parses a region written `"x,y,w,h"`.
pub fn parse_region(region: &str) -> (r: Result<(u32, u32, u32, u32), AppError>)
    ensures
        r is Ok <==> region_spec(region@) is Some,
        r is Ok ==> r->Ok_0 == region_spec(region@)->0,
        r is Err ==> r->Err_0 is InvalidFieldValue && r->Err_0->InvalidFieldValue_0@ == region_error(
            region@,
        ),
{
    let parts = split_by(region, ',');
    proof {
        assert(views_of(parts@).len() == parts@.len());
    }
    if parts.len() != 4 {
        return Err(invalid("Invalid region format. Expected 'x,y,w,h'"));
    }
    assert(views_of(parts@)[0] == parts@[0]@);
    assert(views_of(parts@)[1] == parts@[1]@);
    assert(views_of(parts@)[2] == parts@[2]@);
    assert(views_of(parts@)[3] == parts@[3]@);
    let x = match parse_u32(parts[0]) {
        Some(v) => v,
        None => return Err(invalid("Invalid x coordinate")),
    };
    let y = match parse_u32(parts[1]) {
        Some(v) => v,
        None => return Err(invalid("Invalid y coordinate")),
    };
    let w = match parse_u32(parts[2]) {
        Some(v) => v,
        None => return Err(invalid("Invalid width")),
    };
    let h = match parse_u32(parts[3]) {
        Some(v) => v,
        None => return Err(invalid("Invalid height")),
    };
    if w == 0 || h == 0 {
        return Err(invalid("Region dimensions must be greater than 0"));
    }
    Ok((x, y, w, h))
}

} // verus!
