//! Turns the raw string fields of a request into a plan of primitive steps.
//!
//! A numeric field that is absent counts as unset; one that is present but
//! does not read as a number is an invalid value.
use vstd::prelude::*;
use crate::error::AppError;
use crate::plan::{Step, plan_dims, lemma_plan_dims_single};
use crate::text::{
    pow10, parse_bool, parse_bool_spec, parse_i32, parse_i32_spec, parse_u32, parse_u32_spec, str_eq,
};
use crate::decimal::{
    brightness_magnitude, brightness_steps_of, decimal_of, parse_decimal, percent_scaled,
    percent_side, small_whole, whole_of,
};
use crate::validation::{parse_crop_ratio, parse_region, ratio_spec, region_error, region_spec};

verus! {

/// The number in an optional field; unset when absent or unreadable.
pub open spec fn num_of(f: Option<String>) -> Option<u32> {
    match f {
        Some(s) => parse_u32_spec(s@),
        None => None,
    }
}

pub fn num_field(f: &Option<String>) -> (r: Option<u32>)
    ensures
        r == num_of(*f),
{
    match f {
        Some(s) => parse_u32(s.as_str()),
        None => None,
    }
}

/// A numeric field that is present but does not read as a number.
pub open spec fn bad_num(f: Option<String>) -> bool {
    f is Some && parse_u32_spec(f->0@) is None
}

pub fn num_ok(f: &Option<String>) -> (r: bool)
    ensures
        r == !bad_num(*f),
{
    match f {
        Some(s) => parse_u32(s.as_str()).is_some(),
        None => true,
    }
}

fn bad_value(field: &str) -> (r: AppError)
    ensures
        r is InvalidFieldValue,
        r->InvalidFieldValue_0@ == field@,
{
    AppError::InvalidFieldValue(String::from_str(field))
}

/// The outcome is an invalid value that names the field `n`.
pub open spec fn invalid_named<T>(r: Result<T, AppError>, n: Seq<char>) -> bool {
    r is Err && r->Err_0 is InvalidFieldValue && r->Err_0->InvalidFieldValue_0@ == n
}

/// `n`, or the largest `u32` where `n` is larger.
pub open spec fn sat(n: int) -> int {
    if n > u32::MAX {
        u32::MAX as int
    } else {
        n
    }
}

fn sat_u64(n: u64) -> (r: u32)
    ensures
        r == sat(n as int),
{
    if n > 0xFFFF_FFFF {
        0xFFFF_FFFF
    } else {
        n as u32
    }
}

/// The product of two `u32`, which always fits in a `u64`.
fn wide_mul(a: u32, b: u32) -> (r: u64)
    ensures
        r == a as int * b as int,
{
    assert(a as int * b as int <= 0xFFFF_FFFF * 0xFFFF_FFFF) by (nonlinear_arith)
        requires a <= 0xFFFF_FFFF, b <= 0xFFFF_FFFF;
    a as u64 * b as u64
}

/// The percentage in an optional field, as `(negative, m, e)` meaning
/// `±m · 10^e` percent; unset when absent or unreadable.
pub open spec fn percent_of(f: Option<String>) -> Option<(bool, nat, int)> {
    match f {
        Some(s) => decimal_of(s@),
        None => None,
    }
}

/// The raw fields of a resize request.
pub struct ResizeFields {
    pub width: Option<String>,
    pub height: Option<String>,
    pub percentage: Option<String>,
    pub max_size: Option<String>,
}

/// The size a resize request asks for on an image of size `(w, h)`:
/// a percentage first, else a bound on the longer side (never enlarging),
/// else explicit sides, a missing one derived so that the aspect is kept.
pub open spec fn resize_target(f: ResizeFields, w: int, h: int) -> (int, int) {
    if percent_of(f.percentage) is Some {
        let x = percent_of(f.percentage)->0;
        (sat(percent_scaled(w, x)), sat(percent_scaled(h, x)))
    } else if num_of(f.max_size) is Some {
        let m = num_of(f.max_size)->0 as int;
        let big = if w >= h { w } else { h };
        if m < big {
            (w * m / big, h * m / big)
        } else {
            (w, h)
        }
    } else {
        match (num_of(f.width), num_of(f.height)) {
            (Some(a), None) => (a as int, if w == 0 { 0 } else { sat(a * h / w) }),
            (None, Some(b)) => (if h == 0 { 0 } else { sat(b * w / h) }, b as int),
            (Some(a), Some(b)) => (a as int, b as int),
            (None, None) => (w, h),
        }
    }
}

/// Some field of a resize request is present but unreadable.
pub open spec fn resize_malformed(f: ResizeFields) -> bool {
    bad_num(f.width) || bad_num(f.height) || bad_num(f.max_size) || (f.percentage is Some
        && decimal_of(f.percentage->0@) is None)
}

/// Plans a resize. A malformed field, or a resolved size with a zero side,
/// is refused.
pub fn plan_resize(f: &ResizeFields, w: u32, h: u32) -> (r: Result<Vec<Step>, AppError>)
    ensures
        ({
            let t = resize_target(*f, w as int, h as int);
            &&& r is Ok <==> (!resize_malformed(*f) && t.0 > 0 && t.1 > 0)
            &&& bad_num(f.width) ==> invalid_named(r, "width"@)
            &&& !bad_num(f.width) && bad_num(f.height) ==> invalid_named(r, "height"@)
            &&& !bad_num(f.width) && !bad_num(f.height) && bad_num(f.max_size) ==> invalid_named(
                r,
                "max_size"@,
            )
            &&& !bad_num(f.width) && !bad_num(f.height) && !bad_num(f.max_size) && resize_malformed(*f)
                ==> invalid_named(r, "percentage"@)
            &&& r is Ok ==> r->Ok_0@ == seq![Step::Resize { width: t.0 as u32, height: t.1 as u32 }]
            &&& r is Err ==> r->Err_0 is InvalidFieldValue
        }),
{
    if !num_ok(&f.width) {
        return Err(bad_value("width"));
    }
    if !num_ok(&f.height) {
        return Err(bad_value("height"));
    }
    if !num_ok(&f.max_size) {
        return Err(bad_value("max_size"));
    }
    let pct = match &f.percentage {
        Some(s) => match parse_decimal(s.as_str()) {
            Some(p) => Some(p),
            None => return Err(bad_value("percentage")),
        },
        None => None,
    };
    let max = num_field(&f.max_size);
    let (nw, nh): (u32, u32) = match pct {
        Some((neg, m, e)) => (percent_side(w, neg, m, e), percent_side(h, neg, m, e)),
        None => match max {
            Some(m) => {
                let big: u32 = if w >= h { w } else { h };
                if m < big {
                    assert(w as int * m as int / big as int <= w) by (nonlinear_arith)
                        requires m < big, w <= big, big > 0;
                    assert(h as int * m as int / big as int <= h) by (nonlinear_arith)
                        requires m < big, h <= big, big > 0;
                    ((wide_mul(w, m) / big as u64) as u32, (wide_mul(h, m) / big as u64) as u32)
                } else {
                    (w, h)
                }
            },
            None => {
                let wf = num_field(&f.width);
                let hf = num_field(&f.height);
                match (wf, hf) {
                    (Some(a), None) => (a, if w == 0 { 0 } else { sat_u64(wide_mul(a, h) / w as u64) }),
                    (None, Some(b)) => (if h == 0 { 0 } else { sat_u64(wide_mul(b, w) / h as u64) }, b),
                    (Some(a), Some(b)) => (a, b),
                    (None, None) => (w, h),
                }
            },
        },
    };
    if nw == 0 || nh == 0 {
        return Err(AppError::InvalidFieldValue(String::from_str("Resize dimensions must be greater than 0")));
    }
    let mut steps: Vec<Step> = Vec::new();
    steps.push(Step::Resize { width: nw, height: nh });
    Ok(steps)
}

/// A bound on the longer side never enlarges: both sides stay at most what
/// they were.
pub proof fn lemma_max_size_never_enlarges(f: ResizeFields, w: int, h: int)
    requires
        w >= 0,
        h >= 0,
        percent_of(f.percentage) is None,
        num_of(f.max_size) is Some,
    ensures
        resize_target(f, w, h).0 <= w,
        resize_target(f, w, h).1 <= h,
{
    let m = num_of(f.max_size)->0 as int;
    let big = if w >= h { w } else { h };
    if m < big {
        assert(w * m / big <= w) by (nonlinear_arith)
            requires m < big, 0 <= w <= big, big > 0, m >= 0;
        assert(h * m / big <= h) by (nonlinear_arith)
            requires m < big, 0 <= h <= big, big > 0, m >= 0;
    }
}

/// Every size a resize resolves to fits a `u32`.
pub proof fn lemma_resize_target_range(f: ResizeFields, w: int, h: int)
    requires
        0 <= w <= u32::MAX,
        0 <= h <= u32::MAX,
    ensures
        0 <= resize_target(f, w, h).0 <= u32::MAX,
        0 <= resize_target(f, w, h).1 <= u32::MAX,
{
    if percent_of(f.percentage) is Some {
        let (neg, m, e) = percent_of(f.percentage)->0;
        if !neg {
            if e >= 2 {
                assert(w * m * pow10((e - 2) as nat) >= 0) by (nonlinear_arith)
                    requires w >= 0, m >= 0;
                assert(h * m * pow10((e - 2) as nat) >= 0) by (nonlinear_arith)
                    requires h >= 0, m >= 0;
            } else {
                lemma_pow10_positive((2 - e) as nat);
                let d = pow10((2 - e) as nat) as int;
                assert((w * m) / d >= 0) by (nonlinear_arith)
                    requires w >= 0, m >= 0, d > 0;
                assert((h * m) / d >= 0) by (nonlinear_arith)
                    requires h >= 0, m >= 0, d > 0;
            }
        }
    } else if num_of(f.max_size) is Some {
        lemma_max_size_never_enlarges(f, w, h);
        let m = num_of(f.max_size)->0 as int;
        let big = if w >= h { w } else { h };
        if m < big {
            assert(w * m / big >= 0) by (nonlinear_arith)
                requires w >= 0, m >= 0, big > 0;
            assert(h * m / big >= 0) by (nonlinear_arith)
                requires h >= 0, m >= 0, big > 0;
        }
    } else {
        match (num_of(f.width), num_of(f.height)) {
            (Some(a), None) => {
                if w != 0 {
                    assert(a * h / w >= 0) by (nonlinear_arith)
                        requires a >= 0, h >= 0, w > 0;
                }
            },
            (None, Some(b)) => {
                if h != 0 {
                    assert(b * w / h >= 0) by (nonlinear_arith)
                        requires b >= 0, w >= 0, h > 0;
                }
            },
            _ => {},
        }
    }
}

proof fn lemma_pow10_positive(k: nat)
    ensures
        pow10(k) >= 1,
    decreases k,
{
    if k > 0 {
        lemma_pow10_positive((k - 1) as nat);
    }
}

/// The raw fields of a crop request.
pub struct CropFields {
    pub x: Option<String>,
    pub y: Option<String>,
    pub width: Option<String>,
    pub height: Option<String>,
    pub ratio: Option<String>,
}

/// The largest box of aspect `rw:rh` centred in a `w`×`h` image, as
/// `(x, y, width, height)`.
pub open spec fn ratio_box(rw: int, rh: int, w: int, h: int) -> (int, int, int, int) {
    let (cw, ch) = if w * rh > rw * h {
        (h * rw / rh, h)
    } else {
        (w, w * rh / rw)
    };
    ((w - cw) / 2, (h - ch) / 2, cw, ch)
}

/// The box of a ratio crop lies inside the image, with the leftover space
/// split evenly on both sides (the odd pixel, if any, after it).
pub proof fn lemma_ratio_box_fits(rw: int, rh: int, w: int, h: int)
    requires
        rw > 0,
        rh > 0,
        w >= 0,
        h >= 0,
    ensures
        ({
            let (x, y, cw, ch) = ratio_box(rw, rh, w, h);
            &&& 0 <= cw <= w && 0 <= ch <= h
            &&& x >= 0 && y >= 0 && x + cw <= w && y + ch <= h
            &&& w - cw - 2 * x == (w - cw) % 2 && h - ch - 2 * y == (h - ch) % 2
            &&& (cw == w || ch == h)
        }),
{
    if w * rh > rw * h {
        assert(0 <= h * rw / rh <= w) by (nonlinear_arith)
            requires w * rh > rw * h, rh > 0, rw > 0, h >= 0;
    } else {
        assert(0 <= w * rh / rw <= h) by (nonlinear_arith)
            requires w * rh <= rw * h, rw > 0, rh > 0, w >= 0;
    }
}

/// What a crop request asks for on a `w`×`h` image: `Ok` holds the box as
/// `(x, y, width, height)`; `Err(())` a malformed ratio or a box that leaves
/// the image.
pub open spec fn crop_box(f: CropFields, w: int, h: int) -> Result<(int, int, int, int), ()> {
    match f.ratio {
        Some(s) => match ratio_spec(s@) {
            Some((rw, rh)) => Ok(ratio_box(rw as int, rh as int, w, h)),
            None => Err(()),
        },
        None => {
            let x = match num_of(f.x) { Some(v) => v as int, None => 0 };
            let y = match num_of(f.y) { Some(v) => v as int, None => 0 };
            let cw = match num_of(f.width) { Some(v) => v as int, None => if x <= w { w - x } else { 0 } };
            let ch = match num_of(f.height) { Some(v) => v as int, None => if y <= h { h - y } else { 0 } };
            if x + cw > w || y + ch > h {
                Err(())
            } else {
                Ok((x, y, cw, ch))
            }
        },
    }
}

/// Plans a crop, by centred aspect ratio when `ratio` is given, else by
/// coordinates whose unset size reaches the far edge.
pub fn plan_crop(f: &CropFields, w: u32, h: u32) -> (r: Result<Vec<Step>, AppError>)
    ensures
        ({
            let b = crop_box(*f, w as int, h as int);
            let bad = bad_num(f.x) || bad_num(f.y) || bad_num(f.width) || bad_num(f.height);
            &&& r is Ok <==> (!bad && b is Ok)
            &&& bad_num(f.x) ==> invalid_named(r, "x"@)
            &&& !bad_num(f.x) && bad_num(f.y) ==> invalid_named(r, "y"@)
            &&& !bad_num(f.x) && !bad_num(f.y) && bad_num(f.width) ==> invalid_named(r, "width"@)
            &&& !bad_num(f.x) && !bad_num(f.y) && !bad_num(f.width) && bad_num(f.height)
                ==> invalid_named(r, "height"@)
            &&& r is Ok ==> r->Ok_0@ == seq![Step::Crop {
                x: b->Ok_0.0 as u32,
                y: b->Ok_0.1 as u32,
                width: b->Ok_0.2 as u32,
                height: b->Ok_0.3 as u32,
            }]
            &&& r is Err ==> r->Err_0 is InvalidFieldValue
        }),
{
    if !num_ok(&f.x) {
        return Err(bad_value("x"));
    }
    if !num_ok(&f.y) {
        return Err(bad_value("y"));
    }
    if !num_ok(&f.width) {
        return Err(bad_value("width"));
    }
    if !num_ok(&f.height) {
        return Err(bad_value("height"));
    }
    let mut steps: Vec<Step> = Vec::new();
    match &f.ratio {
        Some(s) => {
            let (rw, rh) = match parse_crop_ratio(s.as_str()) {
                Ok(p) => p,
                Err(e) => return Err(e),
            };
            let (w64, h64, rw64, rh64) = (w as u64, h as u64, rw as u64, rh as u64);
            let (cw, ch): (u32, u32) = if wide_mul(w, rh) > wide_mul(rw, h) {
                assert((h64 as int) * (rw64 as int) / (rh64 as int) <= w64 as int) by (nonlinear_arith)
                    requires (w64 as int) * (rh64 as int) > (rw64 as int) * (h64 as int), rh64 > 0;
                ((wide_mul(h, rw) / rh64) as u32, h)
            } else {
                assert((w64 as int) * (rh64 as int) / (rw64 as int) <= h64 as int) by (nonlinear_arith)
                    requires (w64 as int) * (rh64 as int) <= (rw64 as int) * (h64 as int), rw64 > 0;
                (w, (wide_mul(w, rh) / rw64) as u32)
            };
            steps.push(Step::Crop { x: (w - cw) / 2, y: (h - ch) / 2, width: cw, height: ch });
            Ok(steps)
        },
        None => {
            let x: u32 = match num_field(&f.x) { Some(v) => v, None => 0 };
            let y: u32 = match num_field(&f.y) { Some(v) => v, None => 0 };
            let cw: u32 = match num_field(&f.width) { Some(v) => v, None => if x <= w { w - x } else { 0 } };
            let ch: u32 = match num_field(&f.height) { Some(v) => v, None => if y <= h { h - y } else { 0 } };
            if x as u64 + cw as u64 > w as u64 || y as u64 + ch as u64 > h as u64 {
                return Err(AppError::InvalidFieldValue(String::from_str("Crop area exceeds image bounds")));
            }
            steps.push(Step::Crop { x, y, width: cw, height: ch });
            Ok(steps)
        },
    }
}

/// The raw fields of a rotate request.
pub struct RotateFields {
    pub degrees: Option<String>,
    pub auto: Option<String>,
}

/// The flag in an optional field; `default` when absent or unreadable.
pub open spec fn flag_of(f: Option<String>, default: bool) -> bool {
    match f {
        Some(s) => match parse_bool_spec(s@) {
            Some(b) => b,
            None => default,
        },
        None => default,
    }
}

pub fn flag_field(f: &Option<String>, default: bool) -> (r: bool)
    ensures
        r == flag_of(*f, default),
{
    match f {
        Some(s) => match parse_bool(s.as_str()) {
            Some(b) => b,
            None => default,
        },
        None => default,
    }
}

/// The angle in the `degrees` field, as `(negative, m, e)` meaning
/// `±m · 10^e` degrees.
pub open spec fn degrees_of(f: RotateFields) -> Option<(bool, nat, int)> {
    match f.degrees {
        Some(s) => decimal_of(s@),
        None => None,
    }
}

/// The steps for an angle: a quarter turn where it is a whole number of
/// degrees that names one, nothing otherwise.
pub open spec fn angle_steps(a: (bool, nat, int)) -> Seq<Step> {
    match whole_of(a) {
        Some(d) => quarter_steps(d),
        None => seq![],
    }
}

/// The quarter turn that an angle in degrees names; any other angle is left
/// as it is.
pub open spec fn quarter_steps(deg: int) -> Seq<Step> {
    if deg == 90 || deg == -270 {
        seq![Step::Rotate90]
    } else if deg == 180 || deg == -180 {
        seq![Step::Rotate180]
    } else if deg == 270 || deg == -90 {
        seq![Step::Rotate270]
    } else {
        seq![]
    }
}

/// Plans a rotation. Orienting by metadata (`auto`) and angles that are not
/// a multiple of a quarter turn leave the image as it is; with neither field
/// usable the request lacks a field.
pub fn plan_rotate(f: &RotateFields) -> (r: Result<Vec<Step>, AppError>)
    ensures
        flag_of(f.auto, false) ==> r is Ok && r->Ok_0@ == Seq::<Step>::empty(),
        !flag_of(f.auto, false) && degrees_of(*f) is None ==> r is Err && r->Err_0 is MissingField
            && r->Err_0->MissingField_0@ == "degrees or auto"@,
        !flag_of(f.auto, false) && degrees_of(*f) is Some ==> r is Ok && r->Ok_0@ == angle_steps(
            degrees_of(*f)->0,
        ),
{
    let mut steps: Vec<Step> = Vec::new();
    if flag_field(&f.auto, false) {
        return Ok(steps);
    }
    let angle = match &f.degrees {
        Some(s) => parse_decimal(s.as_str()),
        None => None,
    };
    match angle {
        Some((neg, m, e)) => {
            let d: i64 = match small_whole(neg, m, e) {
                Some(d) => d,
                None => {
                    assert(steps@ =~= angle_steps(degrees_of(*f)->0));
                    return Ok(steps);
                },
            };
            if d == 90 || d == -270 {
                steps.push(Step::Rotate90);
            } else if d == 180 || d == -180 {
                steps.push(Step::Rotate180);
            } else if d == 270 || d == -90 {
                steps.push(Step::Rotate270);
            }
            assert(steps@ =~= angle_steps(degrees_of(*f)->0));
            Ok(steps)
        },
        None => Err(AppError::MissingField(String::from_str("degrees or auto"))),
    }
}

/// A quarter or three-quarter turn swaps the sides of every image; any angle
/// that is not a multiple of a quarter turn leaves the size as it is.
pub proof fn lemma_quarter_turn_sizes(deg: int, w: int, h: int)
    ensures
        (deg == 90 || deg == -270 || deg == 270 || deg == -90) ==> plan_dims(quarter_steps(deg), w, h)
            == (h, w),
        !(deg == 90 || deg == -270 || deg == 180 || deg == -180 || deg == 270 || deg == -90)
            ==> quarter_steps(deg) == Seq::<Step>::empty() && plan_dims(quarter_steps(deg), w, h)
            == (w, h),
        (deg == 180 || deg == -180) ==> plan_dims(quarter_steps(deg), w, h) == (w, h),
{
    if deg == 90 || deg == -270 {
        lemma_plan_dims_single(Step::Rotate90, w, h);
    } else if deg == 180 || deg == -180 {
        lemma_plan_dims_single(Step::Rotate180, w, h);
    } else if deg == 270 || deg == -90 {
        lemma_plan_dims_single(Step::Rotate270, w, h);
    }
}

/// `round(b · 255)` for a brightness `b`, halves away from zero, clamped to
/// `-65535..=65535` (beyond that every channel saturates anyway).
pub open spec fn brightness_delta_of(s: Seq<char>) -> Option<i32> {
    match decimal_of(s) {
        Some((neg, m, e)) => {
            let x = brightness_magnitude(m, e);
            let c = if x > 65535 { 65535 } else { x };
            Some((if neg { -c } else { c }) as i32)
        },
        None => None,
    }
}

/// Reads a brightness field and scales it to channel units.
pub fn brightness_delta(s: &str) -> (r: Option<i32>)
    ensures
        r == brightness_delta_of(s@),
{
    let (neg, m, e) = match parse_decimal(s) {
        Some(x) => x,
        None => return None,
    };
    let c = brightness_steps_of(m, e);
    if neg {
        Some(0 - c as i32)
    } else {
        Some(c as i32)
    }
}

/// The raw fields of an edit request. The fields `contrast`, `saturation`,
/// `sharpness`, `border`, `border_color` and `auto_enhance` are accepted and
/// have no effect.
pub struct EditFields {
    pub brightness: Option<String>,
    pub contrast: Option<String>,
    pub saturation: Option<String>,
    pub sharpness: Option<String>,
    pub filter: Option<String>,
    pub border: Option<String>,
    pub border_color: Option<String>,
    pub flip: Option<String>,
    pub auto_enhance: Option<String>,
    pub thumbnail: Option<String>,
}

/// The blur that the `blur` filter applies, in tenths: a sigma of 2.
pub const EDIT_BLUR_TENTHS: u32 = 20;

pub open spec fn brightness_steps(f: Option<String>) -> Seq<Step> {
    match f {
        Some(s) => match brightness_delta_of(s@) {
            Some(d) => seq![Step::Brighten(d)],
            None => seq![],
        },
        None => seq![],
    }
}

pub open spec fn filter_steps(f: Option<String>) -> Seq<Step> {
    match f {
        Some(n) => if n@ == "grayscale"@ || n@ == "sepia"@ {
            seq![Step::Grayscale]
        } else if n@ == "invert"@ {
            seq![Step::Invert]
        } else if n@ == "blur"@ {
            seq![Step::Blur { sigma_tenths: EDIT_BLUR_TENTHS }]
        } else {
            seq![]
        },
        None => seq![],
    }
}

pub open spec fn flip_steps(f: Option<String>) -> Seq<Step> {
    match f {
        Some(n) => if n@ == "horizontal"@ {
            seq![Step::FlipHorizontal]
        } else if n@ == "vertical"@ {
            seq![Step::FlipVertical]
        } else {
            seq![]
        },
        None => seq![],
    }
}

/// A thumbnail never enlarges: both sides stay at most what they were.
pub proof fn lemma_thumbnail_never_enlarges(t: Option<u32>, w: int, h: int)
    requires
        0 <= w <= u32::MAX,
        0 <= h <= u32::MAX,
    ensures
        plan_dims(thumbnail_steps(t, w, h), w, h).0 <= w,
        plan_dims(thumbnail_steps(t, w, h), w, h).1 <= h,
{
    if let Some(t) = t {
        let big = if w >= h { w } else { h };
        if (t as int) < big {
            assert(0 <= w * t / big <= w) by (nonlinear_arith)
                requires t < big, 0 <= w <= big, big > 0, t >= 0;
            assert(0 <= h * t / big <= h) by (nonlinear_arith)
                requires t < big, 0 <= h <= big, big > 0, t >= 0;
            lemma_plan_dims_single(
                Step::Resize { width: (w * t / big) as u32, height: (h * t / big) as u32 },
                w,
                h,
            );
        }
    }
}

/// Uniform down-scaling so that the longer side becomes `t`, only where it
/// is shorter than the longer side now.
pub open spec fn thumbnail_steps(t: Option<u32>, w: int, h: int) -> Seq<Step> {
    match t {
        Some(t) => {
            let big = if w >= h { w } else { h };
            if (t as int) < big {
                seq![Step::Resize { width: (w * t / big) as u32, height: (h * t / big) as u32 }]
            } else {
                seq![]
            }
        },
        None => seq![],
    }
}

/// The steps of an edit, in their fixed order: brightness, filter, flip,
/// thumbnail.
pub open spec fn edit_plan(f: EditFields, w: int, h: int) -> Seq<Step> {
    brightness_steps(f.brightness) + filter_steps(f.filter) + flip_steps(f.flip) + thumbnail_steps(num_of(f.thumbnail), w, h)
}

fn plan_filter(f: &Option<String>) -> (r: Vec<Step>)
    ensures
        r@ == filter_steps(*f),
{
    let mut steps: Vec<Step> = Vec::new();
    proof {
        reveal_strlit("grayscale");
        reveal_strlit("sepia");
        reveal_strlit("invert");
        reveal_strlit("blur");
    }
    if let Some(n) = f {
        if str_eq(n.as_str(), "grayscale") || str_eq(n.as_str(), "sepia") {
            steps.push(Step::Grayscale);
        } else if str_eq(n.as_str(), "invert") {
            steps.push(Step::Invert);
        } else if str_eq(n.as_str(), "blur") {
            steps.push(Step::Blur { sigma_tenths: EDIT_BLUR_TENTHS });
        }
    }
    assert(steps@ =~= filter_steps(*f));
    steps
}

fn plan_flip(f: &Option<String>) -> (r: Vec<Step>)
    ensures
        r@ == flip_steps(*f),
{
    let mut steps: Vec<Step> = Vec::new();
    if let Some(n) = f {
        if str_eq(n.as_str(), "horizontal") {
            steps.push(Step::FlipHorizontal);
        } else if str_eq(n.as_str(), "vertical") {
            steps.push(Step::FlipVertical);
        }
    }
    assert(steps@ =~= flip_steps(*f));
    steps
}

fn plan_thumbnail(t: Option<u32>, w: u32, h: u32) -> (r: Vec<Step>)
    ensures
        r@ == thumbnail_steps(t, w as int, h as int),
{
    let mut steps: Vec<Step> = Vec::new();
    if let Some(t) = t {
        let big: u32 = if w >= h { w } else { h };
        if t < big {
            assert(w as int * t as int / big as int <= w) by (nonlinear_arith)
                requires t < big, w <= big, big > 0;
            assert(h as int * t as int / big as int <= h) by (nonlinear_arith)
                requires t < big, h <= big, big > 0;
            steps.push(Step::Resize {
                width: (wide_mul(w, t) / big as u64) as u32,
                height: (wide_mul(h, t) / big as u64) as u32,
            });
        }
    }
    assert(steps@ =~= thumbnail_steps(t, w as int, h as int));
    steps
}

/// Some numeric field of an edit request is present but unreadable.
pub open spec fn edit_malformed(f: EditFields) -> bool {
    bad_num(f.thumbnail) || (f.brightness is Some && brightness_delta_of(f.brightness->0@) is None)
}

/// Plans an edit of a `w`×`h` image. Unset fields and unknown filter or
/// flip names add no step; an unreadable brightness or thumbnail is refused.
pub fn plan_edit(f: &EditFields, w: u32, h: u32) -> (r: Result<Vec<Step>, AppError>)
    ensures
        r is Ok <==> !edit_malformed(*f),
        bad_num(f.thumbnail) ==> invalid_named(r, "thumbnail"@),
        !bad_num(f.thumbnail) && edit_malformed(*f) ==> invalid_named(r, "brightness"@),
        r is Ok ==> r->Ok_0@ == edit_plan(*f, w as int, h as int),
        r is Err ==> r->Err_0 is InvalidFieldValue,
{
    if !num_ok(&f.thumbnail) {
        return Err(bad_value("thumbnail"));
    }
    let mut steps: Vec<Step> = Vec::new();
    if let Some(text) = &f.brightness {
        match brightness_delta(text.as_str()) {
            Some(d) => steps.push(Step::Brighten(d)),
            None => return Err(bad_value("brightness")),
        }
    }
    let ghost b = steps@;
    let mut filter = plan_filter(&f.filter);
    steps.append(&mut filter);
    let mut flip = plan_flip(&f.flip);
    steps.append(&mut flip);
    let mut thumb = plan_thumbnail(num_field(&f.thumbnail), w, h);
    steps.append(&mut thumb);
    proof {
        assert(b =~= brightness_steps(f.brightness));
    }
    Ok(steps)
}

/// An edit that sets none of brightness, filter, flip and thumbnail applies
/// no step: the image comes out as it went in.
pub proof fn lemma_edit_without_fields_is_identity(f: EditFields, w: int, h: int)
    requires
        f.brightness is None,
        f.filter is None,
        f.flip is None,
        f.thumbnail is None,
    ensures
        edit_plan(f, w, h) == Seq::<Step>::empty(),
        plan_dims(edit_plan(f, w, h), w, h) == (w, h),
{
    assert(edit_plan(f, w, h) =~= Seq::<Step>::empty());
}

/// The raw fields of an upscale request.
pub struct UpscaleFields {
    pub scale: Option<String>,
    pub sharpen: Option<String>,
}

/// The factor of an upscale: the field clamped to `1..=8`, else 2.
pub open spec fn scale_of(f: UpscaleFields) -> int {
    match num_of(f.scale) {
        Some(v) => if v < 1 {
            1
        } else if v > 8 {
            8
        } else {
            v as int
        },
        None => 2,
    }
}

/// The steps of an upscale: both sides times the factor, then sharpening
/// unless `sharpen` reads `false`.
pub open spec fn upscale_plan(f: UpscaleFields, w: int, h: int) -> Seq<Step> {
    let s = scale_of(f);
    let base = seq![Step::Resize { width: (w * s) as u32, height: (h * s) as u32 }];
    if flag_of(f.sharpen, true) {
        base.push(Step::Sharpen)
    } else {
        base
    }
}

/// Plans an upscale of a `w`×`h` image: both sides multiplied by the factor,
/// then one sharpening pass unless `sharpen` reads `false`. A size that would
/// not fit in a `u32` is refused.
pub fn plan_upscale(f: &UpscaleFields, w: u32, h: u32) -> (r: Result<Vec<Step>, AppError>)
    ensures
        r is Ok <==> (!bad_num(f.scale) && w * scale_of(*f) <= u32::MAX && h * scale_of(*f)
            <= u32::MAX),
        r is Ok ==> r->Ok_0@ == upscale_plan(*f, w as int, h as int),
        bad_num(f.scale) ==> invalid_named(r, "scale"@),
        r is Err ==> r->Err_0 is InvalidFieldValue,
{
    if !num_ok(&f.scale) {
        return Err(bad_value("scale"));
    }
    let s: u32 = match num_field(&f.scale) {
        Some(v) => if v < 1 { 1 } else if v > 8 { 8 } else { v },
        None => 2,
    };
    let nw = wide_mul(w, s);
    let nh = wide_mul(h, s);
    if nw > 0xFFFF_FFFF || nh > 0xFFFF_FFFF {
        return Err(AppError::InvalidFieldValue(String::from_str("Upscaled size is too large")));
    }
    let mut steps: Vec<Step> = Vec::new();
    steps.push(Step::Resize { width: nw as u32, height: nh as u32 });
    if flag_field(&f.sharpen, true) {
        steps.push(Step::Sharpen);
    }
    Ok(steps)
}

/// What a compress request resolves to: the JPEG quality and the steps
/// before encoding.
pub struct CompressPlan {
    pub quality: u8,
    pub steps: Vec<Step>,
}

/// The quality of a compression: the field clamped to `1..=100`, 80 when
/// unset.
pub open spec fn quality_of(f: Option<String>) -> int {
    match f {
        Some(s) => match parse_i32_spec(s@) {
            Some(q) => if q < 1 {
                1
            } else if q > 100 {
                100
            } else {
                q as int
            },
            None => 80,
        },
        None => 80,
    }
}

/// Plans a compression: an image with an alpha channel is first flattened to
/// opaque RGB. An unreadable quality is refused.
pub fn plan_compress(quality: &Option<String>, has_alpha: bool) -> (r: Result<
    CompressPlan,
    AppError,
>)
    ensures
        r is Ok <==> !(quality is Some && parse_i32_spec(quality->0@) is None),
        !(r is Ok) ==> invalid_named(r, "quality"@),
        r is Ok ==> r->Ok_0.quality == quality_of(*quality) && r->Ok_0.steps@ == if has_alpha {
            seq![Step::DropAlpha]
        } else {
            Seq::<Step>::empty()
        },
        r is Err ==> r->Err_0 is InvalidFieldValue,
{
    let q: u8 = match quality {
        Some(s) => match parse_i32(s.as_str()) {
            Some(q) => if q < 1 { 1 } else if q > 100 { 100 } else { q as u8 },
            None => return Err(bad_value("quality")),
        },
        None => 80,
    };
    let mut steps: Vec<Step> = Vec::new();
    if has_alpha {
        steps.push(Step::DropAlpha);
    }
    assert(has_alpha ==> steps@ =~= seq![Step::DropAlpha]);
    assert(!has_alpha ==> steps@ =~= Seq::<Step>::empty());
    Ok(CompressPlan { quality: q, steps })
}

/// The raw fields of a face-blur request.
pub struct BlurFaceFields {
    pub strength: Option<String>,
    pub region: Option<String>,
}

/// Plans a face blur: the whole image is blurred with a sigma of a tenth of
/// `strength` (25 when unset). A region, when given, must be well formed,
/// and a strength, when given, a whole number.
pub fn plan_blur_face(f: &BlurFaceFields) -> (r: Result<Vec<Step>, AppError>)
    ensures
        ({
            let region_ok = match f.region {
                Some(s) => region_spec(s@) is Some,
                None => true,
            };
            let strength = match num_of(f.strength) {
                Some(v) => v,
                None => 25u32,
            };
            &&& r is Ok <==> (region_ok && !bad_num(f.strength))
            &&& bad_num(f.strength) ==> invalid_named(r, "strength"@)
            &&& !bad_num(f.strength) && !region_ok ==> invalid_named(r, region_error(f.region->0@))
            &&& r is Ok ==> r->Ok_0@ == seq![Step::Blur { sigma_tenths: strength }]
            &&& r is Err ==> r->Err_0 is InvalidFieldValue
        }),
{
    if !num_ok(&f.strength) {
        return Err(bad_value("strength"));
    }
    let strength: u32 = match num_field(&f.strength) {
        Some(v) => v,
        None => 25,
    };
    if let Some(s) = &f.region {
        if let Err(e) = parse_region(s.as_str()) {
            return Err(e);
        }
    }
    let mut steps: Vec<Step> = Vec::new();
    steps.push(Step::Blur { sigma_tenths: strength });
    Ok(steps)
}

/// Checks a watermark request. Text rendering is not available, so the
/// image is kept as it is; the `text` field is still required.
pub fn plan_watermark(text: &Option<String>) -> (r: Result<Vec<Step>, AppError>)
    ensures
        r is Ok <==> text is Some,
        r is Ok ==> r->Ok_0@ == Seq::<Step>::empty(),
        r is Err ==> r->Err_0 is MissingField && r->Err_0->MissingField_0@ == "text"@,
{
    match text {
        Some(_) => Ok(Vec::new()),
        None => Err(AppError::MissingField(String::from_str("text"))),
    }
}

} // verus!
