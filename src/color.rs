//! Colour names and `#rrggbb` codes.
use vstd::prelude::*;
use crate::error::AppError;
use crate::format::{folds_eq, folds_to};

verus! {

pub open spec fn hex_value(c: char) -> Option<nat> {
    if '0' <= c && c <= '9' {
        Some(((c as int) - ('0' as int)) as nat)
    } else if 'a' <= c && c <= 'f' {
        Some(((c as int) - ('a' as int) + 10) as nat)
    } else if 'A' <= c && c <= 'F' {
        Some(((c as int) - ('A' as int) + 10) as nat)
    } else {
        None
    }
}

/// A two-character hexadecimal byte as `u8::from_str_radix` reads it: two
/// hex digits, or `+` and one.
pub open spec fn hex_pair(a: char, b: char) -> Option<u8> {
    match (hex_value(a), hex_value(b)) {
        (Some(x), Some(y)) => Some((x * 16 + y) as u8),
        (None, Some(y)) => if a == '+' {
            Some(y as u8)
        } else {
            None
        },
        _ => None,
    }
}

/// The opaque colour that a name (case ignored) or a `#rrggbb` code gives,
/// as red, green, blue and alpha.
pub open spec fn color_spec(s: Seq<char>) -> Option<(u8, u8, u8, u8)> {
    if folds_to(s, "white"@) {
        Some((255, 255, 255, 255))
    } else if folds_to(s, "black"@) {
        Some((0, 0, 0, 255))
    } else if folds_to(s, "red"@) {
        Some((255, 0, 0, 255))
    } else if folds_to(s, "green"@) {
        Some((0, 255, 0, 255))
    } else if folds_to(s, "blue"@) {
        Some((0, 0, 255, 255))
    } else if folds_to(s, "yellow"@) {
        Some((255, 255, 0, 255))
    } else if folds_to(s, "cyan"@) {
        Some((0, 255, 255, 255))
    } else if folds_to(s, "magenta"@) {
        Some((255, 0, 255, 255))
    } else if s.len() == 7 && s[0] == '#' {
        match (hex_pair(s[1], s[2]), hex_pair(s[3], s[4]), hex_pair(s[5], s[6])) {
            (Some(r), Some(g), Some(b)) => Some((r, g, b, 255)),
            _ => None,
        }
    } else {
        None
    }
}

fn hex_digit(c: char) -> (r: Option<u8>)
    ensures
        r is Some <==> hex_value(c) is Some,
        r is Some ==> r->0 as nat == hex_value(c)->0,
{
    if '0' <= c && c <= '9' {
        Some((c as u32 - '0' as u32) as u8)
    } else if 'a' <= c && c <= 'f' {
        Some((c as u32 - 'a' as u32 + 10) as u8)
    } else if 'A' <= c && c <= 'F' {
        Some((c as u32 - 'A' as u32 + 10) as u8)
    } else {
        None
    }
}

fn read_pair(a: char, b: char) -> (r: Option<u8>)
    ensures
        r == hex_pair(a, b),
{
    match (hex_digit(a), hex_digit(b)) {
        (Some(x), Some(y)) => Some(x * 16 + y),
        (None, Some(y)) => if a == '+' {
            Some(y)
        } else {
            None
        },
        _ => None,
    }
}

/// Reads a colour name or a `#rrggbb` code; anything else is an invalid value.
pub fn parse_color(color: &str) -> (r: Result<(u8, u8, u8, u8), AppError>)
    ensures
        r is Ok <==> color_spec(color@) is Some,
        r is Ok ==> r->Ok_0 == color_spec(color@)->0,
        r is Err ==> r->Err_0 is InvalidFieldValue,
{
    if folds_eq(color, "white") {
        Ok((255, 255, 255, 255))
    } else if folds_eq(color, "black") {
        Ok((0, 0, 0, 255))
    } else if folds_eq(color, "red") {
        Ok((255, 0, 0, 255))
    } else if folds_eq(color, "green") {
        Ok((0, 255, 0, 255))
    } else if folds_eq(color, "blue") {
        Ok((0, 0, 255, 255))
    } else if folds_eq(color, "yellow") {
        Ok((255, 255, 0, 255))
    } else if folds_eq(color, "cyan") {
        Ok((0, 255, 255, 255))
    } else if folds_eq(color, "magenta") {
        Ok((255, 0, 255, 255))
    } else if color.unicode_len() == 7 && color.get_char(0) == '#' {
        let r = read_pair(color.get_char(1), color.get_char(2));
        let g = read_pair(color.get_char(3), color.get_char(4));
        let b = read_pair(color.get_char(5), color.get_char(6));
        match (r, g, b) {
            (Some(r), Some(g), Some(b)) => Ok((r, g, b, 255)),
            _ => Err(AppError::InvalidFieldValue(String::from_str("Invalid color"))),
        }
    } else {
        Err(AppError::InvalidFieldValue(String::from_str("Unsupported color")))
    }
}

} // verus!
