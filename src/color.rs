//! The background colour given as a hexadecimal string.
use bevy::render::color::{Color, HexColorError};
use vstd::prelude::*;

verus! {

#[verifier::external_type_specification]
#[verifier::external_body]
pub struct ExColor(Color);

#[verifier::external_type_specification]
#[verifier::external_body]
pub struct ExHexColorError(HexColorError);

/// An ASCII hexadecimal digit.
pub open spec fn is_hex_digit(c: char) -> bool {
    ('0' <= c && c <= '9') || ('a' <= c && c <= 'f') || ('A' <= c && c <= 'F')
}

/// A well-formed hex colour: an optional leading `#`, then 3, 4, 6 or 8 hex
/// digits (`RGB`, `RGBA`, `RRGGBB`, `RRGGBBAA`).
pub open spec fn is_hex_color(s: Seq<char>) -> bool {
    let digits = if s.len() > 0 && s[0] == '#' {
        s.drop_first()
    } else {
        s
    };
    &&& (digits.len() == 3 || digits.len() == 4 || digits.len() == 6 || digits.len() == 8)
    &&& forall|i: int| 0 <= i < digits.len() ==> is_hex_digit(#[trigger] digits[i])
}

/// Relies on bevy's `Color::hex`: it strips one leading `#`, then accepts
/// exactly 3, 4, 6 or 8 bytes that are all hex digits, and fails otherwise.
#[verifier::external_body]
pub(crate) fn parse_hex_color(s: &str) -> (r: Result<Color, HexColorError>)
    ensures
        r is Ok <==> is_hex_color(s@),
{
    Color::hex(s)
}

} // verus!
