//! Image identifiers: 128-bit values, written as hyphenated lower-case hex.

use vstd::prelude::*;

verus! {

/// The lower-case hexadecimal digit of a value below sixteen.
pub open spec fn hex_digit(n: int) -> char {
    if n < 10 {
        (('0' as int) + n) as char
    } else {
        (('a' as int) + n - 10) as char
    }
}

/// The `i`-th of the 32 hexadecimal digits of `v`, most significant first.
pub open spec fn nibble(v: u128, i: int) -> int {
    ((v as int) / pow16(31 - i)) % 16
}

pub open spec fn pow16(e: int) -> int
    decreases e,
{
    if e <= 0 {
        1
    } else {
        16 * pow16(e - 1)
    }
}

/// How many hyphens stand before position `j` of the hyphenated form.
pub open spec fn hyphens_before(j: int) -> int {
    if j < 8 {
        0
    } else if j < 13 {
        1
    } else if j < 18 {
        2
    } else if j < 23 {
        3
    } else {
        4
    }
}

pub open spec fn is_hyphen_position(j: int) -> bool {
    j == 8 || j == 13 || j == 18 || j == 23
}

/// The hyphenated text of an identifier: 36 characters, the 32 digits of the
/// value grouped 8-4-4-4-12 and joined by `-`.
pub open spec fn hyphenated(v: u128) -> Seq<char> {
    Seq::new(
        36,
        |j: int|
            if is_hyphen_position(j) {
                '-'
            } else {
                hex_digit(nibble(v, j - hyphens_before(j)))
            },
    )
}

/// What `uuid::Uuid::parse_str` makes of a text, as a 128-bit value.
pub uninterp spec fn parsed_uuid(s: Seq<char>) -> Option<u128>;

/// Relies on `uuid::Uuid::new_v4`: a fresh identifier drawn from the
/// operating system's random source. Nothing is promised of its value.
#[verifier::external_body]
pub(crate) fn random_uuid() -> (r: u128) {
    uuid::Uuid::new_v4().as_u128()
}

/// Relies on `uuid::Uuid::as_hyphenated` and its `Display`: the lower-case
/// hyphenated form of the big-endian value, which `Uuid::parse_str` reads back.
#[verifier::external_body]
pub(crate) fn uuid_text(v: u128) -> (r: String)
    ensures
        r@ == hyphenated(v),
        parsed_uuid(r@) == Some(v),
{
    uuid::Uuid::from_u128(v).as_hyphenated().to_string()
}

/// Relies on `uuid::Uuid::parse_str`: `Some` with the value when the text is
/// one of the crate's textual forms, `None` otherwise.
#[verifier::external_body]
pub(crate) fn parse_uuid(s: &str) -> (r: Option<u128>)
    ensures
        r == parsed_uuid(s@),
{
    match uuid::Uuid::parse_str(s) {
        Ok(u) => Some(u.as_u128()),
        Err(_) => None,
    }
}

} // verus!
