//! Identifiers for lists and todos: 128-bit values in the manner of RFC 4122,
//! drawn, parsed and rendered by the `uuid` crate through trusted wrappers.

use vstd::prelude::*;

verus! {

/// An identifier, held as the big-endian interpretation of its 16 bytes.
#[derive(Clone, Copy, PartialEq, Eq, Structural, Debug)]
pub struct Uid {
    pub value: u128,
}

/// The character that renders the hex digit `n`, lower case.
pub open spec fn hex_char(n: u128) -> char {
    if n == 0 {
        '0'
    } else if n == 1 {
        '1'
    } else if n == 2 {
        '2'
    } else if n == 3 {
        '3'
    } else if n == 4 {
        '4'
    } else if n == 5 {
        '5'
    } else if n == 6 {
        '6'
    } else if n == 7 {
        '7'
    } else if n == 8 {
        '8'
    } else if n == 9 {
        '9'
    } else if n == 10 {
        'a'
    } else if n == 11 {
        'b'
    } else if n == 12 {
        'c'
    } else if n == 13 {
        'd'
    } else if n == 14 {
        'e'
    } else {
        'f'
    }
}

/// The `k`-th hex digit of `v`, counting from the most significant.
pub open spec fn nibble(v: u128, k: int) -> u128 {
    (v >> (((31 - k) * 4) as u128)) & 0xf
}

/// Which hex digit of the value stands at position `i` of the hyphenated
/// rendering, whose hyphens sit at positions 8, 13, 18 and 23.
pub open spec fn digit_index(i: int) -> int {
    if i < 8 {
        i
    } else if i < 13 {
        i - 1
    } else if i < 18 {
        i - 2
    } else if i < 23 {
        i - 3
    } else {
        i - 4
    }
}

/// The hyphenated rendering of an identifier: its 32 hex digits, lower case,
/// most significant first, with a hyphen after the 8th, 12th, 16th and 20th.
pub open spec fn hyphenated(v: u128) -> Seq<char> {
    Seq::new(
        36,
        |i: int|
            if i == 8 || i == 13 || i == 18 || i == 23 {
                '-'
            } else {
                hex_char(nibble(v, digit_index(i)))
            },
    )
}

/// What `uuid::Uuid::parse_str` makes of a string: the identifier's value, or
/// `None` where the string is not a rendering that it accepts.
pub uninterp spec fn parsed_uuid(s: Seq<char>) -> Option<u128>;

/// Relies on `uuid::Uuid::new_v4` for a freshly drawn random identifier.
/// Nothing is promised of the value.
#[verifier::external_body]
pub(crate) fn fresh_uid() -> Uid {
    Uid { value: uuid::Uuid::new_v4().as_u128() }
}

/// Relies on `uuid::Uuid::from_u128` (big-endian) and its `Hyphenated`
/// formatter: the rendering is the lower-case hyphenated form of the value,
/// and `uuid::Uuid::parse_str` accepts every string of that form and returns
/// the identifier it renders.
#[verifier::external_body]
pub(crate) fn hyphenated_string(u: &Uid) -> (r: String)
    ensures
        r@ == hyphenated(u.value),
        parsed_uuid(r@) == Some(u.value),
{
    uuid::Uuid::from_u128(u.value).hyphenated().to_string()
}

/// Relies on `uuid::Uuid::parse_str`, whose result `parsed_uuid` names.
#[verifier::external_body]
pub(crate) fn parse_uid(s: &str) -> (r: Option<Uid>)
    ensures
        r matches Some(u) ==> parsed_uuid(s@) == Some(u.value),
        r is None ==> parsed_uuid(s@) is None,
{
    match uuid::Uuid::parse_str(s) {
        Ok(u) => Some(Uid { value: u.as_u128() }),
        Err(_) => None,
    }
}

} // verus!
