//! Identifiers in their textual form.

use crate::scheduler::JobId;
use vstd::prelude::*;

verus! {

/// The 128-bit value that a text stands for as a UUID, if it is one.
pub uninterp spec fn uuid_value(s: Seq<char>) -> Option<u128>;

/// Sixteen to the power `n`.
pub open spec fn pow16(n: nat) -> nat
    decreases n,
{
    if n == 0 {
        1
    } else {
        16 * pow16((n - 1) as nat)
    }
}

/// The lower-case hexadecimal digit for `d`, for `d` below sixteen.
pub open spec fn hex_lower(d: int) -> char {
    if d == 0 {
        '0'
    } else if d == 1 {
        '1'
    } else if d == 2 {
        '2'
    } else if d == 3 {
        '3'
    } else if d == 4 {
        '4'
    } else if d == 5 {
        '5'
    } else if d == 6 {
        '6'
    } else if d == 7 {
        '7'
    } else if d == 8 {
        '8'
    } else if d == 9 {
        '9'
    } else if d == 10 {
        'a'
    } else if d == 11 {
        'b'
    } else if d == 12 {
        'c'
    } else if d == 13 {
        'd'
    } else if d == 14 {
        'e'
    } else {
        'f'
    }
}

/// The hexadecimal digit of `id` at place `k`, counted from the left, of
/// its thirty-two.
pub open spec fn hex_digit_at(id: u128, k: int) -> int {
    (id as int / pow16((31 - k) as nat) as int) % 16
}

/// How many hyphens stand before position `i` of the notation.
pub open spec fn hyphens_before(i: int) -> int {
    if i < 8 {
        0
    } else if i < 13 {
        1
    } else if i < 18 {
        2
    } else if i < 23 {
        3
    } else {
        4
    }
}

/// The hyphenated, lower-case notation of a 128-bit value as a UUID: its
/// thirty-two hexadecimal digits, the highest first, with hyphens after
/// the eighth, twelfth, sixteenth and twentieth.
pub open spec fn uuid_text(id: u128) -> Seq<char> {
    Seq::new(
        36,
        |i: int|
            if i == 8 || i == 13 || i == 18 || i == 23 {
                '-'
            } else {
                hex_lower(hex_digit_at(id, i - hyphens_before(i)))
            },
    )
}

/// `Uuid::parse_str` of the uuid crate, with the error dropped and the
/// result as a number. The result depends on the text alone; the contract
/// gives it the name `uuid_value`.
#[verifier::external_body]
pub(crate) fn parse_uuid(s: &str) -> (r: Option<u128>)
    ensures
        r == uuid_value(s@),
{
    match uuid::Uuid::parse_str(s) {
        Ok(u) => Some(u.as_u128()),
        Err(_) => None,
    }
}

/// `Uuid`'s `to_string` of the uuid crate, on the UUID with the given
/// value: the hyphenated notation in lower case, thirty-six characters.
#[verifier::external_body]
pub(crate) fn format_uuid(id: u128) -> (r: String)
    ensures
        r@ == uuid_text(id),
{
    uuid::Uuid::from_u128(id).to_string()
}

/// Reads an identifier in UUID notation.
pub fn parse_id(s: &str) -> (r: Option<u128>)
    ensures
        r == uuid_value(s@),
{
    parse_uuid(s)
}

/// Writes an identifier in UUID notation.
pub fn id_text(id: u128) -> (r: String)
    ensures
        r@ == uuid_text(id),
{
    format_uuid(id)
}

impl JobId {
    /// Reads a job identifier in UUID notation.
    pub fn parse(s: &str) -> (r: Option<JobId>)
        ensures
            r == match uuid_value(s@) {
                Some(v) => Some(JobId(v)),
                None => None,
            },
    {
        match parse_uuid(s) {
            Some(v) => Some(JobId(v)),
            None => None,
        }
    }

    /// The identifier in UUID notation.
    pub fn text(&self) -> (r: String)
        ensures
            r@ == uuid_text(self.0),
    {
        format_uuid(self.0)
    }
}

} // verus!
