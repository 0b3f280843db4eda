//! Identifiers.

use vstd::prelude::*;

verus! {

/// Whether `c` is a lower-case hexadecimal digit.
pub open spec fn is_lower_hex_digit(c: char) -> bool {
    ('0' <= c && c <= '9') || ('a' <= c && c <= 'f')
}

/// The hyphenated text of a UUID: 36 characters, `-` at positions 8, 13, 18
/// and 23, lower-case hexadecimal digits elsewhere.
pub open spec fn is_hyphenated_uuid(s: Seq<char>) -> bool {
    &&& s.len() == 36
    &&& forall|i: int|
        0 <= i < 36 ==> if i == 8 || i == 13 || i == 18 || i == 23 {
            #[trigger] s[i] == '-'
        } else {
            is_lower_hex_digit(s[i])
        }
}

/// Whether a hyphenated UUID text is of version 7 with the RFC 4122 variant:
/// its version digit is `7` and its variant digit is one of `8`, `9`, `a`,
/// `b`.
pub open spec fn is_v7_uuid(s: Seq<char>) -> bool {
    &&& is_hyphenated_uuid(s)
    &&& s[14] == '7'
    &&& (s[19] == '8' || s[19] == '9' || s[19] == 'a' || s[19] == 'b')
}

/// A fresh, time-ordered identifier: calls `uuid::Uuid::now_v7` and renders
/// the UUID with `to_string`, whose `Display` writes the hyphenated
/// lower-case form; `now_v7` sets version 7 and the RFC 4122 variant. The
/// rest depends on the clock and on random bits and is not claimed, nor is
/// the ordering of ids made one after the other, which relates two calls.
#[verifier::external_body]
pub fn generate_id() -> (res: String)
    ensures
        is_v7_uuid(res@),
{
    uuid::Uuid::now_v7().to_string()
}

} // verus!
