//! Object ids: which strings Git accepts as an object id.

use vstd::prelude::*;

verus! {

/// A hexadecimal digit.
pub open spec fn is_hex_digit(c: char) -> bool {
    ('0' <= c && c <= '9') || ('a' <= c && c <= 'f') || ('A' <= c && c <= 'F')
}

/// A string that `git2::Oid::from_str` accepts: one to forty hexadecimal
/// digits (a shorter id is padded with zeros).
pub open spec fn hex_oid_spec(s: Seq<char>) -> bool {
    1 <= s.len() <= 40 && forall|i: int| 0 <= i < s.len() ==> is_hex_digit(#[trigger] s[i])
}

/// The number of bytes of a character in UTF-8.
pub open spec fn utf8_width(c: char) -> nat {
    let u = c as u32;
    if u < 0x80 {
        1
    } else if u < 0x800 {
        2
    } else if u < 0x10000 {
        3
    } else {
        4
    }
}

/// The number of bytes of a text in UTF-8.
pub open spec fn utf8_len(s: Seq<char>) -> nat
    decreases s.len(),
{
    if s.len() == 0 {
        0
    } else {
        utf8_len(s.drop_last()) + utf8_width(s.last())
    }
}

/// The message libgit2's `git_oid_fromstrn` sets when it refuses `s`: it
/// checks for an empty text, then for more than forty bytes, then for a
/// character that is no hexadecimal digit.
pub open spec fn oid_error_text(s: Seq<char>) -> Seq<char> {
    if s.len() == 0 {
        "unable to parse OID - too short"@
    } else if utf8_len(s) > 40 {
        "unable to parse OID - too long"@
    } else {
        "unable to parse OID - contains invalid characters"@
    }
}

/// Parses an object id with `git2::Oid::from_str`, which hands the bytes
/// of the text to libgit2's `git_oid_fromstrn`; the contract states that
/// it succeeds exactly on one to forty hexadecimal digits and gives the
/// message libgit2 sets otherwise.
#[verifier::external_body]
pub(crate) fn parse_oid(s: &str) -> (r: Result<(), String>)
    ensures
        r is Ok <==> hex_oid_spec(s@),
        r matches Err(m) ==> m@ == oid_error_text(s@),
{
    match git2::Oid::from_str(s) {
        Ok(_) => Ok(()),
        Err(e) => Err(e.message().to_string()),
    }
}

} // verus!
