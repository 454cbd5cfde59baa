//! Small text helpers shared across the library.

use vstd::prelude::*;

verus! {

/// Equality of two string slices, by their character sequences.
pub fn str_eq(a: &str, b: &str) -> (r: bool)
    ensures
        r == (a@ == b@),
{
    let sa = String::from_str(a);
    let sb = String::from_str(b);
    sa == sb
}

/// Equality of an optional owned string and a string slice.
pub fn opt_string_is(a: &Option<String>, b: &str) -> (r: bool)
    ensures
        r == (a matches Some(x) && x@ == b@),
{
    match a {
        Some(x) => str_eq(x.as_str(), b),
        None => false,
    }
}

/// Relies on String::from_utf8: it succeeds on exactly the byte sequences
/// that UTF-8 encode some text, and returns that text (a byte sequence
/// encodes at most one text).
#[verifier::external_body]
pub fn bytes_to_string(bytes: Vec<u8>) -> (r: Option<String>)
    ensures
        r matches Some(s) ==> vstd::utf8::encode_utf8(s@) == bytes@,
        r is None ==> forall|content: Seq<char>| vstd::utf8::encode_utf8(content) != bytes@,
        r matches Some(s) ==> forall|content: Seq<char>|
            vstd::utf8::encode_utf8(content) == bytes@ ==> content == s@,
{
    match String::from_utf8(bytes) {
        Ok(s) => Some(s),
        Err(_) => None,
    }
}

} // verus!
