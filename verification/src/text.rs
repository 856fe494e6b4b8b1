//! Text plumbing: conversions between `String` and `Vec<char>`, checked
//! UTF-8 decoding, and line splitting with the semantics of Rust's
//! `str::lines`.

use vstd::prelude::*;

verus! {

/// Relies on `String::push`: appends one character at the end.
pub assume_specification[ std::string::String::push ](s: &mut String, c: char)
    ensures
        final(s)@ == old(s)@.push(c),
;

/// Relies on `char::from_u32`: `Some` exactly for Unicode scalar values,
/// and then the character with that value.
#[verifier::external_body]
pub(crate) fn char_from_u32(n: u32) -> (r: Option<char>)
    ensures
        r matches Some(c) ==> crate::json::is_scalar_value(n as int) && c == n as char,
        r is None ==> !crate::json::is_scalar_value(n as int),
{
    char::from_u32(n)
}

/// Relies on `String::from_utf8`: `Ok` exactly when the bytes are valid
/// UTF-8, and then the text they encode.
#[verifier::external_body]
pub(crate) fn utf8_to_string(bytes: Vec<u8>) -> (r: Option<String>)
    ensures
        r matches Some(s) ==> vstd::utf8::valid_utf8(bytes@) && s@ == vstd::utf8::decode_utf8(
            bytes@,
        ),
        r is None ==> !vstd::utf8::valid_utf8(bytes@),
{
    String::from_utf8(bytes).ok()
}

/// Copies a string slice into a vector of its characters.
pub fn str_to_chars(s: &str) -> (r: Vec<char>)
    ensures
        r@ == s@,
{
    let n = s.unicode_len();
    let mut r: Vec<char> = Vec::new();
    let mut i: usize = 0;
    while i < n
        invariant
            n == s@.len(),
            0 <= i <= n,
            r@ == s@.subrange(0, i as int),
        decreases n - i,
    {
        r.push(s.get_char(i));
        assert(r@ =~= s@.subrange(0, i + 1));
        i = i + 1;
    }
    assert(s@.subrange(0, n as int) =~= s@);
    r
}

/// Collects a vector of characters into a `String`.
pub fn chars_to_string(v: &Vec<char>) -> (r: String)
    ensures
        r@ == v@,
{
    let mut r = String::new();
    let mut i: usize = 0;
    while i < v.len()
        invariant
            0 <= i <= v@.len(),
            r@ == v@.subrange(0, i as int),
        decreases v@.len() - i,
    {
        r.push(v[i]);
        assert(r@ =~= v@.subrange(0, i + 1));
        i = i + 1;
    }
    assert(v@.subrange(0, v@.len() as int) =~= v@);
    r
}

} // verus!
