//! String comparison and conversion helpers.

use vstd::prelude::*;

verus! {

/// Relies on str's PartialEq: two string slices compare equal exactly when
/// their character sequences are equal.
#[verifier::external_body]
pub(crate) fn str_eq(a: &str, b: &str) -> (r: bool)
    ensures
        r == (a@ == b@),
{
    a == b
}

/// A character's code, ASCII letters folded to lower case.
pub open spec fn ascii_lower(c: char) -> int {
    if 'A' <= c && c <= 'Z' {
        c as int + 0x20
    } else {
        c as int
    }
}

/// Equality of character sequences up to ASCII case.
pub open spec fn ascii_caseless_eq(a: Seq<char>, b: Seq<char>) -> bool {
    a.len() == b.len() && forall|i: int|
        0 <= i < a.len() ==> ascii_lower(a[i]) == ascii_lower(#[trigger] b[i])
}

/// Relies on str::eq_ignore_ascii_case: two string slices match exactly when
/// their character sequences are equal up to ASCII case.
#[verifier::external_body]
pub(crate) fn str_eq_ignore_ascii_case(a: &str, b: &str) -> (r: bool)
    ensures
        r == ascii_caseless_eq(a@, b@),
{
    a.eq_ignore_ascii_case(b)
}

/// Relies on String::from_utf8: succeeds exactly on the UTF-8 encoding of
/// some character sequence, and yields that sequence.
#[verifier::external_body]
fn string_from_utf8(bytes: Vec<u8>) -> (r: Option<String>)
    ensures
        r is Some <==> exists|s: Seq<char>| vstd::utf8::encode_utf8(s) == bytes@,
        r matches Some(s) ==> vstd::utf8::encode_utf8(s@) == bytes@,
{
    String::from_utf8(bytes).ok()
}

/// Reads bytes as UTF-8 text: the text whose encoding the bytes are, `None`
/// where they encode none.
pub fn utf8_string(bytes: Vec<u8>) -> (r: Option<String>)
    ensures
        r is Some <==> exists|s: Seq<char>| vstd::utf8::encode_utf8(s) == bytes@,
        r matches Some(s) ==> vstd::utf8::encode_utf8(s@) == bytes@,
{
    string_from_utf8(bytes)
}

} // verus!
