//! Byte-order-mark-tolerant response decoding.
//!
//! Many processors prepend a UTF-8 byte-order mark to an otherwise UTF-8
//! JSON body. Every success and error path decodes a raw body the same way:
//! strip one leading byte-order mark, re-materialize the rest as text, then
//! parse that text as a structured document.

use vstd::prelude::*;
use crate::json::{jparse, json_of, JVal};

verus! {

/// Whether a byte sequence starts with the UTF-8 byte-order mark EF BB BF.
pub open spec fn has_utf8_bom(b: Seq<u8>) -> bool {
    b.len() >= 3 && b[0] == 0xefu8 && b[1] == 0xbbu8 && b[2] == 0xbfu8
}

/// A byte sequence with one leading UTF-8 byte-order mark removed.
pub open spec fn strip_utf8_bom(b: Seq<u8>) -> Seq<u8> {
    if has_utf8_bom(b) {
        b.skip(3)
    } else {
        b
    }
}

/// The text that decoding a byte sequence as UTF-8 yields, ill-formed
/// sequences replaced by the replacement character.
pub uninterp spec fn utf8_lossy(b: Seq<u8>) -> Seq<char>;

/// Relies on encoding_rs::UTF_8.decode_with_bom_removal: strips one leading
/// UTF-8 byte-order mark if present, then decodes the remaining bytes as
/// UTF-8, replacing ill-formed sequences with the replacement character.
#[verifier::external_body]
pub(crate) fn decode_bom_tolerant(b: &[u8]) -> (r: String)
    ensures
        r@ == utf8_lossy(strip_utf8_bom(b@)),
{
    encoding_rs::UTF_8.decode_with_bom_removal(b).0.into_owned()
}

/// The document a raw body decodes to: byte-order mark stripped, decoded as
/// UTF-8, parsed as a JSON document.
pub open spec fn decoded_document(b: Seq<u8>) -> Option<JVal> {
    json_of(utf8_lossy(strip_utf8_bom(b)))
}

/// Decodes a raw body into a structured document, tolerating one leading
/// byte-order mark; `None` exactly where the decoded text is no document.
pub fn decode_body(b: &[u8]) -> (r: Option<serde_json::Value>)
    ensures
        r is Some <==> decoded_document(b@) is Some,
        r matches Some(v) ==> Some(crate::json::jmodel(v)) == decoded_document(b@),
{
    let text = decode_bom_tolerant(b);
    jparse(text.as_str())
}

/// Stripping the byte-order mark is content-preserving and idempotent: a
/// body carrying the mark and the same body without it decode to the same
/// text, and hence parse to the same document; a body without the mark is
/// left untouched.
pub proof fn lemma_bom_stripping_content_preserving(b: Seq<u8>)
    requires
        !has_utf8_bom(b),
    ensures
        strip_utf8_bom(seq![0xefu8, 0xbbu8, 0xbfu8] + b) == b,
        strip_utf8_bom(b) == b,
        strip_utf8_bom(strip_utf8_bom(seq![0xefu8, 0xbbu8, 0xbfu8] + b)) == strip_utf8_bom(
            seq![0xefu8, 0xbbu8, 0xbfu8] + b,
        ),
        decoded_document(seq![0xefu8, 0xbbu8, 0xbfu8] + b) == decoded_document(b),
{
    let with_bom = seq![0xefu8, 0xbbu8, 0xbfu8] + b;
    assert(has_utf8_bom(with_bom));
    assert(with_bom.skip(3) =~= b);
}

} // verus!
