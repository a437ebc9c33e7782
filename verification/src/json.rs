//! Structured wire documents.
//!
//! Connector bodies are JSON; serde_json parses and prints them. The library
//! reasons about a document through `JVal`, a mathematical model of a parsed
//! document, and reaches the real `serde_json::Value` only through the
//! trusted items below, whose contracts are stated over that model.

use vstd::prelude::*;

verus! {

/// Mathematical model of a parsed JSON document. Objects are modelled as a
/// map from key to value (duplicate keys collapse, as they do in
/// `serde_json`'s map); numbers that fit `u64` are kept exactly, any other
/// number is kept as its printed text.
pub enum JVal {
    Null,
    Bool(bool),
    U64(u64),
    NumOther(Seq<char>),
    Str(Seq<char>),
    Arr(Seq<JVal>),
    Obj(Map<Seq<char>, JVal>),
}

#[verifier::external_type_specification]
#[verifier::external_body]
pub struct ExJsonValue(serde_json::Value);

/// The document a `serde_json::Value` holds, as a `JVal`.
pub uninterp spec fn jmodel(v: serde_json::Value) -> JVal;

/// What `serde_json::from_str::<Value>` yields on a text: `None` where the
/// text is not a JSON document, else the parsed document.
pub uninterp spec fn json_of(s: Seq<char>) -> Option<JVal>;

/// Whether a document nests no deeper than `d` levels, every value counting
/// as one level.
pub open spec fn jval_depth_le(j: JVal, d: nat) -> bool
    decreases d,
{
    match j {
        JVal::Arr(s) => d > 0 && forall|i: int|
            0 <= i < s.len() ==> jval_depth_le(#[trigger] s[i], (d - 1) as nat),
        JVal::Obj(m) => d > 0 && forall|k: Seq<char>|
            m.dom().contains(k) ==> jval_depth_le(#[trigger] m[k], (d - 1) as nat),
        _ => d > 0,
    }
}

/// The nesting depth up to which printing and re-parsing a document is
/// relied on: serde_json's parser refuses documents nested deeper than 128
/// containers, so this stays well below that.
pub open spec fn depth_limit() -> nat {
    64
}

/// Relies on serde_json::from_str::<Value>: parses a complete JSON text.
#[verifier::external_body]
pub(crate) fn jparse(s: &str) -> (r: Option<serde_json::Value>)
    ensures
        r is Some <==> json_of(s@) is Some,
        r matches Some(v) ==> Some(jmodel(v)) == json_of(s@),
{
    serde_json::from_str::<serde_json::Value>(s).ok()
}

/// Relies on serde_json::to_string: printing a `Value` cannot fail, and on
/// serde_json::from_str: parsing the printed text yields the same document
/// back, provided the document stays within the parser's recursion limit of
/// 128 nested containers (the serializer has none).
#[verifier::external_body]
pub(crate) fn jprint(v: &serde_json::Value) -> (r: String)
    requires
        jval_depth_le(jmodel(*v), depth_limit()),
    ensures
        json_of(r@) == Some(jmodel(*v)),
{
    match serde_json::to_string(v) {
        Ok(s) => s,
        Err(_) => String::new(),
    }
}

/// Relies on serde_json::Value::get with a string index: on an object it
/// looks the key up, on any other value it returns `None`.
#[verifier::external_body]
pub(crate) fn jget<'a>(v: &'a serde_json::Value, key: &str) -> (r: Option<
    &'a serde_json::Value,
>)
    ensures
        match jmodel(*v) {
            JVal::Obj(m) => {
                &&& r is Some <==> m.dom().contains(key@)
                &&& (r matches Some(c) ==> jmodel(*c) == m[key@])
            },
            _ => r is None,
        },
{
    v.get(key)
}

/// Relies on serde_json::Value::as_str: the borrowed string of a string
/// value, `None` on every other value.
#[verifier::external_body]
pub(crate) fn jas_str(v: &serde_json::Value) -> (r: Option<String>)
    ensures
        match jmodel(*v) {
            JVal::Str(s) => r matches Some(x) && x@ == s,
            _ => r is None,
        },
{
    v.as_str().map(|s| s.to_string())
}

/// Relies on serde_json::Value::as_u64: the number, exactly when the value
/// is a number representable as `u64`.
#[verifier::external_body]
pub(crate) fn jas_u64(v: &serde_json::Value) -> (r: Option<u64>)
    ensures
        match jmodel(*v) {
            JVal::U64(n) => r == Some(n),
            _ => r is None,
        },
{
    v.as_u64()
}

/// Relies on serde_json::Value::as_array: the element vector of an array
/// value, `None` on every other value.
#[verifier::external_body]
pub(crate) fn jas_array<'a>(v: &'a serde_json::Value) -> (r: Option<
    &'a Vec<serde_json::Value>,
>)
    ensures
        match jmodel(*v) {
            JVal::Arr(s) => r matches Some(a) && a@.map_values(
                |x: serde_json::Value| jmodel(x),
            ) == s,
            _ => r is None,
        },
{
    v.as_array()
}

/// Relies on serde_json::Value::String: builds a string value.
#[verifier::external_body]
pub(crate) fn jstr(s: &str) -> (r: serde_json::Value)
    ensures
        jmodel(r) == JVal::Str(s@),
{
    serde_json::Value::String(s.to_string())
}

/// Relies on serde_json::Value::from for u64: builds a number value.
#[verifier::external_body]
pub(crate) fn ju64(n: u64) -> (r: serde_json::Value)
    ensures
        jmodel(r) == JVal::U64(n),
{
    serde_json::Value::from(n)
}

/// Relies on serde_json::Map::new: builds an empty object value.
#[verifier::external_body]
pub(crate) fn jobj_empty() -> (r: serde_json::Value)
    ensures
        jmodel(r) == JVal::Obj(Map::<Seq<char>, JVal>::empty()),
{
    serde_json::Value::Object(serde_json::Map::new())
}

/// Relies on serde_json::Map::insert: sets a key of an object value.
#[verifier::external_body]
pub(crate) fn jobj_set(o: &mut serde_json::Value, key: &str, val: serde_json::Value)
    requires
        jmodel(*old(o)) is Obj,
    ensures
        jmodel(*final(o)) == JVal::Obj(jmodel(*old(o))->Obj_0.insert(key@, jmodel(val))),
{
    if let serde_json::Value::Object(m) = o {
        m.insert(key.to_string(), val);
    }
}

} // verus!
