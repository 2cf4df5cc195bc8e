//! Trusted access to incoming JSON. Response bodies are parsed by
//! `serde_json`; the parsed document is opaque here, and the verified
//! code reads it only through the small accessors below.
//!
//! So that contracts can speak of what a body yields, each document is
//! named by its canonical text — serde_json's deterministic rendering —
//! and each accessor's result is named as a function of that text:
//! `parsed_doc` for what bytes parse to, `member_doc` for an object
//! member, `str_doc` for a string's content, `array_docs` for an
//! array's members. Every downstream decision is then a stated function
//! of the raw bytes alone.

use vstd::prelude::*;

verus! {

#[verifier::external_type_specification]
#[verifier::external_body]
pub struct ExValue(serde_json::Value);

/// The canonical text of a parsed JSON document: what serde_json would
/// render it back to. It serves only as a name for the document's
/// content; nothing renders it.
pub uninterp spec fn doc_of_value(v: serde_json::Value) -> Seq<char>;

/// The canonical text of the document that `bytes` parse to, `None`
/// when the bytes are not one valid JSON document.
pub uninterp spec fn parsed_doc(bytes: Seq<u8>) -> Option<Seq<char>>;

/// The canonical text of member `key` of the document with canonical
/// text `doc`, `None` when that document is not an object or has no
/// such member.
pub uninterp spec fn member_doc(doc: Seq<char>, key: Seq<char>) -> Option<Seq<char>>;

/// The string content of the document with canonical text `doc`,
/// `None` when that document is not a JSON string.
pub uninterp spec fn str_doc(doc: Seq<char>) -> Option<Seq<char>>;

/// The canonical texts of the members of the document with canonical
/// text `doc`, in order, `None` when that document is not a JSON array.
pub uninterp spec fn array_docs(doc: Seq<char>) -> Option<Seq<Seq<char>>>;

/// Relies on `serde_json::from_slice`: parses bytes as one JSON
/// document, `None` exactly when the bytes are not valid JSON; what it
/// returns depends on the bytes alone.
#[verifier::external_body]
pub(crate) fn json_parse(body: &[u8]) -> (r: Option<serde_json::Value>)
    ensures
        (r is Some) <==> parsed_doc(body@) is Some,
        r matches Some(v) ==> Some(doc_of_value(v)) == parsed_doc(body@),
{
    serde_json::from_slice(body).ok()
}

/// Relies on `serde_json::Value::get`: the value of `key` in a JSON
/// object, `None` when the key is absent or the value is not an
/// object; what it returns depends on the value and key alone.
#[verifier::external_body]
pub(crate) fn json_get<'a>(v: &'a serde_json::Value, key: &str) -> (r: Option<
    &'a serde_json::Value,
>)
    ensures
        (r is Some) <==> member_doc(doc_of_value(*v), key@) is Some,
        r matches Some(m) ==> Some(doc_of_value(*m)) == member_doc(doc_of_value(*v), key@),
{
    v.get(key)
}

/// Relies on `serde_json::Value::as_str`: the content of a JSON string,
/// `None` for any other kind of value; what it returns depends on the
/// value alone.
#[verifier::external_body]
pub(crate) fn json_as_str(v: &serde_json::Value) -> (r: Option<String>)
    ensures
        (r is Some) <==> str_doc(doc_of_value(*v)) is Some,
        r matches Some(s) ==> Some(s@) == str_doc(doc_of_value(*v)),
{
    match v.as_str() {
        Some(s) => Some(s.to_owned()),
        None => None,
    }
}

/// Relies on `serde_json::Value::as_array`: the members of a JSON
/// array, `None` for any other kind of value; what it returns depends
/// on the value alone.
#[verifier::external_body]
pub(crate) fn json_as_array<'a>(v: &'a serde_json::Value) -> (r: Option<
    &'a Vec<serde_json::Value>,
>)
    ensures
        (r is Some) <==> array_docs(doc_of_value(*v)) is Some,
        r matches Some(a) ==> Some(a@.map_values(|m: serde_json::Value| doc_of_value(m)))
            == array_docs(doc_of_value(*v)),
{
    v.as_array()
}

} // verus!
