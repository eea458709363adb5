//! JSON documents, as `serde_json` holds them.
//!
//! A document is opaque to the verifier. What the rest of the library knows
//! of one comes from the two readers below, whose contracts are taken on
//! trust from `serde_json`'s source.

use vstd::prelude::*;

verus! {

#[verifier::external_type_specification]
#[verifier::external_body]
pub struct ExValue(serde_json::Value);

/// The member that a JSON object holds under `key`; `None` where the
/// document is no object or has no such member.
pub uninterp spec fn json_member(doc: serde_json::Value, key: Seq<char>) -> Option<
    serde_json::Value,
>;

/// The text of a JSON string; `None` where the document is anything else.
pub uninterp spec fn json_text(doc: serde_json::Value) -> Option<Seq<char>>;

/// Calls `serde_json::Value::get` with a string key. Trusted: the result is
/// the member of that name where `doc` is an object that has one, and `None`
/// otherwise; the call never panics.
#[verifier::external_body]
pub(crate) fn member<'a>(doc: &'a serde_json::Value, key: &str) -> (r: Option<
    &'a serde_json::Value,
>)
    ensures
        match r {
            Some(m) => json_member(*doc, key@) == Some(*m),
            None => json_member(*doc, key@) is None,
        },
{
    doc.get(key)
}

/// Calls `serde_json::Value::as_str`. Trusted: the result is the string's
/// text where `doc` is a JSON string, and `None` otherwise.
#[verifier::external_body]
pub(crate) fn text<'a>(doc: &'a serde_json::Value) -> (r: Option<&'a str>)
    ensures
        match r {
            Some(s) => json_text(*doc) == Some(s@),
            None => json_text(*doc) is None,
        },
{
    doc.as_str()
}

/// The text under `key` in `doc`, where `doc` is an object whose member of
/// that name is a string.
pub open spec fn text_at(doc: serde_json::Value, key: Seq<char>) -> Option<Seq<char>> {
    match json_member(doc, key) {
        Some(m) => json_text(m),
        None => None,
    }
}

/// Reads the string member `key` of `doc`.
pub fn string_member(doc: &serde_json::Value, key: &str) -> (r: Option<String>)
    ensures
        match r {
            Some(s) => text_at(*doc, key@) == Some(s@),
            None => text_at(*doc, key@) is None,
        },
{
    match member(doc, key) {
        Some(m) => match text(m) {
            Some(s) => Some(s.to_owned()),
            None => None,
        },
        None => None,
    }
}

} // verus!
