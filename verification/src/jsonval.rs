//! Trusted boundary to the JSON parser of the `serde_json` crate.
//!
//! Each wrapper decodes one field path of a document to plain values, and
//! its result is named: the names below stand for what serde_json extracts
//! from given text, a function of that text alone. Contracts of the
//! document-decoding functions are stated over these names, so what each
//! decoder returns for a given document is pinned.

use vstd::prelude::*;

verus! {

/// View of an optional owned string.
pub open spec fn opt_view(o: Option<String>) -> Option<Seq<char>> {
    match o {
        Some(s) => Some(s@),
        None => None,
    }
}

/// The string member under `key` of the JSON object `doc` parses to:
/// `None` when the text is not a JSON object, the key is absent, or the
/// member is not a string.
pub uninterp spec fn json_str_field_of(doc: Seq<char>, key: Seq<char>) -> Option<Seq<char>>;

/// Relies on serde_json::from_str, Value::get and Value::as_str: the
/// string member of the document's top-level object under `key`, copied
/// out. A function of the two texts alone.
#[verifier::external_body]
pub fn json_str_field_text(text: &str, key: &str) -> (r: Option<String>)
    ensures
        opt_view(r) == json_str_field_of(text@, key@),
{
    serde_json::from_str::<serde_json::Value>(text)
        .ok()
        .and_then(|doc| doc.get(key).and_then(|v| v.as_str()).map(|s| s.to_owned()))
}

/// As `json_str_field_of`, one object level deeper: the string member
/// under `inner` of the object member under `outer`.
pub uninterp spec fn json_str_field2_of(
    doc: Seq<char>,
    outer: Seq<char>,
    inner: Seq<char>,
) -> Option<Seq<char>>;

/// Relies on serde_json::from_str, Value::get and Value::as_str: a string
/// member nested one object level down. A function of the texts alone.
#[verifier::external_body]
pub fn json_str_field2_text(text: &str, outer: &str, inner: &str) -> (r: Option<String>)
    ensures
        opt_view(r) == json_str_field2_of(text@, outer@, inner@),
{
    serde_json::from_str::<serde_json::Value>(text)
        .ok()
        .and_then(|doc| {
            doc.get(outer).and_then(|o| o.get(inner)).and_then(|v| v.as_str()).map(|s| s.to_owned())
        })
}

/// As `json_str_field_of`, two object levels deeper.
pub uninterp spec fn json_str_field3_of(
    doc: Seq<char>,
    k1: Seq<char>,
    k2: Seq<char>,
    k3: Seq<char>,
) -> Option<Seq<char>>;

/// Relies on serde_json::from_str, Value::get and Value::as_str: a string
/// member nested two object levels down. A function of the texts alone.
#[verifier::external_body]
pub fn json_str_field3_text(text: &str, k1: &str, k2: &str, k3: &str) -> (r: Option<String>)
    ensures
        opt_view(r) == json_str_field3_of(text@, k1@, k2@, k3@),
{
    serde_json::from_str::<serde_json::Value>(text)
        .ok()
        .and_then(|doc| {
            doc.get(k1)
                .and_then(|a| a.get(k2))
                .and_then(|b| b.get(k3))
                .and_then(|v| v.as_str())
                .map(|s| s.to_owned())
        })
}

/// View of a pair of optional owned strings.
pub open spec fn opt_pair_view(p: (Option<String>, Option<String>)) -> (
    Option<Seq<char>>,
    Option<Seq<char>>,
) {
    (opt_view(p.0), opt_view(p.1))
}

/// The elements of the document's top-level `versions` array, each reduced
/// to its `id` and `url` string members (absent or non-string members as
/// `None`); empty when the text is not a JSON object holding such an
/// array.
pub uninterp spec fn json_versions_of(doc: Seq<char>) -> Seq<(Option<Seq<char>>, Option<Seq<char>>)>;

/// Relies on serde_json::from_str, Value::get, Value::as_array and
/// Value::as_str: the `versions` array of the document, each element
/// converted to its plain `id` and `url` members in order.
#[verifier::external_body]
pub fn json_versions_text(text: &str) -> (r: Vec<(Option<String>, Option<String>)>)
    ensures
        r@.map_values(|p: (Option<String>, Option<String>)| opt_pair_view(p)) == json_versions_of(
            text@,
        ),
{
    let parsed = serde_json::from_str::<serde_json::Value>(text).ok();
    let arr = parsed.as_ref().and_then(|doc| doc.get("versions")).and_then(|v| v.as_array());
    match arr {
        Some(entries) => entries
            .iter()
            .map(|e| {
                (
                    e.get("id").and_then(|v| v.as_str()).map(|s| s.to_owned()),
                    e.get("url").and_then(|v| v.as_str()).map(|s| s.to_owned()),
                )
            })
            .collect(),
        None => Vec::new(),
    }
}

} // verus!
