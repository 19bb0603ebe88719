//! Reading single values out of a JSON document by JSON pointer.
//!
//! A document is held as its text. `serde_json` parses it; each lookup
//! reports what kind of value sits at a pointer, with its string or integer
//! content where it has one.

use vstd::prelude::*;

verus! {

/// What a JSON pointer reaches in a document.
#[derive(Debug, PartialEq, Eq)]
pub enum JsonLeaf {
    /// Nothing is there.
    Missing,
    Null,
    Bool(bool),
    /// A number, with its value when it is an integer that fits `i64`.
    Number(Option<i64>),
    Text(String),
    Array,
    Object,
}

/// Whether `serde_json::from_str::<serde_json::Value>` accepts `text`.
pub uninterp spec fn json_parses(text: Seq<char>) -> bool;

/// What `Value::pointer(pointer)` reaches in the value that `serde_json`
/// parses from `text`.
pub uninterp spec fn json_pointer_leaf(text: Seq<char>, pointer: Seq<char>) -> JsonLeaf;

/// The keys of the object that `Value::pointer(pointer)` reaches in the
/// value `serde_json` parses from `text`, in the order the object lists them;
/// `None` when `text` is not JSON or no object is there.
pub uninterp spec fn json_keys_at(text: Seq<char>, pointer: Seq<char>) -> Option<Seq<Seq<char>>>;

/// The characters of each string.
pub open spec fn strings_view(v: Seq<String>) -> Seq<Seq<char>> {
    v.map_values(|s: String| s@)
}

/// The characters of each string of an optional list.
pub open spec fn opt_strings_view(o: Option<Vec<String>>) -> Option<Seq<Seq<char>>> {
    match o {
        Some(v) => Some(strings_view(v@)),
        None => None,
    }
}

/// Whether `text` is a JSON document.
///
/// Trusted: calls `serde_json::from_str::<serde_json::Value>` and reports
/// whether it returned `Ok`; the answer depends on the text alone.
#[verifier::external_body]
pub(crate) fn json_is_valid(text: &str) -> (ok: bool)
    ensures
        ok == json_parses(text@),
{
    serde_json::from_str::<serde_json::Value>(text).is_ok()
}

/// What the JSON pointer `pointer` reaches in the document `text`.
///
/// Trusted: parses `text` with `serde_json::from_str::<serde_json::Value>`,
/// looks the pointer up with `Value::pointer`, and reports the kind of value
/// found; an integer is read with `Number::as_i64`. The contract claims only
/// that the answer depends on the text and the pointer alone.
#[verifier::external_body]
pub(crate) fn json_lookup(text: &str, pointer: &str) -> (leaf: JsonLeaf)
    requires
        json_parses(text@),
    ensures
        leaf == json_pointer_leaf(text@, pointer@),
{
    let value: serde_json::Value = match serde_json::from_str(text) {
        Ok(value) => value,
        Err(_) => return JsonLeaf::Missing,
    };
    match value.pointer(pointer) {
        None => JsonLeaf::Missing,
        Some(serde_json::Value::Null) => JsonLeaf::Null,
        Some(serde_json::Value::Bool(b)) => JsonLeaf::Bool(*b),
        Some(serde_json::Value::Number(n)) => JsonLeaf::Number(n.as_i64()),
        Some(serde_json::Value::String(s)) => JsonLeaf::Text(s.clone()),
        Some(serde_json::Value::Array(_)) => JsonLeaf::Array,
        Some(serde_json::Value::Object(_)) => JsonLeaf::Object,
    }
}

/// The keys of the object at `pointer` in the document `text`.
///
/// Trusted: parses `text` with `serde_json::from_str::<serde_json::Value>`,
/// looks the pointer up with `Value::pointer`, and, where an object is there,
/// lists the object's keys in the map's own order (ascending, as serde_json's
/// map is ordered by key without its `preserve_order` feature). The contract
/// claims only that the answer depends on the text and the pointer alone.
#[verifier::external_body]
pub(crate) fn json_object_keys(text: &str, pointer: &str) -> (keys: Option<Vec<String>>)
    ensures
        opt_strings_view(keys) == json_keys_at(text@, pointer@),
{
    let value: serde_json::Value = match serde_json::from_str(text) {
        Ok(value) => value,
        Err(_) => return None,
    };
    match value.pointer(pointer) {
        Some(serde_json::Value::Object(object)) => Some(object.keys().cloned().collect()),
        _ => None,
    }
}

/// Whether `text` is a JSON document, as `serde_json` parses it.
pub fn is_json_document(text: &str) -> (ok: bool)
    ensures
        ok == json_parses(text@),
{
    json_is_valid(text)
}

/// The string at `pointer`, if a string is there (`Value::as_str`).
pub open spec fn text_at(text: Seq<char>, pointer: Seq<char>) -> Option<Seq<char>> {
    match json_pointer_leaf(text, pointer) {
        JsonLeaf::Text(s) => Some(s@),
        _ => None,
    }
}

/// The integer at `pointer`, if an `i64` is there (`Value::as_i64`).
pub open spec fn int_at(text: Seq<char>, pointer: Seq<char>) -> Option<i64> {
    match json_pointer_leaf(text, pointer) {
        JsonLeaf::Number(Some(v)) => Some(v),
        _ => None,
    }
}

/// Whether anything, `null` included, is at `pointer`.
pub open spec fn present_at(text: Seq<char>, pointer: Seq<char>) -> bool {
    json_pointer_leaf(text, pointer) != JsonLeaf::Missing
}

/// Whether a value other than `null` is at `pointer`.
pub open spec fn non_null_at(text: Seq<char>, pointer: Seq<char>) -> bool {
    present_at(text, pointer) && json_pointer_leaf(text, pointer) != JsonLeaf::Null
}

/// The string at `pointer` of a parsed document.
pub(crate) fn json_text(text: &str, pointer: &str) -> (s: Option<String>)
    requires
        json_parses(text@),
    ensures
        match s {
            Some(s) => text_at(text@, pointer@) == Some(s@),
            None => text_at(text@, pointer@).is_none(),
        },
{
    match json_lookup(text, pointer) {
        JsonLeaf::Text(s) => Some(s),
        _ => None,
    }
}

/// The integer at `pointer` of a parsed document.
pub(crate) fn json_int(text: &str, pointer: &str) -> (v: Option<i64>)
    requires
        json_parses(text@),
    ensures
        v == int_at(text@, pointer@),
{
    match json_lookup(text, pointer) {
        JsonLeaf::Number(Some(v)) => Some(v),
        _ => None,
    }
}

/// Whether anything is at `pointer` of a parsed document.
pub(crate) fn json_present(text: &str, pointer: &str) -> (b: bool)
    requires
        json_parses(text@),
    ensures
        b == present_at(text@, pointer@),
{
    match json_lookup(text, pointer) {
        JsonLeaf::Missing => false,
        _ => true,
    }
}

/// Whether a non-null value is at `pointer` of a parsed document.
pub(crate) fn json_non_null(text: &str, pointer: &str) -> (b: bool)
    requires
        json_parses(text@),
    ensures
        b == non_null_at(text@, pointer@),
{
    match json_lookup(text, pointer) {
        JsonLeaf::Missing => false,
        JsonLeaf::Null => false,
        _ => true,
    }
}

} // verus!
