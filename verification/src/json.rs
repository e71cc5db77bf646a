//! JSON documents as read by `serde_json`, with a mathematical model of their
//! content.

use vstd::prelude::*;

verus! {

/// The content of a JSON value. Numbers carry no payload: nothing here reads
/// one.
pub enum JsonTree {
    Null,
    Bool(bool),
    Number,
    Text(Seq<char>),
    Array(Seq<JsonTree>),
    Object(Map<Seq<char>, JsonTree>),
}

#[verifier::external_type_specification]
#[verifier::external_body]
pub struct ExJsonValue(serde_json::Value);

#[verifier::external_type_specification]
#[verifier::external_body]
pub struct ExJsonError(serde_json::Error);

/// What a `serde_json::Value` holds.
pub uninterp spec fn json_tree(value: serde_json::Value) -> JsonTree;

/// What `serde_json::Error` writes when displayed.
pub uninterp spec fn json_error_text(error: serde_json::Error) -> Seq<char>;

/// What `serde_json::from_slice` makes of a byte string: the content of the
/// document, or the text of the error.
pub uninterp spec fn json_parse(bytes: Seq<u8>) -> Result<JsonTree, Seq<char>>;

/// The member of `tree` under `key`; `Null` where `tree` is no object or has
/// no such key.
pub open spec fn member(tree: JsonTree, key: Seq<char>) -> JsonTree {
    match tree {
        JsonTree::Object(entries) => if entries.contains_key(key) {
            entries[key]
        } else {
            JsonTree::Null
        },
        _ => JsonTree::Null,
    }
}

/// `serde_json::from_slice` at type `Value`. Trusted: the outcome is the one
/// that `json_parse` names for these bytes.
#[verifier::external_body]
pub(crate) fn parse_document(bytes: &[u8]) -> (r: Result<serde_json::Value, serde_json::Error>)
    ensures
        match json_parse(bytes@) {
            Ok(tree) => r is Ok && json_tree(r->Ok_0) == tree,
            Err(text) => r is Err && json_error_text(r->Err_0) == text,
        },
{
    serde_json::from_slice::<serde_json::Value>(bytes)
}

/// `Display` of `serde_json::Error`, through `to_string`. Trusted: the string
/// is the text that `json_error_text` names.
#[verifier::external_body]
pub(crate) fn error_text(error: &serde_json::Error) -> (r: String)
    ensures
        r@ == json_error_text(*error),
{
    error.to_string()
}

/// The index operator of `serde_json::Value` with a string key. Trusted: it
/// yields the member under the key, and `Null` where the value is no object
/// or lacks the key.
#[verifier::external_body]
pub(crate) fn field<'a>(value: &'a serde_json::Value, key: &str) -> (r: &'a serde_json::Value)
    ensures
        json_tree(*r) == member(json_tree(*value), key@),
{
    &value[key]
}

/// Trusted: `as_array` yields the elements of an array, in order, and `None`
/// for any other value.
pub assume_specification[ serde_json::Value::as_array ](value: &serde_json::Value) -> (r: Option<
    &Vec<serde_json::Value>,
>)
    ensures
        match json_tree(*value) {
            JsonTree::Array(items) => r is Some && r->Some_0@.map_values(
                |item: serde_json::Value| json_tree(item),
            ) == items,
            _ => r is None,
        },
;

/// Trusted: `as_str` yields the text of a string, and `None` for any other
/// value.
pub assume_specification[ serde_json::Value::as_str ](value: &serde_json::Value) -> (r: Option<
    &str,
>)
    ensures
        match json_tree(*value) {
            JsonTree::Text(text) => r is Some && r->Some_0@ == text,
            _ => r is None,
        },
;

} // verus!
