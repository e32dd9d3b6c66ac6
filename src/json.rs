//! JSON documents, read through serde_json. A `serde_json::Value` is opaque
//! to the verifier; `json_model` names the tree it holds, and each accessor
//! says what it returns in terms of that tree.
use vstd::prelude::*;

verus! {

/// A JSON value as a tree of plain values. A number is held as the text that
/// serde_json prints for it.
pub enum JsonModel {
    Null,
    Bool(bool),
    Number(Seq<char>),
    Text(Seq<char>),
    Array(Seq<JsonModel>),
    Object(Map<Seq<char>, JsonModel>),
}

#[verifier::external_type_specification]
#[verifier::external_body]
pub struct ExValue(serde_json::Value);

/// The tree that a `serde_json::Value` holds.
pub uninterp spec fn json_model(v: serde_json::Value) -> JsonModel;

/// The tree that serde_json reads from a text, or `None` where the text is
/// not one JSON value.
pub uninterp spec fn json_parse(s: Seq<char>) -> Option<JsonModel>;

/// The compact text that serde_json writes for a tree.
pub uninterp spec fn json_text(m: JsonModel) -> Seq<char>;

/// What indexing a value by a key gives: the member of an object under that
/// key, and `Null` where there is none or the value is no object.
pub open spec fn member(m: JsonModel, key: Seq<char>) -> JsonModel {
    match m {
        JsonModel::Object(o) => if o.contains_key(key) {
            o[key]
        } else {
            JsonModel::Null
        },
        _ => JsonModel::Null,
    }
}

/// Relies on serde_json::from_str::<Value>: reads one JSON value from a text.
#[verifier::external_body]
pub(crate) fn parse_json(s: &str) -> (r: Option<serde_json::Value>)
    ensures
        r is Some <==> json_parse(s@) is Some,
        r is Some ==> json_parse(s@) == Some(json_model(r->0)),
{
    serde_json::from_str::<serde_json::Value>(s).ok()
}

/// Relies on `Index<&str> for Value`: the member under a key, or `Null`.
#[verifier::external_body]
pub(crate) fn get_member<'a>(v: &'a serde_json::Value, key: &str) -> (r: &'a serde_json::Value)
    ensures
        json_model(*r) == member(json_model(*v), key@),
{
    &v[key]
}

/// Relies on Value::as_array: the elements of an array, `None` for any other
/// value.
#[verifier::external_body]
pub(crate) fn array_items(v: &serde_json::Value) -> (r: Option<&Vec<serde_json::Value>>)
    ensures
        r is Some <==> json_model(*v) is Array,
        r is Some ==> json_model(*v) == JsonModel::Array(
            r->0@.map_values(|e: serde_json::Value| json_model(e)),
        ),
{
    v.as_array()
}

/// Relies on `Display for Value` (through `to_string`): the compact JSON
/// text of a value.
#[verifier::external_body]
pub(crate) fn value_text(v: &serde_json::Value) -> (r: String)
    ensures
        r@ == json_text(json_model(*v)),
{
    v.to_string()
}

} // verus!
