//! JSON values as `serde_json` holds them, with the model that the contracts
//! of this crate speak of.

use crate::strmap::{distinct_keys, has_key, position, Entry};
use crate::text::{text_of, text_of_ref};
use serde_json::Value;
use vstd::prelude::*;

verus! {

/// `serde_json::Value`, carried through verified code as an opaque value.
#[verifier::external_type_specification]
#[verifier::external_body]
pub struct ExValue(serde_json::Value);

/// What a JSON value holds. A number stands as the text that `serde_json`
/// prints for it.
pub enum JsonDoc {
    Null,
    Bool(bool),
    Number(Seq<char>),
    Text(Seq<char>),
    Array(Seq<JsonDoc>),
    Object(Map<Seq<char>, JsonDoc>),
}

/// What a `serde_json::Value` holds.
pub uninterp spec fn json_doc(v: Value) -> JsonDoc;

/// What `serde_json::from_str` makes of a text: the value it parses to, or
/// `None` where it reports an error.
pub uninterp spec fn json_parse(text: Seq<char>) -> Option<JsonDoc>;

/// What `serde_json::to_string` makes of a value: the compact text it
/// writes, or `None` where it reports an error.
pub uninterp spec fn json_render(doc: JsonDoc) -> Option<Seq<char>>;

/// The member `key` of an object; `None` for a missing member and for
/// anything that is not an object.
pub open spec fn field_of(doc: JsonDoc, key: Seq<char>) -> Option<JsonDoc> {
    match doc {
        JsonDoc::Object(m) => if m.contains_key(key) {
            Some(m[key])
        } else {
            None
        },
        _ => None,
    }
}

/// What an optional reference to a value holds.
pub open spec fn doc_of_ref(r: Option<&Value>) -> Option<JsonDoc> {
    match r {
        Some(v) => Some(json_doc(*v)),
        None => None,
    }
}

/// What an optional value holds.
pub open spec fn doc_of(r: Option<Value>) -> Option<JsonDoc> {
    match r {
        Some(v) => Some(json_doc(v)),
        None => None,
    }
}

/// What each value of a sequence holds.
pub open spec fn docs_of(items: Seq<Value>) -> Seq<JsonDoc> {
    Seq::new(items.len(), |i: int| json_doc(items[i]))
}

/// The object that a sequence of entries with distinct keys stands for.
pub open spec fn members_of(entries: Seq<Entry<Value>>) -> Map<Seq<char>, JsonDoc> {
    Map::new(
        |k: Seq<char>| has_key(entries, k),
        |k: Seq<char>| json_doc(entries[position(entries, k)].value),
    )
}

/// The text of a string value; `None` for any other value.
pub open spec fn text_in(doc: JsonDoc) -> Option<Seq<char>> {
    match doc {
        JsonDoc::Text(s) => Some(s),
        _ => None,
    }
}

/// The printed digits of a number; `None` for any other value.
pub open spec fn digits_in(doc: JsonDoc) -> Option<Seq<char>> {
    match doc {
        JsonDoc::Number(s) => Some(s),
        _ => None,
    }
}

/// Calls `serde_json::from_str` for a `Value`. The outcome is a function of
/// the text alone; the contract gives it the name `json_parse` and claims
/// nothing else of it.
#[verifier::external_body]
pub(crate) fn parse_value(text: &str) -> (r: Option<Value>)
    ensures
        doc_of(r) == json_parse(text@),
{
    serde_json::from_str::<Value>(text).ok()
}

/// Calls `serde_json::to_string` on a `Value`. The outcome is a function of
/// the value alone; the contract gives it the name `json_render`. The text
/// is compact: the writer adds no white space and writes every control
/// character of a string as an escape, so it holds no line feed.
#[verifier::external_body]
pub(crate) fn render_value(v: &Value) -> (r: Option<String>)
    ensures
        text_of(r) == json_render(json_doc(*v)),
        r matches Some(s) ==> !s@.contains('\n'),
{
    serde_json::to_string(v).ok()
}

/// Calls `Value::get` with a string index: the member of that name where the
/// value is an object that has it, `None` otherwise.
#[verifier::external_body]
pub(crate) fn value_field<'a>(v: &'a Value, key: &str) -> (r: Option<&'a Value>)
    ensures
        doc_of_ref(r) == field_of(json_doc(*v), key@),
{
    v.get(key)
}

/// Calls `Value::as_str`: the text where the value is a string, `None`
/// otherwise.
#[verifier::external_body]
pub(crate) fn value_text<'a>(v: &'a Value) -> (r: Option<&'a str>)
    ensures
        text_of_ref(r) == text_in(json_doc(*v)),
{
    v.as_str()
}

/// Calls `to_string` on the `Number` of a number value, which prints it as
/// `serde_json` writes numbers; `None` where the value is no number.
#[verifier::external_body]
pub(crate) fn value_digits(v: &Value) -> (r: Option<String>)
    ensures
        text_of(r) == digits_in(json_doc(*v)),
{
    match v {
        Value::Number(n) => Some(n.to_string()),
        _ => None,
    }
}

/// Calls `Value::clone`: the copy holds what the value holds.
#[verifier::external_body]
pub(crate) fn copy_value(v: &Value) -> (r: Value)
    ensures
        json_doc(r) == json_doc(*v),
{
    v.clone()
}

/// Builds `Value::Null`.
#[verifier::external_body]
pub(crate) fn null_value() -> (r: Value)
    ensures
        json_doc(r) == JsonDoc::Null,
{
    Value::Null
}

/// Builds `Value::String` from a string.
#[verifier::external_body]
pub(crate) fn text_value(s: String) -> (r: Value)
    ensures
        json_doc(r) == JsonDoc::Text(s@),
{
    Value::String(s)
}

/// Builds `Value::Array` from its items, kept in order.
#[verifier::external_body]
pub(crate) fn array_value(items: Vec<Value>) -> (r: Value)
    ensures
        json_doc(r) == JsonDoc::Array(docs_of(items@)),
{
    Value::Array(items)
}

/// Builds `Value::Object` by collecting key and value pairs into a
/// `serde_json::Map`. With distinct keys the object has exactly these
/// members.
#[verifier::external_body]
pub(crate) fn object_value(entries: Vec<Entry<Value>>) -> (r: Value)
    requires
        distinct_keys(entries@),
    ensures
        json_doc(r) == JsonDoc::Object(members_of(entries@)),
{
    Value::Object(entries.into_iter().map(|e| (e.key, e.value)).collect())
}

/// The items of an array; `None` for any other value.
pub open spec fn items_in(doc: JsonDoc) -> Option<Seq<JsonDoc>> {
    match doc {
        JsonDoc::Array(items) => Some(items),
        _ => None,
    }
}

/// What each of the values of an optional list holds.
pub open spec fn docs_of_list(r: Option<Vec<Value>>) -> Option<Seq<JsonDoc>> {
    match r {
        Some(items) => Some(docs_of(items@)),
        None => None,
    }
}

/// Calls `Value::as_array` and copies the items: the items in order where
/// the value is an array, `None` otherwise.
#[verifier::external_body]
pub(crate) fn value_items(v: &Value) -> (r: Option<Vec<Value>>)
    ensures
        docs_of_list(r) == items_in(json_doc(*v)),
{
    v.as_array().cloned()
}

/// Calls `Value::is_object`.
#[verifier::external_body]
pub(crate) fn value_is_object(v: &Value) -> (r: bool)
    ensures
        r == (json_doc(*v) is Object),
{
    v.is_object()
}

/// Calls `Value::is_null`.
#[verifier::external_body]
pub(crate) fn value_is_null(v: &Value) -> (r: bool)
    ensures
        r == (json_doc(*v) is Null),
{
    v.is_null()
}

} // verus!
