//! JSON documents.
//!
//! Documents are built as `serde_json::Value`s. Verus cannot look inside such a
//! value, so contracts speak of [`Json`], the document as a mathematical value,
//! and of [`json_model`], the document that a `serde_json::Value` holds.
use vstd::prelude::*;

verus! {

/// A JSON document as a mathematical value.
///
/// An object is a map from keys to documents: it has no order and no key twice,
/// like the sorted map that backs `serde_json::Value::Object`.
pub enum Json {
    Null,
    Bool(bool),
    Number(int),
    String(Seq<char>),
    Array(Seq<Json>),
    Object(Map<Seq<char>, Json>),
}

/// `serde_json::Value`, as a type that is carried and not looked into.
#[verifier::external_type_specification]
#[verifier::external_body]
pub struct ExJsonValue(serde_json::Value);

/// `serde_json::Map`, as a type that is carried and not looked into.
#[verifier::external_type_specification]
#[verifier::external_body]
#[verifier::reject_recursive_types(K)]
#[verifier::reject_recursive_types(V)]
pub struct ExJsonMap<K, V>(serde_json::Map<K, V>);

/// The document that a `serde_json::Value` holds.
pub uninterp spec fn json_model(value: serde_json::Value) -> Json;

/// The entries that a `serde_json::Map` holds.
pub uninterp spec fn json_fields(map: serde_json::Map<String, serde_json::Value>) -> Map<
    Seq<char>,
    Json,
>;

/// The bytes that `serde_json::to_vec` writes for a document.
pub uninterp spec fn json_text(doc: Json) -> Seq<u8>;

/// The documents that a sequence of values holds, in order.
pub open spec fn json_models(values: Seq<serde_json::Value>) -> Seq<Json> {
    values.map_values(|value: serde_json::Value| json_model(value))
}

/// The object without any entry.
pub open spec fn no_fields() -> Map<Seq<char>, Json> {
    Map::empty()
}

/// `serde_json::Value::Null`: the null document.
#[verifier::external_body]
pub(crate) fn json_null() -> (value: serde_json::Value)
    ensures
        json_model(value) == Json::Null,
{
    serde_json::Value::Null
}

/// `serde_json::Value::Bool`: the document of one boolean.
#[verifier::external_body]
pub(crate) fn json_bool(b: bool) -> (value: serde_json::Value)
    ensures
        json_model(value) == Json::Bool(b),
{
    serde_json::Value::Bool(b)
}

/// `serde_json::Number::from` on an `i128`, inside `serde_json::Value::Number`:
/// the document of that number. The conversion keeps every `i128`, since the
/// crate is built with arbitrary precision.
#[verifier::external_body]
pub(crate) fn json_signed(n: i128) -> (value: serde_json::Value)
    ensures
        json_model(value) == Json::Number(n as int),
{
    serde_json::Value::Number(serde_json::Number::from(n))
}

/// `serde_json::Number::from` on a `u128`, inside `serde_json::Value::Number`:
/// the document of that number. The conversion keeps every `u128`, since the
/// crate is built with arbitrary precision.
#[verifier::external_body]
pub(crate) fn json_unsigned(n: u128) -> (value: serde_json::Value)
    ensures
        json_model(value) == Json::Number(n as int),
{
    serde_json::Value::Number(serde_json::Number::from(n))
}

/// `serde_json::Value::String`: the document of one string, which is copied.
#[verifier::external_body]
pub(crate) fn json_string(text: &str) -> (value: serde_json::Value)
    ensures
        json_model(value) == Json::String(text@),
{
    serde_json::Value::String(text.to_string())
}

/// `serde_json::Value::Array`: the array of the given documents, in their order.
#[verifier::external_body]
pub(crate) fn json_array(items: Vec<serde_json::Value>) -> (value: serde_json::Value)
    ensures
        json_model(value) == Json::Array(json_models(items@)),
{
    serde_json::Value::Array(items)
}

/// `serde_json::Map::new`: a map without entries.
#[verifier::external_body]
pub(crate) fn json_map_new() -> (map: serde_json::Map<String, serde_json::Value>)
    ensures
        json_fields(map) == no_fields(),
{
    serde_json::Map::new()
}

/// `serde_json::Map::insert`: the map holds the value under the key afterwards,
/// in place of what it held there before; its other entries stay.
#[verifier::external_body]
pub(crate) fn json_map_insert(
    map: &mut serde_json::Map<String, serde_json::Value>,
    key: &str,
    value: serde_json::Value,
)
    ensures
        json_fields(*final(map)) == json_fields(*old(map)).insert(key@, json_model(value)),
{
    map.insert(key.to_string(), value);
}

/// `serde_json::Value::Object`: the object of the map's entries.
#[verifier::external_body]
pub(crate) fn json_object(map: serde_json::Map<String, serde_json::Value>) -> (value:
    serde_json::Value)
    ensures
        json_model(value) == Json::Object(json_fields(map)),
{
    serde_json::Value::Object(map)
}

/// `Clone::clone` of `serde_json::Value`: the copy holds the same document.
pub assume_specification[ <serde_json::Value as Clone>::clone ](
    value: &serde_json::Value,
) -> (copy: serde_json::Value)
    ensures
        json_model(copy) == json_model(*value),
;

/// `serde_json::to_vec` on a `serde_json::Value`: the document as compact JSON
/// text in UTF-8. The text depends on the document alone: object keys are
/// written in their sorted order. Writing a `Value` into a vector does not fail.
#[verifier::external_body]
pub(crate) fn json_to_vec(value: &serde_json::Value) -> (bytes: Vec<u8>)
    ensures
        bytes@ == json_text(json_model(*value)),
{
    serde_json::to_vec(value).unwrap_or_default()
}

/// The documents of a list of texts: a string for each, in order.
pub open spec fn string_docs(texts: Seq<String>) -> Seq<Json> {
    texts.map_values(|text: String| Json::String(text@))
}

/// The document of a text that may be absent: a string, or null.
pub open spec fn optional_string_doc(text: Option<String>) -> Json {
    match text {
        Some(present) => Json::String(present@),
        None => Json::Null,
    }
}

/// The document of a text that may be absent, where it is present.
pub open spec fn present_string_doc(text: Option<String>) -> Option<Json> {
    match text {
        Some(present) => Some(Json::String(present@)),
        None => None,
    }
}

/// The document that a value that may be absent holds, where it is present.
pub open spec fn present_json_model(value: Option<serde_json::Value>) -> Option<Json> {
    match value {
        Some(present) => Some(json_model(present)),
        None => None,
    }
}

/// The entries with one more under the key, where there is a document for it.
pub open spec fn with_present(
    fields: Map<Seq<char>, Json>,
    key: Seq<char>,
    doc: Option<Json>,
) -> Map<Seq<char>, Json> {
    match doc {
        Some(present) => fields.insert(key, present),
        None => fields,
    }
}

/// The document of an unsigned number of 64 bits.
pub(crate) fn json_u64(n: u64) -> (value: serde_json::Value)
    ensures
        json_model(value) == Json::Number(n as int),
{
    json_unsigned(n as u128)
}

/// The array of the given texts.
pub(crate) fn json_strings(texts: &Vec<String>) -> (value: serde_json::Value)
    ensures
        json_model(value) == Json::Array(string_docs(texts@)),
{
    let mut items: Vec<serde_json::Value> = Vec::new();
    let mut i: usize = 0;
    while i < texts.len()
        invariant
            0 <= i <= texts@.len(),
            json_models(items@) == string_docs(texts@.take(i as int)),
        decreases texts@.len() - i,
    {
        let item = json_string(texts[i].as_str());
        let ghost before = items@;
        items.push(item);
        assert(json_models(items@) =~= json_models(before).push(json_model(item)));
        assert(string_docs(texts@.take(i + 1)) =~= string_docs(texts@.take(i as int)).push(
            Json::String(texts@[i as int]@),
        ));
        i += 1;
    }
    assert(texts@.take(texts@.len() as int) =~= texts@);
    json_array(items)
}

/// The document of a text that may be absent.
pub(crate) fn json_optional_string(text: &Option<String>) -> (value: serde_json::Value)
    ensures
        json_model(value) == optional_string_doc(*text),
{
    match text {
        Some(present) => json_string(present.as_str()),
        None => json_null(),
    }
}

} // verus!
