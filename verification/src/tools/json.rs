//! JSON documents, as `serde_json` represents them.
//!
//! The values of `serde_json` are opaque to the verifier. What a value holds
//! is named by `json_doc`, and the few constructors that the schema code
//! calls are given contracts over that name.

use vstd::prelude::*;

verus! {

/// A JSON document as a mathematical value, as far as the schema code builds
/// one: flags, texts, lists and objects.
pub enum JsonDoc {
    Flag(bool),
    Text(Seq<char>),
    List(Seq<JsonDoc>),
    Object(Map<Seq<char>, JsonDoc>),
}

impl JsonDoc {
    /// The members of the empty object.
    pub open spec fn no_members() -> Map<Seq<char>, JsonDoc> {
        Map::empty()
    }
}

#[verifier::external_type_specification]
#[verifier::external_body]
pub struct ExJsonValue(serde_json::Value);

#[verifier::external_type_specification]
#[verifier::external_body]
#[verifier::reject_recursive_types(K)]
#[verifier::reject_recursive_types(V)]
pub struct ExJsonMap<K, V>(serde_json::Map<K, V>);

/// The members of a JSON object, as `serde_json` holds them.
pub type JsonObject = serde_json::Map<String, serde_json::Value>;

/// The document that a `serde_json::Value` holds.
pub uninterp spec fn json_doc(value: serde_json::Value) -> JsonDoc;

/// The members that a `serde_json::Map` holds, by key.
pub uninterp spec fn json_members(object: JsonObject) -> Map<Seq<char>, JsonDoc>;

/// The documents of a sequence of values.
pub open spec fn json_docs(values: Seq<serde_json::Value>) -> Seq<JsonDoc> {
    values.map_values(|v: serde_json::Value| json_doc(v))
}

/// `serde_json::Value::String`: the JSON string with the text of `text`.
#[verifier::external_body]
pub(crate) fn json_text(text: &str) -> (value: serde_json::Value)
    ensures
        json_doc(value) == JsonDoc::Text(text@),
{
    serde_json::Value::String(text.to_string())
}

/// `serde_json::Value::Bool`: the JSON value `true` or `false`.
#[verifier::external_body]
pub(crate) fn json_flag(flag: bool) -> (value: serde_json::Value)
    ensures
        json_doc(value) == JsonDoc::Flag(flag),
{
    serde_json::Value::Bool(flag)
}

/// `serde_json::Value::Array`: the JSON array of `items`, in their order.
#[verifier::external_body]
pub(crate) fn json_list(items: Vec<serde_json::Value>) -> (value: serde_json::Value)
    ensures
        json_doc(value) == JsonDoc::List(json_docs(items@)),
{
    serde_json::Value::Array(items)
}

/// `serde_json::Value::Object`: the JSON object with the members of
/// `members`.
#[verifier::external_body]
pub(crate) fn json_object(members: JsonObject) -> (value: serde_json::Value)
    ensures
        json_doc(value) == JsonDoc::Object(json_members(members)),
{
    serde_json::Value::Object(members)
}

/// `serde_json::Map::new`: a map without members.
#[verifier::external_body]
pub(crate) fn json_map_new() -> (members: JsonObject)
    ensures
        json_members(members) == JsonDoc::no_members(),
{
    serde_json::Map::new()
}

/// `serde_json::Map::insert`: puts `value` under `key`, in place of what the
/// map held under that key, and leaves every other member as it was.
#[verifier::external_body]
pub(crate) fn json_map_insert(members: &mut JsonObject, key: &str, value: serde_json::Value)
    ensures
        json_members(*final(members)) == json_members(*old(members)).insert(
            key@,
            json_doc(value),
        ),
{
    members.insert(key.to_string(), value);
}

} // verus!
