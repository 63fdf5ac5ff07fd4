//! The JSON documents this library emits, as a mathematical tree, and the
//! `serde_json` calls that build and render them.

use vstd::prelude::*;

verus! {

/// A JSON document made of strings, arrays and objects. An object keeps its
/// members in the order in which they were given.
pub enum Json {
    Text(Seq<char>),
    List(Seq<Json>),
    Record(Seq<(Seq<char>, Json)>),
}

#[verifier::external_type_specification]
#[verifier::external_body]
pub struct ExValue(serde_json::Value);

/// The document that a `serde_json::Value` holds.
pub uninterp spec fn json_model(value: serde_json::Value) -> Json;

/// The text that `serde_json` writes for a document when it indents each
/// level by four spaces, or `None` where it reports an error.
pub uninterp spec fn json_pretty_text(doc: Json) -> Option<Seq<char>>;

/// The documents held by a sequence of values.
pub open spec fn json_models(values: Seq<serde_json::Value>) -> Seq<Json> {
    values.map_values(|v: serde_json::Value| json_model(v))
}

/// The members held by a sequence of keyed values.
pub open spec fn json_members(entries: Seq<(String, serde_json::Value)>) -> Seq<(Seq<char>, Json)> {
    entries.map_values(|e: (String, serde_json::Value)| (e.0@, json_model(e.1)))
}

/// Whether no key occurs twice among the members.
pub open spec fn distinct_keys(members: Seq<(Seq<char>, Json)>) -> bool {
    forall|i: int, j: int|
        0 <= i < j < members.len() ==> (#[trigger] members[i]).0 != (#[trigger] members[j]).0
}

/// `serde_json::Value::String`: the value holds the given text.
#[verifier::external_body]
pub(crate) fn json_string(text: &str) -> (value: serde_json::Value)
    ensures
        json_model(value) == Json::Text(text@),
{
    serde_json::Value::String(text.to_owned())
}

/// `serde_json::Value::Array`: the value holds the given values' documents,
/// in their order.
#[verifier::external_body]
pub(crate) fn json_array(items: Vec<serde_json::Value>) -> (value: serde_json::Value)
    ensures
        json_model(value) == Json::List(json_models(items@)),
{
    serde_json::Value::Array(items)
}

/// `serde_json::Value::Object` over `serde_json::Map::from_iter`, with
/// `serde_json` built to preserve the order of insertion: with keys that all
/// differ, the value holds the given members in their order.
#[verifier::external_body]
pub(crate) fn json_object(entries: Vec<(String, serde_json::Value)>) -> (value: serde_json::Value)
    requires
        distinct_keys(json_members(entries@)),
    ensures
        json_model(value) == Json::Record(json_members(entries@)),
{
    serde_json::Value::Object(entries.into_iter().collect())
}

/// `serde::Serialize::serialize` of a value into a `serde_json::Serializer`
/// with a `PrettyFormatter` of four spaces: the text depends on the document
/// alone.
#[verifier::external_body]
pub(crate) fn json_pretty(value: &serde_json::Value) -> (text: Option<String>)
    ensures
        match text {
            Some(t) => json_pretty_text(json_model(*value)) == Some(t@),
            None => json_pretty_text(json_model(*value)) is None,
        },
{
    let mut buf = Vec::new();
    let formatter = serde_json::ser::PrettyFormatter::with_indent(b"    ");
    let mut ser = serde_json::Serializer::with_formatter(&mut buf, formatter);
    match serde::Serialize::serialize(value, &mut ser) {
        Ok(()) => String::from_utf8(buf).ok(),
        Err(_) => None,
    }
}

} // verus!
