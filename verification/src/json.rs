//! Trusted boundary to `serde_json`: the document type, a mathematical
//! model of what a document holds, and the few accessors the catalog
//! loader walks it with.
//!
//! Every item here is believed, not verified; each doc comment names
//! the `serde_json` function it relies on. A parsed document is opaque
//! to the verifier, so its contents are given a name: [`json_view`]
//! maps a document to the [`JsonView`] it holds, and [`parse_spec`]
//! names the parse itself, which is a function of the text alone. Each
//! accessor's contract says, over those names and the crate's source,
//! exactly when it answers and what the answer holds, so the verified
//! loader in [`crate::cmake`] carries an exact contract of its own.

use vstd::prelude::*;

verus! {

/// The mathematical model of one JSON value. A number's magnitude is
/// never read by this crate, so the `Number` kind carries no payload;
/// an object is modelled as the map from its keys, which the parser
/// keeps unique, to their values.
pub enum JsonView {
    Null,
    Bool(bool),
    Number,
    String(Seq<char>),
    Array(Seq<JsonView>),
    Object(Map<Seq<char>, JsonView>),
}

/// The parsed JSON document type, `serde_json::Value`, held opaquely.
#[verifier::external_type_specification]
#[verifier::external_body]
pub struct ExValue(serde_json::Value);

/// The parser's error type, `serde_json::Error`, held opaquely.
#[verifier::external_type_specification]
#[verifier::external_body]
pub struct ExJsonError(serde_json::Error);

/// What a parsed document holds.
pub uninterp spec fn json_view(value: serde_json::Value) -> JsonView;

/// What parsing a text yields: `None` when the text is not valid JSON.
/// The result depends on the characters alone.
pub uninterp spec fn parse_spec(text: Seq<char>) -> Option<JsonView>;

/// Relies on `serde_json::from_str::<serde_json::Value>`: parses a JSON
/// text into a document, or reports why the text is not valid JSON;
/// the outcome and the parsed document are functions of the text.
#[verifier::external_body]
pub(crate) fn parse_json(text: &str) -> (r: Result<serde_json::Value, serde_json::Error>)
    ensures
        match r {
            Ok(document) => parse_spec(text@) == Some(json_view(document)),
            Err(_) => parse_spec(text@) is None,
        },
{
    serde_json::from_str(text)
}

/// Relies on `serde_json::Value::get` with a string index: the member
/// of an object under the given key, `None` for a missing key or a
/// non-object.
#[verifier::external_body]
pub(crate) fn json_get<'a>(value: &'a serde_json::Value, key: &str) -> (r: Option<
    &'a serde_json::Value,
>)
    ensures
        match r {
            Some(member) => json_view(*value) matches JsonView::Object(m) && m.dom().contains(
                key@,
            ) && json_view(*member) == m[key@],
            None => !(json_view(*value) matches JsonView::Object(m) && m.dom().contains(key@)),
        },
{
    value.get(key)
}

/// Relies on `serde_json::Value::as_array`: the elements of an array
/// value, in order, `None` for any other kind of value.
#[verifier::external_body]
pub(crate) fn json_as_array(value: &serde_json::Value) -> (r: Option<&Vec<serde_json::Value>>)
    ensures
        match r {
            Some(elements) => json_view(*value) == JsonView::Array(
                elements@.map(|i: int, e: serde_json::Value| json_view(e)),
            ),
            None => !(json_view(*value) is Array),
        },
{
    value.as_array()
}

/// Relies on `serde_json::Value::as_str`: the text of a string value,
/// `None` for any other kind of value.
#[verifier::external_body]
pub(crate) fn json_as_str(value: &serde_json::Value) -> (r: Option<&str>)
    ensures
        match r {
            Some(text) => json_view(*value) == JsonView::String(text@),
            None => !(json_view(*value) is String),
        },
{
    value.as_str()
}

/// Relies on `serde_json::Value::as_bool`: the truth of a boolean
/// value, `None` for any other kind of value.
#[verifier::external_body]
pub(crate) fn json_as_bool(value: &serde_json::Value) -> (r: Option<bool>)
    ensures
        match r {
            Some(truth) => json_view(*value) == JsonView::Bool(truth),
            None => !(json_view(*value) is Bool),
        },
{
    value.as_bool()
}

} // verus!
