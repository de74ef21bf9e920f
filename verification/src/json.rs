//! JSON documents as values, and the parser that reads them from text.

use vstd::prelude::*;

verus! {

/// A JSON document.
///
/// An object keeps its fields in a list. Where a name stands twice in that
/// list, the later field is the one that counts.
#[derive(Debug)]
pub enum Json {
    /// `null`
    Null,
    /// `true` or `false`
    Bool(bool),
    /// A number: its value where it is an integer that an `i64` holds, `None`
    /// for a fraction, an exponent form or an integer beyond that range.
    Number(Option<i64>),
    /// A text.
    String(String),
    /// An array, in the document's order.
    Array(Vec<Json>),
    /// An object: its fields, each a name and a value.
    Object(Vec<(String, Json)>),
}

/// The value of the field called `key` among `fields`: that of the last field
/// of that name, `None` where no field has it.
pub open spec fn field(fields: Seq<(String, Json)>, key: Seq<char>) -> Option<Json>
    decreases fields.len(),
{
    if fields.len() == 0 {
        None
    } else if fields.last().0@ == key {
        Some(fields.last().1)
    } else {
        field(fields.drop_last(), key)
    }
}

/// Looks up the field called `key` among the fields of an object.
pub fn find_field<'a>(fields: &'a Vec<(String, Json)>, key: &String) -> (found: Option<&'a Json>)
    ensures
        match found {
            Some(value) => field(fields@, key@) == Some(*value),
            None => field(fields@, key@) is None,
        },
{
    let mut i: usize = fields.len();
    assert(fields@.take(i as int) == fields@);
    while i > 0
        invariant
            i <= fields.len(),
            field(fields@, key@) == field(fields@.take(i as int), key@),
        decreases i,
    {
        assert(fields@.take(i as int).drop_last() == fields@.take(i as int - 1));
        if fields[i - 1].0 == *key {
            return Some(&fields[i - 1].1);
        }
        i = i - 1;
    }
    None
}

/// The outside type of a parsed JSON document, carried from the parser to
/// [`json_from_value`] and never looked into.
#[verifier::external_type_specification]
#[verifier::external_body]
pub struct ExValue(serde_json::Value);

/// The outside type of a parse error, carried out of [`parse_value`] and
/// never looked into.
#[verifier::external_type_specification]
#[verifier::external_body]
pub struct ExError(serde_json::Error);

/// The document that `serde_json::from_str` reads from a text, `None` where it
/// reports an error: the text is not one JSON document.
pub uninterp spec fn json_of_text(text: Seq<char>) -> Option<Json>;

/// The document that a `serde_json::Value` holds, written as a [`Json`].
pub uninterp spec fn json_of_value(value: serde_json::Value) -> Json;

/// Calls `serde_json::from_str` for a `serde_json::Value`. The parser reads
/// nothing but the text, so what it returns is a function of the text:
/// it returns a value exactly where [`json_of_text`] is a document, and the
/// value holds that document.
#[verifier::external_body]
fn parse_value(text: &str) -> (parsed: Result<serde_json::Value, serde_json::Error>)
    ensures
        match parsed {
            Ok(value) => json_of_text(text@) == Some(json_of_value(value)),
            Err(_) => json_of_text(text@) is None,
        },
{
    serde_json::from_str::<serde_json::Value>(text)
}

/// Moves what a `serde_json::Value` holds into a [`Json`], variant by
/// variant: a number through `Number::as_i64`, the items of an array in
/// their order, the fields of an object in the order in which
/// `serde_json::Map` hands them out.
#[verifier::external_body]
fn json_from_value(value: serde_json::Value) -> (json: Json)
    ensures
        json == json_of_value(value),
{
    match value {
        serde_json::Value::Null => Json::Null,
        serde_json::Value::Bool(flag) => Json::Bool(flag),
        serde_json::Value::Number(number) => Json::Number(number.as_i64()),
        serde_json::Value::String(text) => Json::String(text),
        serde_json::Value::Array(items) => Json::Array(items.into_iter().map(json_from_value).collect()),
        serde_json::Value::Object(fields) => Json::Object(
            fields.into_iter().map(|(name, item)| (name, json_from_value(item))).collect(),
        ),
    }
}

/// Reads one JSON document from a text.
///
/// Returns the document that the text holds, and `None` where the text is not
/// one JSON document.
pub fn parse_json(text: &str) -> (json: Option<Json>)
    ensures
        json == json_of_text(text@),
{
    match parse_value(text) {
        Ok(value) => Some(json_from_value(value)),
        Err(_) => None,
    }
}

} // verus!
