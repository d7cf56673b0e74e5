//! JSON documents as plain values, and the pieces Kee reads from them.

use vstd::prelude::*;

use crate::text::str_eq;

verus! {

/// A JSON value, one variant per JSON type. A number keeps its text; an
/// object keeps its members in the order the parser gives them.
pub enum JsonValue {
    Null,
    Bool(bool),
    Number(String),
    Str(String),
    Array(Vec<JsonValue>),
    Object(Vec<(String, JsonValue)>),
}

/// serde_json's `Value`, carried through unopened.
#[verifier::external_type_specification]
#[verifier::external_body]
pub struct ExJsonDocument(serde_json::Value);

/// What `serde_json::from_slice` reads from `bytes` as a `serde_json::Value`,
/// converted member for member; `None` when the bytes are not JSON.
pub uninterp spec fn json_parse(bytes: Seq<u8>) -> Option<JsonValue>;

/// Converts a `serde_json::Value` one for one into a `JsonValue`: a number
/// becomes its text, an object its members in the map's order.
#[verifier::external_body]
fn plain_json(v: serde_json::Value) -> JsonValue {
    match v {
        serde_json::Value::Null => JsonValue::Null,
        serde_json::Value::Bool(b) => JsonValue::Bool(b),
        serde_json::Value::Number(n) => JsonValue::Number(n.to_string()),
        serde_json::Value::String(s) => JsonValue::Str(s),
        serde_json::Value::Array(a) => JsonValue::Array(a.into_iter().map(plain_json).collect()),
        serde_json::Value::Object(o) => JsonValue::Object(o.into_iter().map(|(k, x)| (k, plain_json(x))).collect()),
    }
}

/// Parses `bytes` with `serde_json::from_slice` into a `serde_json::Value`
/// and converts it with `plain_json`.
///
/// Claims: the result is the one `json_parse` names for the bytes.
#[verifier::external_body]
pub(crate) fn parse_json(bytes: &[u8]) -> (r: Option<JsonValue>)
    ensures
        r == json_parse(bytes@),
{
    serde_json::from_slice::<serde_json::Value>(bytes).ok().map(plain_json)
}

/// The value of the first member of `fields` named `key`.
pub open spec fn json_field(fields: Seq<(String, JsonValue)>, key: Seq<char>) -> Option<JsonValue>
    decreases fields.len(),
{
    if fields.len() == 0 {
        None
    } else if fields[0].0@ == key {
        Some(fields[0].1)
    } else {
        json_field(fields.drop_first(), key)
    }
}

/// The first element of the array stored under `key` in the object `doc`,
/// when that element is a string; `None` when `doc` is no object, the member
/// is missing or no array, the array is empty, or its first element is no
/// string.
pub open spec fn first_string_under(doc: Option<JsonValue>, key: Seq<char>) -> Option<Seq<char>> {
    match doc {
        Some(JsonValue::Object(fields)) => match json_field(fields@, key) {
            Some(JsonValue::Array(items)) => if items@.len() > 0 {
                match items@[0] {
                    JsonValue::Str(s) => Some(s@),
                    _ => None,
                }
            } else {
                None
            },
            _ => None,
        },
        _ => None,
    }
}

/// Finds the first member named `key`.
fn find_field<'a>(fields: &'a Vec<(String, JsonValue)>, key: &str) -> (r: Option<&'a JsonValue>)
    ensures
        match json_field(fields@, key@) {
            Some(v) => r == Some(&v),
            None => r is None,
        },
{
    let mut i: usize = 0;
    assert(fields@.skip(0) =~= fields@);
    while i < fields.len()
        invariant
            0 <= i <= fields@.len(),
            json_field(fields@, key@) == json_field(fields@.skip(i as int), key@),
        decreases fields@.len() - i,
    {
        let ghost rest = fields@.skip(i as int);
        assert(rest.drop_first() =~= fields@.skip(i + 1));
        assert(rest[0] == fields@[i as int]);
        if str_eq(fields[i].0.as_str(), key) {
            return Some(&fields[i].1);
        }
        i = i + 1;
    }
    assert(fields@.skip(i as int).len() == 0);
    None
}

/// The first element of the array under `key` in `doc`, as
/// `first_string_under` describes.
pub fn first_string_in(doc: &Option<JsonValue>, key: &str) -> (r: Option<String>)
    ensures
        crate::config::opt_view(r) == first_string_under(*doc, key@),
{
    match doc {
        Some(JsonValue::Object(fields)) => match find_field(fields, key) {
            Some(JsonValue::Array(items)) => if items.len() > 0 {
                match &items[0] {
                    JsonValue::Str(s) => Some(s.clone()),
                    _ => None,
                }
            } else {
                None
            },
            _ => None,
        },
        _ => None,
    }
}

} // verus!
