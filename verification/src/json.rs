//! The JSON object layer: what the application reads out of and writes into
//! JSON text. Both the pairing replies and the settings file are flat JSON
//! objects whose interesting values are strings, so the model of a
//! `serde_json::Map<String, Value>` is a map from each present key to
//! `Some(its string content)` when the value is a JSON string and to `None`
//! when the key is present with a value of any other type.
//!
//! Encoding and decoding is done by serde_json behind the trusted items
//! below; everything that decides on the decoded fields is verified.

use vstd::prelude::*;

verus! {

#[verifier::external_type_specification]
#[verifier::external_body]
pub struct ExValue(serde_json::Value);

#[verifier::external_type_specification]
#[verifier::external_body]
#[verifier::reject_recursive_types(K)]
#[verifier::reject_recursive_types(V)]
pub struct ExJsonObject<K, V>(serde_json::Map<K, V>);

/// The string fields of a JSON object: each present key maps to
/// `Some(content)` when its value is a JSON string with that content, and to
/// `None` when its value has any other type.
pub uninterp spec fn obj_fields(m: serde_json::Map<String, serde_json::Value>) -> Map<
    Seq<char>,
    Option<Seq<char>>,
>;

/// What parsing a text as a JSON object yields: `None` when the text is not a
/// JSON object, `Some` of the object's string fields otherwise. Parsing is a
/// function of the text alone.
pub uninterp spec fn parsed_fields(s: Seq<char>) -> Option<Map<Seq<char>, Option<Seq<char>>>>;

/// Whether the object's serialized form parses back to an object with the
/// same fields. serde_json's parser enforces a nesting limit that its
/// serializer does not, so this is not free of every conceivable object; it
/// holds of every object this module hands out: a fresh one is flat, a parsed
/// one already passed the parser's own limit, and inserting a string value
/// deepens nothing.
pub uninterp spec fn reparsable(m: serde_json::Map<String, serde_json::Value>) -> bool;

/// The model of an object with no fields.
pub open spec fn empty_fields() -> Map<Seq<char>, Option<Seq<char>>> {
    Map::empty()
}

/// Relies on serde_json::Map::new: a new object has no fields, and its
/// serialized form, a flat empty object, parses back.
#[verifier::external_body]
pub(crate) fn obj_new() -> (r: serde_json::Map<String, serde_json::Value>)
    ensures
        obj_fields(r) == empty_fields(),
        reparsable(r),
{
    serde_json::Map::new()
}

/// Relies on serde_json::Map::insert together with Value::String: inserting a
/// string value stores it under the key, replacing any previous value, and
/// leaves every other key untouched. A string value adds no nesting, so the
/// object stays re-parsable if it was.
#[verifier::external_body]
pub(crate) fn obj_insert_string(
    m: &mut serde_json::Map<String, serde_json::Value>,
    key: &str,
    value: &str,
)
    ensures
        obj_fields(*final(m)) == obj_fields(*old(m)).insert(key@, Some(value@)),
        reparsable(*old(m)) ==> reparsable(*final(m)),
{
    m.insert(key.to_owned(), serde_json::Value::String(value.to_owned()));
}

/// Relies on serde_json::Map::get together with Value::as_str: the lookup
/// returns the value stored under the key, and as_str returns its content
/// exactly when that value is a JSON string.
#[verifier::external_body]
pub(crate) fn obj_get_string(
    m: &serde_json::Map<String, serde_json::Value>,
    key: &str,
) -> (r: Option<String>)
    ensures
        match r {
            Some(s) => obj_fields(*m).dom().contains(key@) && obj_fields(*m)[key@] == Some(s@),
            None => !(obj_fields(*m).dom().contains(key@) && obj_fields(*m)[key@] is Some),
        },
{
    match m.get(key) {
        Some(v) => match v.as_str() {
            Some(s) => Some(s.to_owned()),
            None => None,
        },
        None => None,
    }
}

/// Relies on serde_json::from_str for `Map<String, Value>`: it succeeds
/// exactly on text that is a JSON object, and the parse is a function of the
/// text alone. A parsed object lies within the parser's own nesting limit and
/// its values round-trip, so it is re-parsable.
#[verifier::external_body]
pub(crate) fn obj_parse(s: &str) -> (r: Option<serde_json::Map<String, serde_json::Value>>)
    ensures
        match r {
            Some(m) => parsed_fields(s@) == Some(obj_fields(m)) && reparsable(m),
            None => parsed_fields(s@) is None,
        },
{
    match serde_json::from_str::<serde_json::Map<String, serde_json::Value>>(s) {
        Ok(m) => Some(m),
        Err(_) => None,
    }
}

/// Relies on serde_json::to_string_pretty: serializing a `Map<String, Value>`
/// cannot fail (its keys are strings and its values are serializable), and
/// for a re-parsable object — which every object this module hands out is —
/// from_str parses the produced text back to an object with the same fields.
#[verifier::external_body]
pub(crate) fn obj_to_string(m: &serde_json::Map<String, serde_json::Value>) -> (r: String)
    requires
        reparsable(*m),
    ensures
        parsed_fields(r@) == Some(obj_fields(*m)),
{
    serde_json::to_string_pretty(m).unwrap()
}

/// The string field stored under `key` in the JSON object that `s` encodes:
/// `Some(content)` exactly when `s` is a JSON object holding a string value
/// under `key`.
pub open spec fn string_field(s: Seq<char>, key: Seq<char>) -> Option<Seq<char>> {
    match parsed_fields(s) {
        Some(f) => if f.dom().contains(key) {
            f[key]
        } else {
            None
        },
        None => None,
    }
}

/// Extracts the string stored under `key` in the JSON object that `body`
/// encodes; `None` when `body` is not a JSON object, the key is absent, or
/// its value is not a string.
pub fn get_string_field(body: &str, key: &str) -> (r: Option<String>)
    ensures
        match r {
            Some(s) => string_field(body@, key@) == Some(s@),
            None => string_field(body@, key@) is None,
        },
{
    match obj_parse(body) {
        Some(m) => obj_get_string(&m, key),
        None => None,
    }
}

} // verus!
