//! A plain model of JSON documents, and the encoding and decoding that
//! serde_json performs on them.
use vstd::prelude::*;

use crate::errors::Error;
use crate::text::{bounded_decimal, parse_bounded_decimal, same_text};

verus! {

/// A JSON value. Numbers keep the text that serde_json prints for them.
#[derive(Debug)]
pub enum JsonValue {
    Null,
    Bool(bool),
    Number(String),
    Str(String),
    Array(Vec<JsonValue>),
    Object(Vec<(String, JsonValue)>),
}

/// serde_json's `Value`, opaque here: it only passes from the parser to the
/// conversion into `JsonValue`.
#[verifier::external_type_specification]
#[verifier::external_body]
pub struct ExValue(serde_json::Value);

/// The document that the bytes hold as JSON text, if they hold one.
pub uninterp spec fn json_of(bytes: Seq<u8>) -> Option<JsonValue>;

/// The JSON text of the object that the given names and string values build:
/// a later pair replaces an earlier one of the same name, and the members
/// come out ordered by name.
pub uninterp spec fn json_object_text(members: Seq<(Seq<char>, Seq<char>)>) -> Seq<u8>;

pub open spec fn pairs_view(ps: Seq<(String, String)>) -> Seq<(Seq<char>, Seq<char>)> {
    ps.map_values(|e: (String, String)| (e.0@, e.1@))
}

/// Turns serde_json's `Value` into the library's model, node for node; a
/// number becomes the text that serde_json's `Display` gives for it.
#[verifier::external_body]
fn model_of(v: serde_json::Value) -> JsonValue {
    match v {
        serde_json::Value::Null => JsonValue::Null,
        serde_json::Value::Bool(b) => JsonValue::Bool(b),
        serde_json::Value::Number(n) => JsonValue::Number(n.to_string()),
        serde_json::Value::String(s) => JsonValue::Str(s),
        serde_json::Value::Array(a) => JsonValue::Array(a.into_iter().map(model_of).collect()),
        serde_json::Value::Object(m) => JsonValue::Object(
            m.into_iter().map(|(k, x)| (k, model_of(x))).collect(),
        ),
    }
}

/// Relies on serde_json::from_slice into a `Value`: it either reads one JSON
/// document from the bytes or fails with a diagnostic text.
#[verifier::external_body]
fn parse_json_bytes(bytes: &[u8]) -> (r: Result<JsonValue, String>)
    ensures
        r is Ok <==> json_of(bytes@) is Some,
        r matches Ok(v) ==> json_of(bytes@) == Some(v),
{
    match serde_json::from_slice::<serde_json::Value>(bytes) {
        Ok(v) => Ok(model_of(v)),
        Err(e) => Err(e.to_string()),
    }
}

/// Relies on serde_json::to_vec of a `Value::Object` built from the pairs: the
/// JSON text of that object. It cannot fail here: every key is a string and
/// every value a string, written into a `Vec`.
#[verifier::external_body]
fn encode_object(members: &Vec<(String, String)>) -> (r: Result<Vec<u8>, String>)
    ensures
        r is Ok,
        r matches Ok(b) ==> b@ == json_object_text(pairs_view(members@)),
{
    let map: serde_json::Map<String, serde_json::Value> = members.iter().map(
        |(k, v)| (k.clone(), serde_json::Value::String(v.clone())),
    ).collect();
    serde_json::to_vec(&serde_json::Value::Object(map)).map_err(|e| e.to_string())
}

/// Reads a JSON document; a malformed one is a deserialization error that
/// carries the parser's diagnostic.
pub fn parse_json(bytes: &[u8]) -> (r: Result<JsonValue, Error>)
    ensures
        r is Ok <==> json_of(bytes@) is Some,
        r matches Ok(v) ==> json_of(bytes@) == Some(v),
        r matches Err(e) ==> e is DeserealizationError,
{
    match parse_json_bytes(bytes) {
        Ok(v) => Ok(v),
        Err(m) => Err(Error::DeserealizationError(m)),
    }
}

/// Encodes the pairs as the members of one JSON object.
pub fn encode_members(members: &Vec<(String, String)>) -> (r: Vec<u8>)
    ensures
        r@ == json_object_text(pairs_view(members@)),
{
    match encode_object(members) {
        Ok(b) => b,
        Err(_) => {
            assert(false);
            Vec::new()
        },
    }
}

/// The value of the first member named `key` at or after position `i`.
pub open spec fn lookup_from(entries: Seq<(String, JsonValue)>, key: Seq<char>, i: int) -> Option<
    JsonValue,
>
    decreases entries.len() - i,
{
    if i < 0 || i >= entries.len() {
        None
    } else if entries[i].0@ == key {
        Some(entries[i].1)
    } else {
        lookup_from(entries, key, i + 1)
    }
}

/// The member `key` of `v`, when `v` is an object that has one.
pub open spec fn field_of(v: JsonValue, key: Seq<char>) -> Option<JsonValue> {
    match v {
        JsonValue::Object(entries) => lookup_from(entries@, key, 0),
        _ => None,
    }
}

/// A required text member: present and a string.
pub open spec fn text_of(v: JsonValue, key: Seq<char>) -> Option<Seq<char>> {
    match field_of(v, key) {
        Some(JsonValue::Str(s)) => Some(s@),
        _ => None,
    }
}

pub open spec fn opt_view(o: Option<String>) -> Option<Seq<char>> {
    match o {
        Some(s) => Some(s@),
        None => None,
    }
}

/// An optional text member: absent or null reads as `None`, a string as
/// `Some`; anything else does not read (outer `None`).
pub open spec fn opt_text_of(v: JsonValue, key: Seq<char>) -> Option<Option<Seq<char>>> {
    match field_of(v, key) {
        None => Some(None),
        Some(JsonValue::Null) => Some(None),
        Some(JsonValue::Str(s)) => Some(Some(s@)),
        _ => None,
    }
}

/// A number that fits in a `u8`.
pub open spec fn small_number(v: JsonValue) -> Option<u8> {
    match v {
        JsonValue::Number(t) => match bounded_decimal(t@, 255) {
            Some(n) => Some(n as u8),
            None => None,
        },
        _ => None,
    }
}

/// A required `u8` member.
pub open spec fn small_of(v: JsonValue, key: Seq<char>) -> Option<u8> {
    match field_of(v, key) {
        Some(x) => small_number(x),
        None => None,
    }
}

/// An optional `u8` member: absent or null reads as `None`.
pub open spec fn opt_small_of(v: JsonValue, key: Seq<char>) -> Option<Option<u8>> {
    match field_of(v, key) {
        None => Some(None),
        Some(JsonValue::Null) => Some(None),
        Some(x) => match small_number(x) {
            Some(n) => Some(Some(n)),
            None => None,
        },
    }
}

/// A required boolean member.
pub open spec fn bool_of(v: JsonValue, key: Seq<char>) -> Option<bool> {
    match field_of(v, key) {
        Some(JsonValue::Bool(b)) => Some(b),
        _ => None,
    }
}

/// Finds the member `key` of `v`.
pub fn field<'a>(v: &'a JsonValue, key: &str) -> (r: Option<&'a JsonValue>)
    ensures
        r is Some <==> field_of(*v, key@) is Some,
        r matches Some(x) ==> field_of(*v, key@) == Some(*x),
{
    match v {
        JsonValue::Object(entries) => {
            let mut i: usize = 0;
            while i < entries.len()
                invariant
                    i <= entries.len(),
                    field_of(*v, key@) == lookup_from(entries@, key@, 0),
                    lookup_from(entries@, key@, 0) == lookup_from(entries@, key@, i as int),
                decreases entries.len() - i,
            {
                let same = same_text(entries[i].0.as_str(), key);
                assert(lookup_from(entries@, key@, i as int) == if same {
                    Some(entries@[i as int].1)
                } else {
                    lookup_from(entries@, key@, i + 1)
                });
                if same {
                    return Some(&entries[i].1);
                }
                i = i + 1;
            }
            None
        },
        _ => None,
    }
}

fn field_error(what: &str, key: &str) -> (r: Error)
    ensures
        r is DeserealizationError,
{
    let mut m = String::from_str(what);
    m.append(" `");
    m.append(key);
    m.append("`");
    Error::DeserealizationError(m)
}

/// Reads the required text member `key`.
pub fn text_field(v: &JsonValue, key: &str) -> (r: Result<String, Error>)
    ensures
        r is Ok <==> text_of(*v, key@) is Some,
        r matches Ok(s) ==> text_of(*v, key@) == Some(s@),
        r matches Err(e) ==> e is DeserealizationError,
{
    match field(v, key) {
        Some(JsonValue::Str(s)) => Ok(s.clone()),
        Some(_) => Err(field_error("invalid type for field", key)),
        None => Err(field_error("missing field", key)),
    }
}

/// Reads the optional text member `key`.
pub fn opt_text_field(v: &JsonValue, key: &str) -> (r: Result<Option<String>, Error>)
    ensures
        r is Ok <==> opt_text_of(*v, key@) is Some,
        r matches Ok(s) ==> opt_text_of(*v, key@) == Some(opt_view(s)),
        r matches Err(e) ==> e is DeserealizationError,
{
    match field(v, key) {
        None => Ok(None),
        Some(JsonValue::Null) => Ok(None),
        Some(JsonValue::Str(s)) => Ok(Some(s.clone())),
        Some(_) => Err(field_error("invalid type for field", key)),
    }
}

fn small_value(v: &JsonValue) -> (r: Option<u8>)
    ensures
        r == small_number(*v),
{
    match v {
        JsonValue::Number(t) => match parse_bounded_decimal(t.as_str(), 255) {
            Some(n) => Some(n as u8),
            None => None,
        },
        _ => None,
    }
}

/// Reads the required `u8` member `key`.
pub fn small_field(v: &JsonValue, key: &str) -> (r: Result<u8, Error>)
    ensures
        r is Ok <==> small_of(*v, key@) is Some,
        r matches Ok(n) ==> small_of(*v, key@) == Some(n),
        r matches Err(e) ==> e is DeserealizationError,
{
    match field(v, key) {
        Some(x) => match small_value(x) {
            Some(n) => Ok(n),
            None => Err(field_error("invalid value for field", key)),
        },
        None => Err(field_error("missing field", key)),
    }
}

/// Reads the optional `u8` member `key`.
pub fn opt_small_field(v: &JsonValue, key: &str) -> (r: Result<Option<u8>, Error>)
    ensures
        r is Ok <==> opt_small_of(*v, key@) is Some,
        r matches Ok(n) ==> opt_small_of(*v, key@) == Some(n),
        r matches Err(e) ==> e is DeserealizationError,
{
    match field(v, key) {
        None => Ok(None),
        Some(JsonValue::Null) => Ok(None),
        Some(x) => match small_value(x) {
            Some(n) => Ok(Some(n)),
            None => Err(field_error("invalid value for field", key)),
        },
    }
}

/// Reads the required boolean member `key`.
pub fn bool_field(v: &JsonValue, key: &str) -> (r: Result<bool, Error>)
    ensures
        r is Ok <==> bool_of(*v, key@) is Some,
        r matches Ok(b) ==> bool_of(*v, key@) == Some(b),
        r matches Err(e) ==> e is DeserealizationError,
{
    match field(v, key) {
        Some(JsonValue::Bool(b)) => Ok(*b),
        Some(_) => Err(field_error("invalid type for field", key)),
        None => Err(field_error("missing field", key)),
    }
}

} // verus!
