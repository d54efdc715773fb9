//! JSON documents.
//!
//! Text is parsed and printed by `serde_json`; a value of that crate is opaque
//! here, and each call into the crate is described over [`JsonDoc`], the
//! document that a value stands for.

use serde_json::Value;
use vstd::prelude::*;

verus! {

/// A JSON number.
pub enum JsonNumber {
    /// A non-negative integer that fits in 64 bits.
    Unsigned(u64),
    /// Any other number, negative or fractional, told apart by its code.
    Other(int),
}

/// A JSON document as a mathematical value.
pub enum JsonDoc {
    Null,
    Bool(bool),
    Number(JsonNumber),
    String(Seq<char>),
    Array(Seq<JsonDoc>),
    Object(Map<Seq<char>, JsonDoc>),
}

/// `serde_json::Value`: a JSON value of any kind. Nothing of its inside is
/// known here but through the functions below.
#[verifier::external_type_specification]
#[verifier::external_body]
pub struct ExValue(serde_json::Value);

/// `serde_json::Map`: the members of a JSON object, by key.
#[verifier::external_type_specification]
#[verifier::external_body]
#[verifier::reject_recursive_types(K)]
#[verifier::reject_recursive_types(V)]
pub struct ExMembers<K, V>(serde_json::Map<K, V>);

/// `serde_json::Error`: why a text was not read or a value not printed.
#[verifier::external_type_specification]
#[verifier::external_body]
pub struct ExSyntaxError(serde_json::Error);

/// The document that a `serde_json::Value` holds.
pub uninterp spec fn json_doc(value: Value) -> JsonDoc;

/// The members that a `serde_json::Map` holds, by key.
pub uninterp spec fn json_members(members: serde_json::Map<String, Value>) -> Map<Seq<char>, JsonDoc>;

/// The document that `serde_json::from_str` reads from a text, if it accepts the text.
pub uninterp spec fn parsed_text(text: Seq<char>) -> Option<JsonDoc>;

/// The document that `serde_json::from_slice` reads from bytes, if it accepts them.
pub uninterp spec fn parsed_bytes(bytes: Seq<u8>) -> Option<JsonDoc>;

/// What `serde_json::to_string` gives for a document: the text that it
/// prints, if it prints the document.
pub uninterp spec fn printed_text(doc: JsonDoc) -> Option<Seq<char>>;

/// What `serde_json::to_vec` gives for a document: the bytes that it
/// prints, if it prints the document.
pub uninterp spec fn printed_bytes(doc: JsonDoc) -> Option<Seq<u8>>;

/// The members of an empty object.
pub open spec fn no_members() -> Map<Seq<char>, JsonDoc> {
    Map::empty()
}

/// The documents of a sequence of values, in order.
pub open spec fn json_docs(values: Seq<Value>) -> Seq<JsonDoc> {
    values.map_values(|v: Value| json_doc(v))
}

/// `Value::is_null`: whether the value is `null`.
pub assume_specification[ serde_json::Value::is_null ](value: &Value) -> (r: bool)
    ensures
        r == (json_doc(*value) is Null),
;

/// `Value::as_bool`: the boolean, where the value is one.
pub assume_specification[ serde_json::Value::as_bool ](value: &Value) -> (r: Option<bool>)
    ensures
        r == (match json_doc(*value) {
            JsonDoc::Bool(b) => Some(b),
            _ => None,
        }),
;

/// `Value::as_u64`: the number, where the value is a non-negative integer of 64 bits.
pub assume_specification[ serde_json::Value::as_u64 ](value: &Value) -> (r: Option<u64>)
    ensures
        r == (match json_doc(*value) {
            JsonDoc::Number(JsonNumber::Unsigned(n)) => Some(n),
            _ => None,
        }),
;

/// `Value::as_str`: the characters, where the value is a string.
pub assume_specification<'a>[ serde_json::Value::as_str ](value: &'a Value) -> (r: Option<&'a str>)
    ensures
        match r {
            Some(s) => json_doc(*value) == JsonDoc::String(s@),
            None => !(json_doc(*value) is String),
        },
;

/// `Value::as_array`: the items in order, where the value is an array.
pub assume_specification<'a>[ serde_json::Value::as_array ](
    value: &'a Value,
) -> (r: Option<&'a Vec<Value>>)
    ensures
        match r {
            Some(items) => json_doc(*value) == JsonDoc::Array(json_docs(items@)),
            None => !(json_doc(*value) is Array),
        },
;

/// `Value::as_object`: the members, where the value is an object.
pub assume_specification<'a>[ serde_json::Value::as_object ](
    value: &'a Value,
) -> (r: Option<&'a serde_json::Map<String, Value>>)
    ensures
        match r {
            Some(members) => json_doc(*value) == JsonDoc::Object(json_members(*members)),
            None => !(json_doc(*value) is Object),
        },
;

/// `Map::len`: the number of members.
pub assume_specification[ serde_json::Map::<String, Value>::len ](
    members: &serde_json::Map<String, Value>,
) -> (r: usize)
    ensures
        r == json_members(*members).len(),
;

/// `Map::new`: a map without members.
pub assume_specification[ serde_json::Map::<String, Value>::new ]() -> (r: serde_json::Map<String, Value>)
    ensures
        json_members(r) == no_members(),
;

/// `Map::insert`: the key holds the given value afterwards and the other
/// members stay; the value that the key held before comes back.
pub assume_specification[ serde_json::Map::<String, Value>::insert ](
    members: &mut serde_json::Map<String, Value>,
    k: String,
    v: Value,
) -> (r: Option<serde_json::Value>)
    ensures
        json_members(*final(members)) == json_members(*old(members)).insert(k@, json_doc(v)),
        match r {
            Some(before) => json_members(*old(members)).contains_key(k@) && json_doc(before)
                == json_members(*old(members))[k@],
            None => !json_members(*old(members)).contains_key(k@),
        },
;

/// `Map::get` with a `str` key: the member of that name, if there is one.
#[verifier::external_body]
pub(crate) fn member<'a>(
    members: &'a serde_json::Map<String, Value>,
    key: &str,
) -> (r: Option<&'a Value>)
    ensures
        match r {
            Some(value) => json_members(*members).contains_key(key@) && json_doc(*value)
                == json_members(*members)[key@],
            None => !json_members(*members).contains_key(key@),
        },
{
    members.get(key)
}

/// `Value::Null`.
#[verifier::external_body]
pub(crate) fn null_value() -> (r: Value)
    ensures
        json_doc(r) == JsonDoc::Null,
{
    serde_json::Value::Null
}

/// `Value::Bool`.
#[verifier::external_body]
pub(crate) fn bool_value(b: bool) -> (r: Value)
    ensures
        json_doc(r) == JsonDoc::Bool(b),
{
    serde_json::Value::Bool(b)
}

/// `Value::from` at `u64`: the number as a non-negative integer.
#[verifier::external_body]
pub(crate) fn number_value(n: u64) -> (r: Value)
    ensures
        json_doc(r) == JsonDoc::Number(JsonNumber::Unsigned(n)),
{
    serde_json::Value::from(n)
}

/// `Value::String`.
#[verifier::external_body]
pub(crate) fn string_value(s: String) -> (r: Value)
    ensures
        json_doc(r) == JsonDoc::String(s@),
{
    serde_json::Value::String(s)
}

/// `Value::Array`.
#[verifier::external_body]
pub(crate) fn array_value(items: Vec<Value>) -> (r: Value)
    ensures
        json_doc(r) == JsonDoc::Array(json_docs(items@)),
{
    serde_json::Value::Array(items)
}

/// `Value::Object`.
#[verifier::external_body]
pub(crate) fn object_value(members: serde_json::Map<String, Value>) -> (r: Value)
    ensures
        json_doc(r) == JsonDoc::Object(json_members(members)),
{
    serde_json::Value::Object(members)
}

/// `serde_json::from_str` at `Value`: reads a whole text as one document.
#[verifier::external_body]
pub(crate) fn parse_text(text: &str) -> (r: Result<Value, serde_json::Error>)
    ensures
        match r {
            Ok(value) => parsed_text(text@) == Some(json_doc(value)),
            Err(_) => parsed_text(text@) is None,
        },
{
    serde_json::from_str::<serde_json::Value>(text)
}

/// `serde_json::from_slice` at `Value`: reads the whole input as one document.
#[verifier::external_body]
pub(crate) fn parse_bytes(bytes: &[u8]) -> (r: Result<Value, serde_json::Error>)
    ensures
        match r {
            Ok(value) => parsed_bytes(bytes@) == Some(json_doc(value)),
            Err(_) => parsed_bytes(bytes@) is None,
        },
{
    serde_json::from_slice::<serde_json::Value>(bytes)
}

/// `serde_json::to_string` at `Value`: prints the document of the value.
/// What comes back, the text or a failure, depends on the document alone.
#[verifier::external_body]
pub(crate) fn print_text(value: &Value) -> (r: Result<String, serde_json::Error>)
    ensures
        match r {
            Ok(text) => printed_text(json_doc(*value)) == Some(text@),
            Err(_) => printed_text(json_doc(*value)) is None,
        },
{
    serde_json::to_string(value)
}

/// `serde_json::to_vec` at `Value`: prints the document of the value.
/// What comes back, the bytes or a failure, depends on the document alone.
#[verifier::external_body]
pub(crate) fn print_bytes(value: &Value) -> (r: Result<Vec<u8>, serde_json::Error>)
    ensures
        match r {
            Ok(bytes) => printed_bytes(json_doc(*value)) == Some(bytes@),
            Err(_) => printed_bytes(json_doc(*value)) is None,
        },
{
    serde_json::to_vec(value)
}

} // verus!
