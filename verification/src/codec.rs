//! What the two wire vocabularies share: the errors of the codec and the
//! readers and writers of single JSON members.

use crate::json::{
    array_value, json_doc, json_docs, json_members, member, number_value, JsonDoc, JsonNumber,
};
use serde_json::Value;
use vstd::prelude::*;

verus! {

/// Why a payload is not a message.
#[derive(Debug, Clone, Copy, PartialEq, Eq, Structural)]
pub enum DecodeError {
    /// The payload is not one JSON document.
    Syntax,
    /// The document does not name a variant.
    MissingDiscriminant,
    /// The document names a variant that the vocabulary does not have.
    UnknownVariant,
    /// A field of the named variant is absent or holds a value of another kind.
    InvalidField,
}

/// The JSON printer gave up on a document.
#[derive(Debug, Clone, Copy, PartialEq, Eq, Structural)]
pub struct EncodeError {}

/// The members of an object as they are known to contracts.
pub type Members = Map<Seq<char>, JsonDoc>;

/// The string under `key`, if the member is there and is a string.
pub open spec fn string_field(members: Members, key: Seq<char>) -> Option<Seq<char>> {
    if members.contains_key(key) {
        match members[key] {
            JsonDoc::String(s) => Some(s),
            _ => None,
        }
    } else {
        None
    }
}

/// The string under `key`, where a member that is absent or `null` stands for
/// no string; `None` if the member holds anything else.
pub open spec fn optional_string_field(members: Members, key: Seq<char>) -> Option<
    Option<Seq<char>>,
> {
    if members.contains_key(key) {
        match members[key] {
            JsonDoc::Null => Some(None),
            JsonDoc::String(s) => Some(Some(s)),
            _ => None,
        }
    } else {
        Some(None)
    }
}

/// The boolean under `key`, if the member is there and is a boolean.
pub open spec fn bool_field(members: Members, key: Seq<char>) -> Option<bool> {
    if members.contains_key(key) {
        match members[key] {
            JsonDoc::Bool(b) => Some(b),
            _ => None,
        }
    } else {
        None
    }
}

/// The number under `key`, if the member is there and is a non-negative
/// integer of 64 bits.
pub open spec fn number_field(members: Members, key: Seq<char>) -> Option<u64> {
    if members.contains_key(key) {
        match members[key] {
            JsonDoc::Number(JsonNumber::Unsigned(n)) => Some(n),
            _ => None,
        }
    } else {
        None
    }
}

/// The members of the object under `key`, if the member is there and is an object.
pub open spec fn object_field(members: Members, key: Seq<char>) -> Option<Members> {
    if members.contains_key(key) {
        match members[key] {
            JsonDoc::Object(inner) => Some(inner),
            _ => None,
        }
    } else {
        None
    }
}

/// The document of a number.
pub open spec fn number_doc(n: u64) -> JsonDoc {
    JsonDoc::Number(JsonNumber::Unsigned(n))
}

/// The byte that a document stands for: a non-negative integer below 256.
pub open spec fn byte_of(doc: JsonDoc) -> Option<u8> {
    match doc {
        JsonDoc::Number(JsonNumber::Unsigned(n)) => if n <= 255 {
            Some(n as u8)
        } else {
            None
        },
        _ => None,
    }
}

/// The bytes that an array of documents stands for, if every item is a byte.
pub open spec fn bytes_of(items: Seq<JsonDoc>) -> Option<Seq<u8>> {
    if forall|i: int| 0 <= i < items.len() ==> (#[trigger] byte_of(items[i])) is Some {
        Some(Seq::new(items.len(), |i: int| byte_of(items[i])->0))
    } else {
        None
    }
}

/// The bytes under `key`, if the member is there and is an array of bytes.
pub open spec fn bytes_field(members: Members, key: Seq<char>) -> Option<Seq<u8>> {
    if members.contains_key(key) {
        match members[key] {
            JsonDoc::Array(items) => bytes_of(items),
            _ => None,
        }
    } else {
        None
    }
}

/// The array of documents that stands for a sequence of bytes.
pub open spec fn docs_of_bytes(bytes: Seq<u8>) -> Seq<JsonDoc> {
    Seq::new(bytes.len(), |i: int| JsonDoc::Number(JsonNumber::Unsigned(bytes[i] as u64)))
}

/// Reading back the array written for a sequence of bytes gives the bytes.
pub proof fn lemma_bytes_round_trip(bytes: Seq<u8>)
    ensures
        bytes_of(docs_of_bytes(bytes)) == Some(bytes),
{
    let items = docs_of_bytes(bytes);
    assert forall|i: int| 0 <= i < items.len() implies (#[trigger] byte_of(items[i])) is Some by {
        assert(byte_of(items[i]) == Some(bytes[i]));
    }
    assert(bytes_of(items)->0 =~= bytes);
}

/// Reads the string under `key`.
pub(crate) fn read_string(members: &serde_json::Map<String, Value>, key: &str) -> (r: Option<String>)
    ensures
        match r {
            Some(s) => string_field(json_members(*members), key@) == Some(s@),
            None => string_field(json_members(*members), key@) is None,
        },
{
    match member(members, key) {
        Some(value) => match value.as_str() {
            Some(s) => Some(s.to_owned()),
            None => None,
        },
        None => None,
    }
}

/// Reads the optional string under `key`.
pub(crate) fn read_optional_string(
    members: &serde_json::Map<String, Value>,
    key: &str,
) -> (r: Option<Option<String>>)
    ensures
        match r {
            Some(Some(s)) => optional_string_field(json_members(*members), key@) == Some(Some(s@)),
            Some(None) => optional_string_field(json_members(*members), key@) == Some(
                None::<Seq<char>>,
            ),
            None => optional_string_field(json_members(*members), key@) is None,
        },
{
    match member(members, key) {
        Some(value) => {
            if value.is_null() {
                Some(None)
            } else {
                match value.as_str() {
                    Some(s) => Some(Some(s.to_owned())),
                    None => None,
                }
            }
        },
        None => Some(None),
    }
}

/// Reads the boolean under `key`.
pub(crate) fn read_bool(members: &serde_json::Map<String, Value>, key: &str) -> (r: Option<bool>)
    ensures
        r == bool_field(json_members(*members), key@),
{
    match member(members, key) {
        Some(value) => value.as_bool(),
        None => None,
    }
}

/// Reads the number under `key`.
pub(crate) fn read_number(members: &serde_json::Map<String, Value>, key: &str) -> (r: Option<u64>)
    ensures
        r == number_field(json_members(*members), key@),
{
    match member(members, key) {
        Some(value) => value.as_u64(),
        None => None,
    }
}

/// Reads the members of the object under `key`.
pub(crate) fn read_object<'a>(
    members: &'a serde_json::Map<String, Value>,
    key: &str,
) -> (r: Option<&'a serde_json::Map<String, Value>>)
    ensures
        match r {
            Some(inner) => object_field(json_members(*members), key@) == Some(json_members(*inner)),
            None => object_field(json_members(*members), key@) is None,
        },
{
    match member(members, key) {
        Some(value) => value.as_object(),
        None => None,
    }
}

/// Reads the bytes under `key`.
pub(crate) fn read_bytes(members: &serde_json::Map<String, Value>, key: &str) -> (r: Option<Vec<u8>>)
    ensures
        match r {
            Some(bytes) => bytes_field(json_members(*members), key@) == Some(bytes@),
            None => bytes_field(json_members(*members), key@) is None,
        },
{
    let items = match member(members, key) {
        Some(value) => match value.as_array() {
            Some(items) => items,
            None => {
                return None;
            },
        },
        None => {
            return None;
        },
    };
    let ghost docs = json_docs(items@);
    let mut bytes: Vec<u8> = Vec::new();
    let mut i: usize = 0;
    while i < items.len()
        invariant
            i <= items.len(),
            docs == json_docs(items@),
            json_members(*members).contains_key(key@),
            json_members(*members)[key@] == JsonDoc::Array(docs),
            bytes@.len() == i,
            forall|j: int| 0 <= j < i ==> byte_of(#[trigger] docs[j]) == Some(bytes@[j]),
        decreases items.len() - i,
    {
        match items[i].as_u64() {
            Some(n) => {
                if n > 255 {
                    assert(byte_of(docs[i as int]) is None);
                    return None;
                }
                bytes.push(n as u8);
            },
            None => {
                assert(byte_of(docs[i as int]) is None);
                return None;
            },
        }
        i += 1;
    }
    assert(bytes_of(docs)->0 =~= bytes@);
    Some(bytes)
}

/// The array that stands for the bytes.
pub(crate) fn write_bytes(bytes: &Vec<u8>) -> (r: Value)
    ensures
        json_doc(r) == JsonDoc::Array(docs_of_bytes(bytes@)),
{
    let mut items: Vec<Value> = Vec::new();
    let mut i: usize = 0;
    while i < bytes.len()
        invariant
            i <= bytes.len(),
            items@.len() == i,
            forall|j: int|
                0 <= j < i ==> json_doc(#[trigger] items@[j]) == JsonDoc::Number(
                    JsonNumber::Unsigned(bytes@[j] as u64),
                ),
        decreases bytes.len() - i,
    {
        items.push(number_value(bytes[i] as u64));
        i += 1;
    }
    assert(json_docs(items@) =~= docs_of_bytes(bytes@));
    array_value(items)
}

/// What comes of a printed text: the text, or the printer's failure.
pub fn printed_text_or_error(
    printed: Result<String, serde_json::Error>,
) -> (r: Result<String, EncodeError>)
    ensures
        match printed {
            Ok(text) => r == Ok::<String, EncodeError>(text),
            Err(_) => r is Err,
        },
{
    match printed {
        Ok(text) => Ok(text),
        Err(_) => Err(EncodeError {  }),
    }
}

/// What comes of printed bytes: the bytes, or the printer's failure.
pub fn printed_bytes_or_error(
    printed: Result<Vec<u8>, serde_json::Error>,
) -> (r: Result<Vec<u8>, EncodeError>)
    ensures
        match printed {
            Ok(bytes) => r == Ok::<Vec<u8>, EncodeError>(bytes),
            Err(_) => r is Err,
        },
{
    match printed {
        Ok(bytes) => Ok(bytes),
        Err(_) => Err(EncodeError {  }),
    }
}

} // verus!
