//! The messages of an established channel and their JSON form.
//!
//! A message is an object whose member `type` names the variant; the other
//! members are the variant's fields under their own names.

use crate::codec::{
    bool_field, bytes_field, docs_of_bytes, lemma_bytes_round_trip, number_doc, number_field,
    optional_string_field, printed_text_or_error, read_bool, read_bytes, read_number,
    read_optional_string, read_string, string_field, write_bytes, DecodeError, EncodeError,
    Members,
};
use crate::json::{
    bool_value, json_doc, json_members, null_value, number_value, object_value, parse_text,
    parsed_text, print_text, printed_text, string_value, JsonDoc,
};
use serde_json::Value;
use vstd::prelude::*;

verus! {

/// A message of the channel.
#[derive(Debug, Clone, PartialEq, Eq)]
#[allow(inconsistent_fields)]
pub enum WebSocketMessage {
    /// Authentication request.
    Auth { token: String },
    /// Answer to an authentication request.
    AuthResponse { success: bool, message: Option<String> },
    /// A file offered by the sender.
    FileOffer { filename: String, size: u64, hash: String, mime_type: String },
    /// Answer to a file offer.
    FileAccept { accept: bool, reason: Option<String> },
    /// The transfer begins, in chunks of the given size.
    TransferStart { chunk_size: usize },
    /// One chunk of the file, with its place in the file.
    TransferChunk { data: Vec<u8>, offset: u64 },
    /// The transfer is complete; the hash of the whole file.
    TransferComplete { hash: String },
    /// The sender reports an error.
    Error { message: String },
}

/// A message of the channel as a mathematical value.
#[allow(inconsistent_fields)]
pub enum WebSocketMessageView {
    Auth { token: Seq<char> },
    AuthResponse { success: bool, message: Option<Seq<char>> },
    FileOffer { filename: Seq<char>, size: u64, hash: Seq<char>, mime_type: Seq<char> },
    FileAccept { accept: bool, reason: Option<Seq<char>> },
    TransferStart { chunk_size: usize },
    TransferChunk { data: Seq<u8>, offset: u64 },
    TransferComplete { hash: Seq<char> },
    Error { message: Seq<char> },
}

/// The characters of an optional string.
pub open spec fn optional_text(text: Option<String>) -> Option<Seq<char>> {
    match text {
        Some(s) => Some(s@),
        None => None,
    }
}

impl View for WebSocketMessage {
    type V = WebSocketMessageView;

    open spec fn view(&self) -> WebSocketMessageView {
        match *self {
            WebSocketMessage::Auth { token } => WebSocketMessageView::Auth { token: token@ },
            WebSocketMessage::AuthResponse { success, message } => WebSocketMessageView::AuthResponse {
                success,
                message: optional_text(message),
            },
            WebSocketMessage::FileOffer {
                filename,
                size,
                hash,
                mime_type,
            } => WebSocketMessageView::FileOffer {
                filename: filename@,
                size,
                hash: hash@,
                mime_type: mime_type@,
            },
            WebSocketMessage::FileAccept { accept, reason } => WebSocketMessageView::FileAccept {
                accept,
                reason: optional_text(reason),
            },
            WebSocketMessage::TransferStart { chunk_size } => WebSocketMessageView::TransferStart {
                chunk_size,
            },
            WebSocketMessage::TransferChunk { data, offset } => WebSocketMessageView::TransferChunk {
                data: data@,
                offset,
            },
            WebSocketMessage::TransferComplete { hash } => WebSocketMessageView::TransferComplete {
                hash: hash@,
            },
            WebSocketMessage::Error { message } => WebSocketMessageView::Error { message: message@ },
        }
    }
}

/// The document of an optional string: the string, or `null`.
pub open spec fn optional_string_doc(text: Option<Seq<char>>) -> JsonDoc {
    match text {
        Some(s) => JsonDoc::String(s),
        None => JsonDoc::Null,
    }
}

/// The members of the object that stands for a message.
pub open spec fn session_members(message: WebSocketMessageView) -> Members {
    match message {
        WebSocketMessageView::Auth { token } => map![
            "type"@ => JsonDoc::String("Auth"@),
            "token"@ => JsonDoc::String(token),
        ],
        WebSocketMessageView::AuthResponse { success, message } => map![
            "type"@ => JsonDoc::String("AuthResponse"@),
            "success"@ => JsonDoc::Bool(success),
            "message"@ => optional_string_doc(message),
        ],
        WebSocketMessageView::FileOffer { filename, size, hash, mime_type } => map![
            "type"@ => JsonDoc::String("FileOffer"@),
            "filename"@ => JsonDoc::String(filename),
            "size"@ => number_doc(size),
            "hash"@ => JsonDoc::String(hash),
            "mime_type"@ => JsonDoc::String(mime_type),
        ],
        WebSocketMessageView::FileAccept { accept, reason } => map![
            "type"@ => JsonDoc::String("FileAccept"@),
            "accept"@ => JsonDoc::Bool(accept),
            "reason"@ => optional_string_doc(reason),
        ],
        WebSocketMessageView::TransferStart { chunk_size } => map![
            "type"@ => JsonDoc::String("TransferStart"@),
            "chunk_size"@ => number_doc(chunk_size as u64),
        ],
        WebSocketMessageView::TransferChunk { data, offset } => map![
            "type"@ => JsonDoc::String("TransferChunk"@),
            "data"@ => JsonDoc::Array(docs_of_bytes(data)),
            "offset"@ => number_doc(offset),
        ],
        WebSocketMessageView::TransferComplete { hash } => map![
            "type"@ => JsonDoc::String("TransferComplete"@),
            "hash"@ => JsonDoc::String(hash),
        ],
        WebSocketMessageView::Error { message } => map![
            "type"@ => JsonDoc::String("Error"@),
            "message"@ => JsonDoc::String(message),
        ],
    }
}

/// The document that stands for a message.
pub open spec fn session_doc(message: WebSocketMessageView) -> JsonDoc {
    JsonDoc::Object(session_members(message))
}

/// The fields of `Auth`.
pub open spec fn auth_of(members: Members) -> Result<WebSocketMessageView, DecodeError> {
    match string_field(members, "token"@) {
        Some(token) => Ok(WebSocketMessageView::Auth { token }),
        None => Err(DecodeError::InvalidField),
    }
}

/// The fields of `AuthResponse`.
pub open spec fn auth_response_of(members: Members) -> Result<WebSocketMessageView, DecodeError> {
    match (bool_field(members, "success"@), optional_string_field(members, "message"@)) {
        (Some(success), Some(message)) => Ok(
            WebSocketMessageView::AuthResponse { success, message },
        ),
        _ => Err(DecodeError::InvalidField),
    }
}

/// The fields of `FileOffer`.
pub open spec fn file_offer_of(members: Members) -> Result<WebSocketMessageView, DecodeError> {
    match (
        string_field(members, "filename"@),
        number_field(members, "size"@),
        string_field(members, "hash"@),
        string_field(members, "mime_type"@),
    ) {
        (Some(filename), Some(size), Some(hash), Some(mime_type)) => Ok(
            WebSocketMessageView::FileOffer { filename, size, hash, mime_type },
        ),
        _ => Err(DecodeError::InvalidField),
    }
}

/// The fields of `FileAccept`.
pub open spec fn file_accept_of(members: Members) -> Result<WebSocketMessageView, DecodeError> {
    match (bool_field(members, "accept"@), optional_string_field(members, "reason"@)) {
        (Some(accept), Some(reason)) => Ok(WebSocketMessageView::FileAccept { accept, reason }),
        _ => Err(DecodeError::InvalidField),
    }
}

/// The fields of `TransferStart`; a chunk size must fit the machine's word.
pub open spec fn transfer_start_of(members: Members) -> Result<WebSocketMessageView, DecodeError> {
    match number_field(members, "chunk_size"@) {
        Some(n) => if n <= usize::MAX {
            Ok(WebSocketMessageView::TransferStart { chunk_size: n as usize })
        } else {
            Err(DecodeError::InvalidField)
        },
        None => Err(DecodeError::InvalidField),
    }
}

/// The fields of `TransferChunk`.
pub open spec fn transfer_chunk_of(members: Members) -> Result<WebSocketMessageView, DecodeError> {
    match (bytes_field(members, "data"@), number_field(members, "offset"@)) {
        (Some(data), Some(offset)) => Ok(WebSocketMessageView::TransferChunk { data, offset }),
        _ => Err(DecodeError::InvalidField),
    }
}

/// The fields of `TransferComplete`.
pub open spec fn transfer_complete_of(members: Members) -> Result<
    WebSocketMessageView,
    DecodeError,
> {
    match string_field(members, "hash"@) {
        Some(hash) => Ok(WebSocketMessageView::TransferComplete { hash }),
        None => Err(DecodeError::InvalidField),
    }
}

/// The fields of `Error`.
pub open spec fn error_of(members: Members) -> Result<WebSocketMessageView, DecodeError> {
    match string_field(members, "message"@) {
        Some(message) => Ok(WebSocketMessageView::Error { message }),
        None => Err(DecodeError::InvalidField),
    }
}

/// The message that the members of an object stand for: the member `type`
/// must be a string that names a variant, and the variant's fields must be
/// there. Members that the variant does not know are passed over.
pub open spec fn session_of_members(members: Members) -> Result<WebSocketMessageView, DecodeError> {
    match string_field(members, "type"@) {
        None => Err(DecodeError::MissingDiscriminant),
        Some(tag) => if tag == "Auth"@ {
            auth_of(members)
        } else if tag == "AuthResponse"@ {
            auth_response_of(members)
        } else if tag == "FileOffer"@ {
            file_offer_of(members)
        } else if tag == "FileAccept"@ {
            file_accept_of(members)
        } else if tag == "TransferStart"@ {
            transfer_start_of(members)
        } else if tag == "TransferChunk"@ {
            transfer_chunk_of(members)
        } else if tag == "TransferComplete"@ {
            transfer_complete_of(members)
        } else if tag == "Error"@ {
            error_of(members)
        } else {
            Err(DecodeError::UnknownVariant)
        },
    }
}

/// The message that a document stands for.
pub open spec fn session_of_doc(doc: JsonDoc) -> Result<WebSocketMessageView, DecodeError> {
    match doc {
        JsonDoc::Object(members) => session_of_members(members),
        _ => Err(DecodeError::MissingDiscriminant),
    }
}

/// The message that a text stands for.
pub open spec fn session_of_text(text: Seq<char>) -> Result<WebSocketMessageView, DecodeError> {
    match parsed_text(text) {
        Some(doc) => session_of_doc(doc),
        None => Err(DecodeError::Syntax),
    }
}

/// What a decoding returned, with the message as a mathematical value.
pub open spec fn decoded_view(r: Result<WebSocketMessage, DecodeError>) -> Result<
    WebSocketMessageView,
    DecodeError,
> {
    match r {
        Ok(message) => Ok(message@),
        Err(e) => Err(e),
    }
}

fn is_text(s: &String, literal: &str) -> (r: bool)
    ensures
        r == (s@ == literal@),
{
    let other = literal.to_owned();
    *s == other
}

fn write_optional_string(text: &Option<String>) -> (r: Value)
    ensures
        json_doc(r) == optional_string_doc(optional_text(*text)),
{
    match text {
        Some(s) => string_value(s.clone()),
        None => null_value(),
    }
}

fn decode_auth(
    members: &serde_json::Map<String, Value>,
) -> (r: Result<WebSocketMessage, DecodeError>)
    ensures
        decoded_view(r) == auth_of(json_members(*members)),
{
    match read_string(members, "token") {
        Some(token) => Ok(WebSocketMessage::Auth { token }),
        None => Err(DecodeError::InvalidField),
    }
}

fn decode_auth_response(
    members: &serde_json::Map<String, Value>,
) -> (r: Result<WebSocketMessage, DecodeError>)
    ensures
        decoded_view(r) == auth_response_of(json_members(*members)),
{
    match (read_bool(members, "success"), read_optional_string(members, "message")) {
        (Some(success), Some(message)) => Ok(WebSocketMessage::AuthResponse { success, message }),
        _ => Err(DecodeError::InvalidField),
    }
}

fn decode_file_offer(
    members: &serde_json::Map<String, Value>,
) -> (r: Result<WebSocketMessage, DecodeError>)
    ensures
        decoded_view(r) == file_offer_of(json_members(*members)),
{
    match (
        read_string(members, "filename"),
        read_number(members, "size"),
        read_string(members, "hash"),
        read_string(members, "mime_type"),
    ) {
        (Some(filename), Some(size), Some(hash), Some(mime_type)) => Ok(
            WebSocketMessage::FileOffer { filename, size, hash, mime_type },
        ),
        _ => Err(DecodeError::InvalidField),
    }
}

fn decode_file_accept(
    members: &serde_json::Map<String, Value>,
) -> (r: Result<WebSocketMessage, DecodeError>)
    ensures
        decoded_view(r) == file_accept_of(json_members(*members)),
{
    match (read_bool(members, "accept"), read_optional_string(members, "reason")) {
        (Some(accept), Some(reason)) => Ok(WebSocketMessage::FileAccept { accept, reason }),
        _ => Err(DecodeError::InvalidField),
    }
}

fn decode_transfer_start(
    members: &serde_json::Map<String, Value>,
) -> (r: Result<WebSocketMessage, DecodeError>)
    ensures
        decoded_view(r) == transfer_start_of(json_members(*members)),
{
    match read_number(members, "chunk_size") {
        Some(n) => {
            if n <= usize::MAX as u64 {
                Ok(WebSocketMessage::TransferStart { chunk_size: n as usize })
            } else {
                Err(DecodeError::InvalidField)
            }
        },
        None => Err(DecodeError::InvalidField),
    }
}

fn decode_transfer_chunk(
    members: &serde_json::Map<String, Value>,
) -> (r: Result<WebSocketMessage, DecodeError>)
    ensures
        decoded_view(r) == transfer_chunk_of(json_members(*members)),
{
    match (read_bytes(members, "data"), read_number(members, "offset")) {
        (Some(data), Some(offset)) => Ok(WebSocketMessage::TransferChunk { data, offset }),
        _ => Err(DecodeError::InvalidField),
    }
}

fn decode_transfer_complete(
    members: &serde_json::Map<String, Value>,
) -> (r: Result<WebSocketMessage, DecodeError>)
    ensures
        decoded_view(r) == transfer_complete_of(json_members(*members)),
{
    match read_string(members, "hash") {
        Some(hash) => Ok(WebSocketMessage::TransferComplete { hash }),
        None => Err(DecodeError::InvalidField),
    }
}

fn decode_error(
    members: &serde_json::Map<String, Value>,
) -> (r: Result<WebSocketMessage, DecodeError>)
    ensures
        decoded_view(r) == error_of(json_members(*members)),
{
    match read_string(members, "message") {
        Some(message) => Ok(WebSocketMessage::Error { message }),
        None => Err(DecodeError::InvalidField),
    }
}

impl WebSocketMessage {
    /// The JSON value of the message.
    pub fn to_value(&self) -> (r: Value)
        ensures
            json_doc(r) == session_doc(self@),
    {
        let mut members = serde_json::Map::new();
        match self {
            WebSocketMessage::Auth { token } => {
                members.insert("type".to_owned(), string_value("Auth".to_owned()));
                members.insert("token".to_owned(), string_value(token.clone()));
            },
            WebSocketMessage::AuthResponse { success, message } => {
                members.insert("type".to_owned(), string_value("AuthResponse".to_owned()));
                members.insert("success".to_owned(), bool_value(*success));
                members.insert("message".to_owned(), write_optional_string(message));
            },
            WebSocketMessage::FileOffer { filename, size, hash, mime_type } => {
                members.insert("type".to_owned(), string_value("FileOffer".to_owned()));
                members.insert("filename".to_owned(), string_value(filename.clone()));
                members.insert("size".to_owned(), number_value(*size));
                members.insert("hash".to_owned(), string_value(hash.clone()));
                members.insert("mime_type".to_owned(), string_value(mime_type.clone()));
            },
            WebSocketMessage::FileAccept { accept, reason } => {
                members.insert("type".to_owned(), string_value("FileAccept".to_owned()));
                members.insert("accept".to_owned(), bool_value(*accept));
                members.insert("reason".to_owned(), write_optional_string(reason));
            },
            WebSocketMessage::TransferStart { chunk_size } => {
                members.insert("type".to_owned(), string_value("TransferStart".to_owned()));
                members.insert("chunk_size".to_owned(), number_value(*chunk_size as u64));
            },
            WebSocketMessage::TransferChunk { data, offset } => {
                members.insert("type".to_owned(), string_value("TransferChunk".to_owned()));
                members.insert("data".to_owned(), write_bytes(data));
                members.insert("offset".to_owned(), number_value(*offset));
            },
            WebSocketMessage::TransferComplete { hash } => {
                members.insert("type".to_owned(), string_value("TransferComplete".to_owned()));
                members.insert("hash".to_owned(), string_value(hash.clone()));
            },
            WebSocketMessage::Error { message } => {
                members.insert("type".to_owned(), string_value("Error".to_owned()));
                members.insert("message".to_owned(), string_value(message.clone()));
            },
        }
        object_value(members)
    }

    /// Reads a message from a JSON value: the message that the value's
    /// document stands for, or the reason why it stands for none.
    pub fn from_value(value: &Value) -> (r: Result<WebSocketMessage, DecodeError>)
        ensures
            decoded_view(r) == session_of_doc(json_doc(*value)),
    {
        let members = match value.as_object() {
            Some(members) => members,
            None => {
                return Err(DecodeError::MissingDiscriminant);
            },
        };
        let tag = match read_string(members, "type") {
            Some(tag) => tag,
            None => {
                return Err(DecodeError::MissingDiscriminant);
            },
        };
        if is_text(&tag, "Auth") {
            decode_auth(members)
        } else if is_text(&tag, "AuthResponse") {
            decode_auth_response(members)
        } else if is_text(&tag, "FileOffer") {
            decode_file_offer(members)
        } else if is_text(&tag, "FileAccept") {
            decode_file_accept(members)
        } else if is_text(&tag, "TransferStart") {
            decode_transfer_start(members)
        } else if is_text(&tag, "TransferChunk") {
            decode_transfer_chunk(members)
        } else if is_text(&tag, "TransferComplete") {
            decode_transfer_complete(members)
        } else if is_text(&tag, "Error") {
            decode_error(members)
        } else {
            Err(DecodeError::UnknownVariant)
        }
    }

    /// The message as JSON text: exactly what the printer gives for the
    /// message's document, its text where it prints the document and the
    /// failure where it does not.
    pub fn to_json(&self) -> (r: Result<String, EncodeError>)
        ensures
            match r {
                Ok(text) => printed_text(session_doc(self@)) == Some(text@),
                Err(_) => printed_text(session_doc(self@)) is None,
            },
    {
        let value = self.to_value();
        printed_text_or_error(print_text(&value))
    }

    /// Reads a message from JSON text. A text that is no JSON document, or
    /// whose document stands for no message, is rejected with the reason.
    pub fn from_json(json: &str) -> (r: Result<WebSocketMessage, DecodeError>)
        ensures
            decoded_view(r) == session_of_text(json@),
    {
        match parse_text(json) {
            Ok(value) => WebSocketMessage::from_value(&value),
            Err(_) => Err(DecodeError::Syntax),
        }
    }
}

/// The names of the vocabulary are pairwise different: by their lengths, and
/// by one letter where two have the same length.
proof fn lemma_session_names()
    ensures
        "type"@.len() == 4 && "type"@[0] == 't',
        "size"@.len() == 4 && "size"@[0] == 's',
        "hash"@.len() == 4 && "hash"@[0] == 'h',
        "data"@.len() == 4 && "data"@[0] == 'd',
        "token"@.len() == 5,
        "accept"@.len() == 6 && "accept"@[0] == 'a',
        "reason"@.len() == 6 && "reason"@[0] == 'r',
        "offset"@.len() == 6 && "offset"@[0] == 'o',
        "success"@.len() == 7 && "success"@[0] == 's',
        "message"@.len() == 7 && "message"@[0] == 'm',
        "filename"@.len() == 8,
        "mime_type"@.len() == 9,
        "chunk_size"@.len() == 10,
        "Auth"@.len() == 4,
        "Error"@.len() == 5,
        "FileOffer"@.len() == 9,
        "FileAccept"@.len() == 10,
        "AuthResponse"@.len() == 12,
        "TransferStart"@.len() == 13 && "TransferStart"@[8] == 'S',
        "TransferChunk"@.len() == 13 && "TransferChunk"@[8] == 'C',
        "TransferComplete"@.len() == 16,
{
    reveal_strlit("type");
    reveal_strlit("size");
    reveal_strlit("hash");
    reveal_strlit("data");
    reveal_strlit("token");
    reveal_strlit("accept");
    reveal_strlit("reason");
    reveal_strlit("offset");
    reveal_strlit("success");
    reveal_strlit("message");
    reveal_strlit("filename");
    reveal_strlit("mime_type");
    reveal_strlit("chunk_size");
    reveal_strlit("Auth");
    reveal_strlit("Error");
    reveal_strlit("FileOffer");
    reveal_strlit("FileAccept");
    reveal_strlit("AuthResponse");
    reveal_strlit("TransferStart");
    reveal_strlit("TransferChunk");
    reveal_strlit("TransferComplete");
}

/// Encoding and then decoding gives the message back: the document written
/// for a message stands for that message, whatever the variant.
pub proof fn lemma_session_round_trip(message: WebSocketMessageView)
    ensures
        session_of_doc(session_doc(message)) == Ok::<WebSocketMessageView, DecodeError>(message),
{
    lemma_session_names();
    match message {
        WebSocketMessageView::TransferChunk { data, offset } => {
            lemma_bytes_round_trip(data);
        },
        _ => {},
    }
}

} // verus!
