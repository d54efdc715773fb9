use alacrite::codec::DecodeError;
use alacrite::websockets::messages::WebSocketMessage;

fn there_and_back(message: WebSocketMessage) {
    let text = message.to_json().expect("a message can be printed");
    assert_eq!(WebSocketMessage::from_json(&text), Ok(message));
}

#[test]
fn round_trip_auth() {
    there_and_back(WebSocketMessage::Auth { token: "secret token".to_string() });
    there_and_back(WebSocketMessage::Auth { token: String::new() });
}

#[test]
fn round_trip_auth_response() {
    there_and_back(WebSocketMessage::AuthResponse { success: true, message: None });
    there_and_back(WebSocketMessage::AuthResponse {
        success: false,
        message: Some("wrong token".to_string()),
    });
}

#[test]
fn round_trip_file_offer() {
    there_and_back(WebSocketMessage::FileOffer {
        filename: "notes \"final\".txt".to_string(),
        size: u64::MAX,
        hash: "ab12".to_string(),
        mime_type: "text/plain".to_string(),
    });
}

#[test]
fn round_trip_file_accept() {
    there_and_back(WebSocketMessage::FileAccept { accept: true, reason: None });
    there_and_back(WebSocketMessage::FileAccept {
        accept: false,
        reason: Some("too large".to_string()),
    });
}

#[test]
fn round_trip_transfer_start() {
    there_and_back(WebSocketMessage::TransferStart { chunk_size: 65536 });
    there_and_back(WebSocketMessage::TransferStart { chunk_size: 0 });
    there_and_back(WebSocketMessage::TransferStart { chunk_size: usize::MAX });
}

#[test]
fn round_trip_transfer_chunk() {
    there_and_back(WebSocketMessage::TransferChunk { data: vec![], offset: 0 });
    there_and_back(WebSocketMessage::TransferChunk { data: vec![0, 1, 127, 128, 255], offset: 4096 });
}

#[test]
fn round_trip_transfer_complete() {
    there_and_back(WebSocketMessage::TransferComplete { hash: "9f86d081".to_string() });
}

#[test]
fn round_trip_error() {
    there_and_back(WebSocketMessage::Error { message: "disk full\nretry later \u{1F600}".to_string() });
}

#[test]
fn printed_text_names_the_variant_and_the_fields() {
    let message = WebSocketMessage::Auth { token: "abc".to_string() };
    assert_eq!(message.to_json().unwrap(), r#"{"token":"abc","type":"Auth"}"#);
    let message = WebSocketMessage::AuthResponse { success: true, message: None };
    assert_eq!(
        message.to_json().unwrap(),
        r#"{"message":null,"success":true,"type":"AuthResponse"}"#
    );
    let message = WebSocketMessage::TransferChunk { data: vec![1, 2, 255], offset: 7 };
    assert_eq!(
        message.to_json().unwrap(),
        r#"{"data":[1,2,255],"offset":7,"type":"TransferChunk"}"#
    );
    let message = WebSocketMessage::TransferStart { chunk_size: 1024 };
    assert_eq!(message.to_json().unwrap(), r#"{"chunk_size":1024,"type":"TransferStart"}"#);
}

#[test]
fn text_with_the_discriminant_first_is_read() {
    assert_eq!(
        WebSocketMessage::from_json(r#"{"type":"Auth","token":"abc"}"#),
        Ok(WebSocketMessage::Auth { token: "abc".to_string() })
    );
    assert_eq!(
        WebSocketMessage::from_json(
            r#"{"type":"FileOffer","filename":"a.bin","size":12,"hash":"ff","mime_type":"application/octet-stream"}"#
        ),
        Ok(WebSocketMessage::FileOffer {
            filename: "a.bin".to_string(),
            size: 12,
            hash: "ff".to_string(),
            mime_type: "application/octet-stream".to_string(),
        })
    );
    assert_eq!(
        WebSocketMessage::from_json(" { \"type\" : \"Error\" , \"message\" : \"boom\" } "),
        Ok(WebSocketMessage::Error { message: "boom".to_string() })
    );
}

#[test]
fn optional_field_may_be_absent_or_null() {
    let expected = Ok(WebSocketMessage::AuthResponse { success: false, message: None });
    assert_eq!(WebSocketMessage::from_json(r#"{"type":"AuthResponse","success":false}"#), expected);
    assert_eq!(
        WebSocketMessage::from_json(r#"{"type":"AuthResponse","success":false,"message":null}"#),
        expected
    );
    assert_eq!(
        WebSocketMessage::from_json(r#"{"type":"FileAccept","accept":true,"reason":"ok"}"#),
        Ok(WebSocketMessage::FileAccept { accept: true, reason: Some("ok".to_string()) })
    );
}

#[test]
fn members_of_other_names_are_passed_over() {
    assert_eq!(
        WebSocketMessage::from_json(r#"{"type":"Auth","token":"abc","extra":[1,{"x":null}]}"#),
        Ok(WebSocketMessage::Auth { token: "abc".to_string() })
    );
}

#[test]
fn text_that_is_no_json_is_a_syntax_error() {
    assert_eq!(WebSocketMessage::from_json(""), Err(DecodeError::Syntax));
    assert_eq!(WebSocketMessage::from_json("not json"), Err(DecodeError::Syntax));
    assert_eq!(WebSocketMessage::from_json(r#"{"type":"Auth","token":"abc""#), Err(DecodeError::Syntax));
    assert_eq!(
        WebSocketMessage::from_json(r#"{"type":"Auth","token":"abc"} trailing"#),
        Err(DecodeError::Syntax)
    );
}

#[test]
fn document_without_discriminant_is_rejected() {
    assert_eq!(WebSocketMessage::from_json("{}"), Err(DecodeError::MissingDiscriminant));
    assert_eq!(WebSocketMessage::from_json(r#"{"token":"abc"}"#), Err(DecodeError::MissingDiscriminant));
    assert_eq!(WebSocketMessage::from_json(r#"{"type":5}"#), Err(DecodeError::MissingDiscriminant));
    assert_eq!(WebSocketMessage::from_json(r#"{"type":null}"#), Err(DecodeError::MissingDiscriminant));
    assert_eq!(WebSocketMessage::from_json("[1,2,3]"), Err(DecodeError::MissingDiscriminant));
    assert_eq!(WebSocketMessage::from_json(r#""Auth""#), Err(DecodeError::MissingDiscriminant));
    assert_eq!(WebSocketMessage::from_json("null"), Err(DecodeError::MissingDiscriminant));
    assert_eq!(WebSocketMessage::from_json("17"), Err(DecodeError::MissingDiscriminant));
}

#[test]
fn unknown_variant_is_rejected() {
    assert_eq!(WebSocketMessage::from_json(r#"{"type":"Nope"}"#), Err(DecodeError::UnknownVariant));
    assert_eq!(WebSocketMessage::from_json(r#"{"type":"auth","token":"x"}"#), Err(DecodeError::UnknownVariant));
    assert_eq!(WebSocketMessage::from_json(r#"{"type":""}"#), Err(DecodeError::UnknownVariant));
    assert_eq!(
        WebSocketMessage::from_json(r#"{"type":"TransferStarted","chunk_size":1}"#),
        Err(DecodeError::UnknownVariant)
    );
}

#[test]
fn absent_or_ill_typed_field_is_rejected() {
    let invalid = Err(DecodeError::InvalidField);
    assert_eq!(WebSocketMessage::from_json(r#"{"type":"Auth"}"#), invalid);
    assert_eq!(WebSocketMessage::from_json(r#"{"type":"Auth","token":5}"#), invalid);
    assert_eq!(WebSocketMessage::from_json(r#"{"type":"Auth","token":null}"#), invalid);
    assert_eq!(WebSocketMessage::from_json(r#"{"type":"AuthResponse","message":"x"}"#), invalid);
    assert_eq!(WebSocketMessage::from_json(r#"{"type":"AuthResponse","success":"yes"}"#), invalid);
    assert_eq!(
        WebSocketMessage::from_json(r#"{"type":"AuthResponse","success":true,"message":7}"#),
        invalid
    );
    assert_eq!(
        WebSocketMessage::from_json(r#"{"type":"FileOffer","filename":"a","size":-1,"hash":"h","mime_type":"m"}"#),
        invalid
    );
    assert_eq!(
        WebSocketMessage::from_json(r#"{"type":"FileOffer","filename":"a","size":1.5,"hash":"h","mime_type":"m"}"#),
        invalid
    );
    assert_eq!(
        WebSocketMessage::from_json(r#"{"type":"FileOffer","filename":"a","size":1,"hash":"h"}"#),
        invalid
    );
    assert_eq!(WebSocketMessage::from_json(r#"{"type":"TransferStart","chunk_size":"big"}"#), invalid);
    assert_eq!(WebSocketMessage::from_json(r#"{"type":"TransferChunk","data":[1,256],"offset":0}"#), invalid);
    assert_eq!(WebSocketMessage::from_json(r#"{"type":"TransferChunk","data":[1,"2"],"offset":0}"#), invalid);
    assert_eq!(WebSocketMessage::from_json(r#"{"type":"TransferChunk","data":"AQI=","offset":0}"#), invalid);
    assert_eq!(WebSocketMessage::from_json(r#"{"type":"TransferChunk","data":[1],"offset":18446744073709551616}"#), invalid);
    assert_eq!(WebSocketMessage::from_json(r#"{"type":"TransferComplete"}"#), invalid);
    assert_eq!(WebSocketMessage::from_json(r#"{"type":"Error","message":["a"]}"#), invalid);
}

#[test]
fn value_round_trip_goes_through_the_document() {
    let message = WebSocketMessage::FileAccept { accept: false, reason: Some("no".to_string()) };
    let value = message.to_value();
    assert_eq!(value.get("type").and_then(|v| v.as_str()), Some("FileAccept"));
    assert_eq!(value.get("accept").and_then(|v| v.as_bool()), Some(false));
    assert_eq!(value.get("reason").and_then(|v| v.as_str()), Some("no"));
    assert_eq!(value.as_object().map(|m| m.len()), Some(3));
    assert_eq!(WebSocketMessage::from_value(&value), Ok(message));
}

#[test]
fn value_built_by_hand_is_read() {
    let mut members = serde_json::Map::new();
    members.insert("type".to_string(), serde_json::Value::from("TransferChunk"));
    members.insert(
        "data".to_string(),
        serde_json::Value::Array(vec![serde_json::Value::from(9u64), serde_json::Value::from(200u64)]),
    );
    members.insert("offset".to_string(), serde_json::Value::from(3u64));
    let value = serde_json::Value::Object(members);
    assert_eq!(
        WebSocketMessage::from_value(&value),
        Ok(WebSocketMessage::TransferChunk { data: vec![9, 200], offset: 3 })
    );
    assert_eq!(
        WebSocketMessage::from_value(&serde_json::Value::Null),
        Err(DecodeError::MissingDiscriminant)
    );
}
