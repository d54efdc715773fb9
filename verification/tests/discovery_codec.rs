use alacrite::codec::DecodeError;
use alacrite::network_discovery::address::Ipv4Address;
use alacrite::network_discovery::messages::BroadcastMessage;
use alacrite::network_discovery::peer::PeerInfo;

fn alpha() -> PeerInfo {
    PeerInfo {
        id: "a-1".to_string(),
        hostname: "alpha".to_string(),
        ip: Ipv4Address { a: 192, b: 168, c: 1, d: 10 },
        port: 7070,
        last_seen: 1_700_000_000,
    }
}

fn there_and_back(message: BroadcastMessage) {
    let bytes = message.to_bytes().expect("a datagram can be printed");
    assert_eq!(BroadcastMessage::from_bytes(&bytes), Ok(message));
}

#[test]
fn round_trip_announce() {
    there_and_back(BroadcastMessage::Announce { peer: alpha() });
}

#[test]
fn round_trip_discovery_request() {
    there_and_back(BroadcastMessage::DiscoveryRequest { from: alpha() });
}

#[test]
fn round_trip_discovery_response() {
    there_and_back(BroadcastMessage::DiscoveryResponse { peer: alpha() });
}

#[test]
fn round_trip_peer_at_the_limits() {
    let peer = PeerInfo {
        id: String::new(),
        hostname: "h\u{00F6}st \"x\"\\".to_string(),
        ip: Ipv4Address { a: 0, b: 255, c: 100, d: 9 },
        port: u16::MAX,
        last_seen: u64::MAX,
    };
    there_and_back(BroadcastMessage::Announce { peer: peer.clone() });
    let peer = PeerInfo { port: 0, last_seen: 0, ..peer };
    there_and_back(BroadcastMessage::DiscoveryResponse { peer });
}

#[test]
fn printed_bytes_name_the_variant_and_hold_the_whole_peer() {
    let bytes = BroadcastMessage::Announce { peer: alpha() }.to_bytes().unwrap();
    assert_eq!(
        String::from_utf8(bytes).unwrap(),
        r#"{"Announce":{"peer":{"hostname":"alpha","id":"a-1","ip":"192.168.1.10","last_seen":1700000000,"port":7070}}}"#
    );
    let bytes = BroadcastMessage::DiscoveryRequest { from: alpha() }.to_bytes().unwrap();
    assert_eq!(
        String::from_utf8(bytes).unwrap(),
        r#"{"DiscoveryRequest":{"from":{"hostname":"alpha","id":"a-1","ip":"192.168.1.10","last_seen":1700000000,"port":7070}}}"#
    );
}

#[test]
fn payload_with_the_fields_in_another_order_is_read() {
    let payload = br#"{"DiscoveryResponse":{"peer":{"id":"a-1","hostname":"alpha","ip":"192.168.1.10","port":7070,"last_seen":1700000000}}}"#;
    assert_eq!(
        BroadcastMessage::from_bytes(payload),
        Ok(BroadcastMessage::DiscoveryResponse { peer: alpha() })
    );
}

#[test]
fn payload_that_is_no_json_is_a_syntax_error() {
    assert_eq!(BroadcastMessage::from_bytes(b""), Err(DecodeError::Syntax));
    assert_eq!(BroadcastMessage::from_bytes(&[0xff, 0xfe, 0x00, 0x12]), Err(DecodeError::Syntax));
    assert_eq!(BroadcastMessage::from_bytes(b"{\"Announce\":"), Err(DecodeError::Syntax));
    assert_eq!(BroadcastMessage::from_bytes(b"hello"), Err(DecodeError::Syntax));
}

#[test]
fn payload_without_discriminant_is_rejected() {
    let missing = Err(DecodeError::MissingDiscriminant);
    assert_eq!(BroadcastMessage::from_bytes(b"{}"), missing);
    assert_eq!(BroadcastMessage::from_bytes(b"[]"), missing);
    assert_eq!(BroadcastMessage::from_bytes(b"\"Announce\""), missing);
    assert_eq!(BroadcastMessage::from_bytes(b"42"), missing);
    assert_eq!(
        BroadcastMessage::from_bytes(br#"{"Announce":{"peer":{"id":"a","hostname":"h","ip":"1.2.3.4","port":1,"last_seen":1}},"extra":1}"#),
        missing
    );
}

#[test]
fn payload_with_unknown_variant_is_rejected() {
    assert_eq!(
        BroadcastMessage::from_bytes(br#"{"Goodbye":{"peer":{"id":"a","hostname":"h","ip":"1.2.3.4","port":1,"last_seen":1}}}"#),
        Err(DecodeError::UnknownVariant)
    );
    assert_eq!(BroadcastMessage::from_bytes(br#"{"announce":{}}"#), Err(DecodeError::UnknownVariant));
}

#[test]
fn payload_with_a_bad_peer_is_rejected() {
    let invalid = Err(DecodeError::InvalidField);
    assert_eq!(BroadcastMessage::from_bytes(br#"{"Announce":{}}"#), invalid);
    assert_eq!(BroadcastMessage::from_bytes(br#"{"Announce":7}"#), invalid);
    assert_eq!(BroadcastMessage::from_bytes(br#"{"Announce":{"peer":"alpha"}}"#), invalid);
    assert_eq!(
        BroadcastMessage::from_bytes(br#"{"Announce":{"from":{"id":"a","hostname":"h","ip":"1.2.3.4","port":1,"last_seen":1}}}"#),
        invalid
    );
    assert_eq!(
        BroadcastMessage::from_bytes(br#"{"Announce":{"peer":{"hostname":"h","ip":"1.2.3.4","port":1,"last_seen":1}}}"#),
        invalid
    );
    assert_eq!(
        BroadcastMessage::from_bytes(br#"{"Announce":{"peer":{"id":"a","hostname":"h","ip":"1.2.3.400","port":1,"last_seen":1}}}"#),
        invalid
    );
    assert_eq!(
        BroadcastMessage::from_bytes(br#"{"Announce":{"peer":{"id":"a","hostname":"h","ip":"fe80::1","port":1,"last_seen":1}}}"#),
        invalid
    );
    assert_eq!(
        BroadcastMessage::from_bytes(br#"{"Announce":{"peer":{"id":"a","hostname":"h","ip":"1.2.3.4","port":65536,"last_seen":1}}}"#),
        invalid
    );
    assert_eq!(
        BroadcastMessage::from_bytes(br#"{"Announce":{"peer":{"id":"a","hostname":"h","ip":"1.2.3.4","port":1,"last_seen":-5}}}"#),
        invalid
    );
    assert_eq!(
        BroadcastMessage::from_bytes(br#"{"Announce":{"peer":{"id":1,"hostname":"h","ip":"1.2.3.4","port":1,"last_seen":1}}}"#),
        invalid
    );
}

#[test]
fn discovery_value_round_trip_goes_through_the_document() {
    let message = BroadcastMessage::DiscoveryRequest { from: alpha() };
    let value = message.to_value();
    let peer = &value["DiscoveryRequest"]["from"];
    assert_eq!(peer["ip"].as_str(), Some("192.168.1.10"));
    assert_eq!(peer["port"].as_u64(), Some(7070));
    assert_eq!(peer["id"].as_str(), Some("a-1"));
    assert_eq!(BroadcastMessage::from_value(&value), Ok(message));
}
