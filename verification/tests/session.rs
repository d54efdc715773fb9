use alacrite::codec::DecodeError;
use alacrite::websockets::handle_message::{handle_binary_data, handle_message, Delivery};
use alacrite::websockets::handlers::{
    handle_websocket_message, CloseReason, ConnectionRole, Phase, SendError, Session,
    SessionAction, SessionEvent, HEARTBEAT_INTERVAL_MS, LIVENESS_TIMEOUT_MS,
};
use alacrite::websockets::messages::WebSocketMessage;

fn active(role: ConnectionRole, now: u64) -> Session {
    let mut session = Session::new(role);
    assert_eq!(session.step(SessionEvent::Established, now), SessionAction::SendPing);
    session
}

#[test]
fn heartbeat_constants() {
    assert_eq!(HEARTBEAT_INTERVAL_MS, 30_000);
    assert_eq!(LIVENESS_TIMEOUT_MS, 60_000);
}

#[test]
fn a_new_session_waits_for_its_channel() {
    let mut session = Session::new(ConnectionRole::Client);
    assert_eq!(session, Session { role: ConnectionRole::Client, phase: Phase::Connecting, last_pong: 0 });
    for event in [
        SessionEvent::Ping,
        SessionEvent::Pong,
        SessionEvent::Tick,
        SessionEvent::Unknown,
        SessionEvent::Text("{}".to_string()),
        SessionEvent::Binary(vec![1]),
    ] {
        assert_eq!(session.step(event, 5), SessionAction::Nothing);
        assert_eq!(session.phase, Phase::Connecting);
    }
    assert_eq!(
        session.send(&WebSocketMessage::Auth { token: "t".to_string() }),
        Err(SendError::NotActive)
    );
}

#[test]
fn entering_active_sends_the_first_probe_on_both_sides() {
    for role in [ConnectionRole::Client, ConnectionRole::Server] {
        let mut session = Session::new(role);
        assert_eq!(session.step(SessionEvent::Established, 1234), SessionAction::SendPing);
        assert_eq!(session, Session { role, phase: Phase::Active, last_pong: 1234 });
    }
}

#[test]
fn a_channel_that_never_opens_is_closed() {
    let mut session = Session::new(ConnectionRole::Server);
    assert_eq!(
        session.step(SessionEvent::ChannelFailed, 1),
        SessionAction::Close(CloseReason::TransportError)
    );
    assert_eq!(session.phase, Phase::Closed);
    let mut session = Session::new(ConnectionRole::Server);
    assert_eq!(
        session.step(SessionEvent::ChannelClosed, 1),
        SessionAction::Close(CloseReason::PeerClosed)
    );
    assert_eq!(session.phase, Phase::Closed);
}

#[test]
fn a_probe_is_acknowledged_at_once() {
    let mut session = active(ConnectionRole::Server, 100);
    assert_eq!(session.step(SessionEvent::Ping, 200), SessionAction::SendPong);
    assert_eq!(session, Session { role: ConnectionRole::Server, phase: Phase::Active, last_pong: 100 });
}

#[test]
fn an_acknowledgment_restarts_the_window() {
    let mut session = active(ConnectionRole::Client, 100);
    assert_eq!(session.step(SessionEvent::Pong, 45_000), SessionAction::Nothing);
    assert_eq!(session.last_pong, 45_000);
    assert_eq!(session.step(SessionEvent::Tick, 100_000), SessionAction::SendPing);
    assert_eq!(session.phase, Phase::Active);
    assert_eq!(session.step(SessionEvent::Tick, 105_000), SessionAction::SendPing);
    assert_eq!(
        session.step(SessionEvent::Tick, 105_001),
        SessionAction::Close(CloseReason::LivenessTimeout)
    );
}

#[test]
fn a_well_formed_text_is_handed_on() {
    let mut session = active(ConnectionRole::Server, 0);
    assert_eq!(
        session.step(SessionEvent::Text(r#"{"type":"Auth","token":"abc"}"#.to_string()), 10),
        SessionAction::Deliver(Delivery::Control(WebSocketMessage::Auth { token: "abc".to_string() }))
    );
    assert_eq!(
        session.step(SessionEvent::Text(r#"{"type":"TransferStart","chunk_size":8}"#.to_string()), 11),
        SessionAction::Deliver(Delivery::Payload(WebSocketMessage::TransferStart { chunk_size: 8 }))
    );
    assert_eq!(session, Session { role: ConnectionRole::Server, phase: Phase::Active, last_pong: 0 });
}

#[test]
fn a_malformed_text_is_reported_and_the_channel_stays_active() {
    let mut session = active(ConnectionRole::Server, 0);
    assert_eq!(
        session.step(SessionEvent::Text("not json at all".to_string()), 10),
        SessionAction::Rejected(DecodeError::Syntax)
    );
    assert_eq!(
        session.step(SessionEvent::Text(r#"{"type":"Bogus"}"#.to_string()), 11),
        SessionAction::Rejected(DecodeError::UnknownVariant)
    );
    assert_eq!(
        session.step(SessionEvent::Text(r#"{"token":"abc"}"#.to_string()), 12),
        SessionAction::Rejected(DecodeError::MissingDiscriminant)
    );
    assert_eq!(
        session.step(SessionEvent::Text(r#"{"type":"Error"}"#.to_string()), 13),
        SessionAction::Rejected(DecodeError::InvalidField)
    );
    assert_eq!(session, Session { role: ConnectionRole::Server, phase: Phase::Active, last_pong: 0 });
    assert_eq!(session.step(SessionEvent::Ping, 14), SessionAction::SendPong);
}

#[test]
fn binary_frames_go_to_the_payload_handler_untouched() {
    let mut session = active(ConnectionRole::Client, 0);
    assert_eq!(
        session.step(SessionEvent::Binary(vec![0, 255, 7, 7]), 10),
        SessionAction::Deliver(Delivery::Binary(vec![0, 255, 7, 7]))
    );
    assert_eq!(
        session.step(SessionEvent::Binary(vec![]), 10),
        SessionAction::Deliver(Delivery::Binary(vec![]))
    );
    assert_eq!(handle_binary_data(&[1, 2, 3]), Delivery::Binary(vec![1, 2, 3]));
    assert_eq!(handle_binary_data(&[]), Delivery::Binary(vec![]));
}

#[test]
fn a_failed_send_changes_nothing() {
    let mut session = active(ConnectionRole::Client, 7);
    assert_eq!(session.step(SessionEvent::SendFailed, 10), SessionAction::Nothing);
    assert_eq!(session, Session { role: ConnectionRole::Client, phase: Phase::Active, last_pong: 7 });
    assert_eq!(session.step(SessionEvent::Ping, 11), SessionAction::SendPong);
    let mut waiting = Session::new(ConnectionRole::Server);
    assert_eq!(waiting.step(SessionEvent::SendFailed, 10), SessionAction::Nothing);
    assert_eq!(waiting.phase, Phase::Connecting);
}

#[test]
fn frames_of_other_kinds_are_passed_over() {
    let mut session = active(ConnectionRole::Client, 0);
    assert_eq!(session.step(SessionEvent::Unknown, 10), SessionAction::Nothing);
    assert_eq!(session.step(SessionEvent::Established, 10), SessionAction::Nothing);
    assert_eq!(session, Session { role: ConnectionRole::Client, phase: Phase::Active, last_pong: 0 });
}

#[test]
fn the_tick_probes_while_the_peer_answers_in_time() {
    let mut session = active(ConnectionRole::Server, 1_000);
    assert_eq!(session.step(SessionEvent::Tick, 31_000), SessionAction::SendPing);
    assert_eq!(session.step(SessionEvent::Tick, 61_000), SessionAction::SendPing);
    assert_eq!(session.phase, Phase::Active);
    assert!(!session.is_timed_out(61_000));
    assert!(session.is_timed_out(61_001));
}

#[test]
fn silence_longer_than_the_window_closes_the_session() {
    let mut session = active(ConnectionRole::Server, 1_000);
    assert_eq!(session.step(SessionEvent::Tick, 31_000), SessionAction::SendPing);
    assert_eq!(session.step(SessionEvent::Ping, 40_000), SessionAction::SendPong);
    assert_eq!(
        session.step(SessionEvent::Text(r#"{"type":"Error","message":"x"}"#.to_string()), 50_000),
        SessionAction::Deliver(Delivery::Control(WebSocketMessage::Error { message: "x".to_string() }))
    );
    assert_eq!(
        session.step(SessionEvent::Tick, 61_001),
        SessionAction::Close(CloseReason::LivenessTimeout)
    );
    assert_eq!(session.phase, Phase::Closing);
    assert_eq!(
        session.send(&WebSocketMessage::Auth { token: "t".to_string() }),
        Err(SendError::NotActive)
    );
    assert_eq!(session.step(SessionEvent::ChannelClosed, 61_002), SessionAction::Nothing);
    assert_eq!(session.phase, Phase::Closed);
    for event in [
        SessionEvent::Tick,
        SessionEvent::Ping,
        SessionEvent::Pong,
        SessionEvent::Established,
        SessionEvent::Text(r#"{"type":"Auth","token":"abc"}"#.to_string()),
        SessionEvent::Binary(vec![1]),
        SessionEvent::ChannelFailed,
    ] {
        assert_eq!(session.step(event, 70_000), SessionAction::Nothing);
        assert_eq!(session.phase, Phase::Closed);
    }
    assert_eq!(
        session.send(&WebSocketMessage::Auth { token: "t".to_string() }),
        Err(SendError::NotActive)
    );
}

#[test]
fn a_closing_session_is_closed_by_whatever_comes_next() {
    let mut session = active(ConnectionRole::Client, 0);
    session.step(SessionEvent::Tick, 60_001);
    assert_eq!(session.phase, Phase::Closing);
    assert_eq!(session.step(SessionEvent::Pong, 60_002), SessionAction::Nothing);
    assert_eq!(session.phase, Phase::Closed);
    assert_eq!(session.last_pong, 0);
}

#[test]
fn a_closed_or_failed_channel_ends_the_session() {
    let mut session = active(ConnectionRole::Client, 0);
    assert_eq!(
        session.step(SessionEvent::ChannelClosed, 5),
        SessionAction::Close(CloseReason::PeerClosed)
    );
    assert_eq!(session.phase, Phase::Closed);
    let mut session = active(ConnectionRole::Client, 0);
    assert_eq!(
        session.step(SessionEvent::ChannelFailed, 5),
        SessionAction::Close(CloseReason::TransportError)
    );
    assert_eq!(session.phase, Phase::Closed);
}

#[test]
fn a_clock_that_went_back_does_not_time_out() {
    let mut session = active(ConnectionRole::Client, 500_000);
    assert!(!session.is_timed_out(0));
    assert_eq!(session.step(SessionEvent::Tick, 100), SessionAction::SendPing);
    assert_eq!(session.phase, Phase::Active);
}

#[test]
fn the_role_never_changes() {
    let mut session = active(ConnectionRole::Server, 0);
    session.step(SessionEvent::Pong, 10);
    session.step(SessionEvent::Tick, 100_000);
    session.step(SessionEvent::ChannelClosed, 100_001);
    assert_eq!(session.role, ConnectionRole::Server);
}

#[test]
fn an_active_session_sends_the_printed_message() {
    let session = active(ConnectionRole::Client, 0);
    let message = WebSocketMessage::FileAccept { accept: true, reason: None };
    assert_eq!(session.send(&message), Ok(r#"{"accept":true,"reason":null,"type":"FileAccept"}"#.to_string()));
    assert_eq!(session.send(&message), Ok(message.to_json().unwrap()));
}

#[test]
fn control_messages_are_reported_and_transfer_messages_handed_on() {
    let control = [
        WebSocketMessage::Auth { token: "t".to_string() },
        WebSocketMessage::AuthResponse { success: true, message: Some("welcome".to_string()) },
        WebSocketMessage::Error { message: "oops".to_string() },
    ];
    for message in control {
        assert_eq!(handle_message(message.clone()), Delivery::Control(message.clone()));
        assert_eq!(
            handle_websocket_message(message.clone()),
            SessionAction::Deliver(Delivery::Control(message))
        );
    }
    let payload = [
        WebSocketMessage::FileOffer {
            filename: "f".to_string(),
            size: 1,
            hash: "h".to_string(),
            mime_type: "m".to_string(),
        },
        WebSocketMessage::FileAccept { accept: false, reason: Some("no".to_string()) },
        WebSocketMessage::TransferStart { chunk_size: 4 },
        WebSocketMessage::TransferChunk { data: vec![1, 2], offset: 2 },
        WebSocketMessage::TransferComplete { hash: "h".to_string() },
    ];
    for message in payload {
        assert_eq!(handle_message(message.clone()), Delivery::Payload(message.clone()));
        assert_eq!(
            handle_websocket_message(message.clone()),
            SessionAction::Deliver(Delivery::Payload(message))
        );
    }
}
