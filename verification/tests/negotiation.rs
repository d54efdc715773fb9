use alacrite::websockets::event_loop::{
    dial_url, NegotiationAction, NegotiationEvent, Negotiator, Stage, MAX_CONNECT_ATTEMPTS,
    RETRY_DELAY_SECS,
};
use alacrite::websockets::handlers::ConnectionRole;

fn dialing() -> (Negotiator, NegotiationAction) {
    Negotiator::start(&Some("127.0.0.1:3000".to_string()), 9001)
}

#[test]
fn dial_url_puts_the_scheme_in_front() {
    assert_eq!(dial_url("127.0.0.1:3000"), "ws://127.0.0.1:3000");
    assert_eq!(dial_url(""), "ws://");
    assert_eq!(dial_url("host.local:1"), "ws://host.local:1");
}

#[test]
fn with_an_address_the_negotiation_starts_by_dialling() {
    let (negotiator, action) = dialing();
    assert_eq!(action, NegotiationAction::Connect);
    assert_eq!(negotiator.stage, Stage::Dialing { remaining_retries: 5 });
    assert_eq!(negotiator.port, 9001);
    assert_eq!(negotiator.role(), None);
    assert_eq!(MAX_CONNECT_ATTEMPTS, 5);
    assert_eq!(RETRY_DELAY_SECS, 2);
}

#[test]
fn without_an_address_the_negotiation_starts_by_listening() {
    let (mut negotiator, action) = Negotiator::start(&None, 9001);
    assert_eq!(action, NegotiationAction::Listen { port: 9001 });
    assert_eq!(negotiator.stage, Stage::Binding);
    assert_eq!(negotiator.step(NegotiationEvent::Bound), NegotiationAction::Accept);
    assert_eq!(negotiator.stage, Stage::Listening);
}

#[test]
fn a_peer_that_always_refuses_is_dialled_five_times() {
    let (mut negotiator, first) = dialing();
    let mut connects = 0;
    let mut action = first;
    let mut reported = 0;
    loop {
        match action {
            NegotiationAction::Connect => connects += 1,
            NegotiationAction::RetryAfter { delay_secs, remaining_retries } => {
                assert_eq!(delay_secs, 2);
                assert_eq!(remaining_retries, 5 - connects);
                connects += 1;
            }
            _ => break,
        }
        action = negotiator.step(NegotiationEvent::ConnectFailed);
        reported += 1;
    }
    assert_eq!(connects, 5);
    assert_eq!(reported, 5);
    assert_eq!(action, NegotiationAction::Listen { port: 9001 });
    assert_eq!(negotiator.stage, Stage::Binding);
    // further refusals are not answered by dialling
    for _ in 0..10 {
        assert_eq!(negotiator.step(NegotiationEvent::ConnectFailed), NegotiationAction::Nothing);
        assert_eq!(negotiator.stage, Stage::Binding);
    }
}

#[test]
fn each_refusal_counts_the_attempts_down() {
    let (mut negotiator, _) = dialing();
    assert_eq!(
        negotiator.step(NegotiationEvent::ConnectFailed),
        NegotiationAction::RetryAfter { delay_secs: 2, remaining_retries: 4 }
    );
    assert_eq!(negotiator.stage, Stage::Dialing { remaining_retries: 4 });
    assert_eq!(
        negotiator.step(NegotiationEvent::ConnectFailed),
        NegotiationAction::RetryAfter { delay_secs: 2, remaining_retries: 3 }
    );
    assert_eq!(
        negotiator.step(NegotiationEvent::ConnectFailed),
        NegotiationAction::RetryAfter { delay_secs: 2, remaining_retries: 2 }
    );
    assert_eq!(
        negotiator.step(NegotiationEvent::ConnectFailed),
        NegotiationAction::RetryAfter { delay_secs: 2, remaining_retries: 1 }
    );
    assert_eq!(negotiator.stage, Stage::Dialing { remaining_retries: 1 });
    assert_eq!(negotiator.step(NegotiationEvent::ConnectFailed), NegotiationAction::Listen { port: 9001 });
}

#[test]
fn no_retry_once_a_connect_succeeds() {
    for failures in 0..5 {
        let (mut negotiator, _) = dialing();
        for _ in 0..failures {
            negotiator.step(NegotiationEvent::ConnectFailed);
        }
        assert_eq!(
            negotiator.step(NegotiationEvent::Connected),
            NegotiationAction::Serve { role: ConnectionRole::Client }
        );
        assert_eq!(negotiator.stage, Stage::InSession { role: ConnectionRole::Client });
        assert_eq!(negotiator.role(), Some(ConnectionRole::Client));
        assert_eq!(negotiator.step(NegotiationEvent::ConnectFailed), NegotiationAction::Nothing);
        assert_eq!(negotiator.step(NegotiationEvent::Connected), NegotiationAction::Nothing);
        assert_eq!(negotiator.stage, Stage::InSession { role: ConnectionRole::Client });
        assert_eq!(negotiator.step(NegotiationEvent::SessionEnded), NegotiationAction::Finish);
        assert_eq!(negotiator.stage, Stage::Finished);
        for event in [
            NegotiationEvent::ConnectFailed,
            NegotiationEvent::Connected,
            NegotiationEvent::Bound,
            NegotiationEvent::BindFailed,
            NegotiationEvent::Accepted,
            NegotiationEvent::AcceptFailed,
            NegotiationEvent::SessionEnded,
        ] {
            assert_eq!(negotiator.step(event), NegotiationAction::Nothing);
            assert_eq!(negotiator.stage, Stage::Finished);
        }
    }
}

#[test]
fn a_listener_that_cannot_be_bound_is_fatal() {
    let (mut negotiator, _) = Negotiator::start(&None, 9001);
    assert_eq!(negotiator.step(NegotiationEvent::BindFailed), NegotiationAction::Fail);
    assert_eq!(negotiator.stage, Stage::Failed);
    assert_eq!(negotiator.step(NegotiationEvent::Bound), NegotiationAction::Nothing);
    assert_eq!(negotiator.step(NegotiationEvent::Accepted), NegotiationAction::Nothing);
    assert_eq!(negotiator.stage, Stage::Failed);
}

#[test]
fn a_failed_accept_is_passed_over() {
    let (mut negotiator, _) = Negotiator::start(&None, 9001);
    negotiator.step(NegotiationEvent::Bound);
    assert_eq!(negotiator.step(NegotiationEvent::AcceptFailed), NegotiationAction::Accept);
    assert_eq!(negotiator.step(NegotiationEvent::AcceptFailed), NegotiationAction::Accept);
    assert_eq!(negotiator.stage, Stage::Listening);
    assert_eq!(
        negotiator.step(NegotiationEvent::Accepted),
        NegotiationAction::Serve { role: ConnectionRole::Server }
    );
    assert_eq!(negotiator.role(), Some(ConnectionRole::Server));
}

#[test]
fn a_server_serves_one_connection_after_the_other() {
    let (mut negotiator, _) = Negotiator::start(&None, 9001);
    negotiator.step(NegotiationEvent::Bound);
    for _ in 0..3 {
        assert_eq!(
            negotiator.step(NegotiationEvent::Accepted),
            NegotiationAction::Serve { role: ConnectionRole::Server }
        );
        assert_eq!(negotiator.step(NegotiationEvent::Accepted), NegotiationAction::Nothing);
        assert_eq!(negotiator.step(NegotiationEvent::SessionEnded), NegotiationAction::Accept);
        assert_eq!(negotiator.stage, Stage::Listening);
    }
}

#[test]
fn falling_back_after_the_refusals_leads_to_the_server_role() {
    let (mut negotiator, _) = dialing();
    for _ in 0..5 {
        negotiator.step(NegotiationEvent::ConnectFailed);
    }
    assert_eq!(negotiator.step(NegotiationEvent::Bound), NegotiationAction::Accept);
    assert_eq!(
        negotiator.step(NegotiationEvent::Accepted),
        NegotiationAction::Serve { role: ConnectionRole::Server }
    );
}

#[test]
fn events_of_another_stage_change_nothing() {
    let (mut negotiator, _) = dialing();
    for event in [
        NegotiationEvent::Bound,
        NegotiationEvent::BindFailed,
        NegotiationEvent::Accepted,
        NegotiationEvent::AcceptFailed,
        NegotiationEvent::SessionEnded,
    ] {
        assert_eq!(negotiator.step(event), NegotiationAction::Nothing);
        assert_eq!(negotiator.stage, Stage::Dialing { remaining_retries: 5 });
    }
}
