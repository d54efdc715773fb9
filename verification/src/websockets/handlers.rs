//! The life of one established channel.
//!
//! A [`Session`] decides; it neither reads nor writes. The caller waits for
//! the next frame or for the heartbeat timer, tells the session what came,
//! and carries out the action that [`Session::step`] answers with. Both
//! sides of a channel run the same machine: the role only records which
//! side dialled.

use crate::codec::{DecodeError, EncodeError};
use crate::json::printed_text;
use crate::websockets::handle_message::{
    delivery_of, handle_binary_data, handle_message, Delivery, DeliveryView,
};
use crate::websockets::messages::{session_doc, session_of_text, WebSocketMessage};
use vstd::prelude::*;

verus! {

/// The time between two heartbeat probes, in milliseconds.
pub const HEARTBEAT_INTERVAL_MS: u64 = 30_000;

/// How long a channel may stay without an acknowledgment, in milliseconds.
pub const LIVENESS_TIMEOUT_MS: u64 = 60_000;

/// Which side of the channel this process is.
#[derive(Debug, Clone, Copy, PartialEq, Eq, Structural)]
pub enum ConnectionRole {
    /// This process dialled out.
    Client,
    /// This process accepted the connection.
    Server,
}

/// Where a channel stands in its life.
#[derive(Debug, Clone, Copy, PartialEq, Eq, Structural)]
pub enum Phase {
    Connecting,
    Active,
    Closing,
    Closed,
}

/// Why a channel is given up.
#[derive(Debug, Clone, Copy, PartialEq, Eq, Structural)]
pub enum CloseReason {
    /// The peer closed the channel, or the stream ended.
    PeerClosed,
    /// The transport reported an error.
    TransportError,
    /// No acknowledgment came within the liveness window.
    LivenessTimeout,
}

/// What happened on the channel or on the timer.
#[derive(Debug, Clone, PartialEq, Eq)]
pub enum SessionEvent {
    /// The channel is established.
    Established,
    /// A text frame came.
    Text(String),
    /// A binary frame came.
    Binary(Vec<u8>),
    /// A heartbeat probe came.
    Ping,
    /// A heartbeat acknowledgment came.
    Pong,
    /// A frame of a kind that the session does not use came.
    Unknown,
    /// The channel is closed.
    ChannelClosed,
    /// The transport failed.
    ChannelFailed,
    /// A frame could not be sent.
    SendFailed,
    /// The heartbeat timer fired.
    Tick,
}

/// An event as a mathematical value.
pub enum SessionEventView {
    Established,
    Text(Seq<char>),
    Binary(Seq<u8>),
    Ping,
    Pong,
    Unknown,
    ChannelClosed,
    ChannelFailed,
    SendFailed,
    Tick,
}

impl View for SessionEvent {
    type V = SessionEventView;

    open spec fn view(&self) -> SessionEventView {
        match *self {
            SessionEvent::Established => SessionEventView::Established,
            SessionEvent::Text(text) => SessionEventView::Text(text@),
            SessionEvent::Binary(bytes) => SessionEventView::Binary(bytes@),
            SessionEvent::Ping => SessionEventView::Ping,
            SessionEvent::Pong => SessionEventView::Pong,
            SessionEvent::Unknown => SessionEventView::Unknown,
            SessionEvent::ChannelClosed => SessionEventView::ChannelClosed,
            SessionEvent::ChannelFailed => SessionEventView::ChannelFailed,
            SessionEvent::SendFailed => SessionEventView::SendFailed,
            SessionEvent::Tick => SessionEventView::Tick,
        }
    }
}

/// What the caller is to do next.
#[derive(Debug, Clone, PartialEq, Eq)]
pub enum SessionAction {
    /// Send a heartbeat probe.
    SendPing,
    /// Send a heartbeat acknowledgment.
    SendPong,
    /// Hand the delivery on.
    Deliver(Delivery),
    /// A text frame was no message: report it and go on.
    Rejected(DecodeError),
    /// Drop the channel and stop.
    Close(CloseReason),
    /// Nothing.
    Nothing,
}

/// An action as a mathematical value.
pub enum SessionActionView {
    SendPing,
    SendPong,
    Deliver(DeliveryView),
    Rejected(DecodeError),
    Close(CloseReason),
    Nothing,
}

impl View for SessionAction {
    type V = SessionActionView;

    open spec fn view(&self) -> SessionActionView {
        match *self {
            SessionAction::SendPing => SessionActionView::SendPing,
            SessionAction::SendPong => SessionActionView::SendPong,
            SessionAction::Deliver(delivery) => SessionActionView::Deliver(delivery@),
            SessionAction::Rejected(e) => SessionActionView::Rejected(e),
            SessionAction::Close(reason) => SessionActionView::Close(reason),
            SessionAction::Nothing => SessionActionView::Nothing,
        }
    }
}

/// Why a message was not sent.
#[derive(Debug, Clone, Copy, PartialEq, Eq, Structural)]
pub enum SendError {
    /// The channel is not active.
    NotActive,
    /// The message could not be printed.
    Encode,
}

/// One channel: its role, its phase and the time of the last acknowledgment.
#[derive(Debug, Clone, Copy, PartialEq, Eq, Structural)]
pub struct Session {
    pub role: ConnectionRole,
    pub phase: Phase,
    /// When the last heartbeat acknowledgment came, in milliseconds on the
    /// caller's clock; the time of entering `Active` until one has come.
    pub last_pong: u64,
}

/// The time since the last acknowledgment; none if the clock went back.
pub open spec fn elapsed(last_pong: u64, now: u64) -> int {
    if now >= last_pong {
        now - last_pong
    } else {
        0
    }
}

/// Whether the channel has been silent for longer than the liveness window.
pub open spec fn timed_out(last_pong: u64, now: u64) -> bool {
    elapsed(last_pong, now) > LIVENESS_TIMEOUT_MS
}

/// What becomes of an active session on an event.
pub open spec fn next_active(s: Session, event: SessionEventView, now: u64) -> (
    Session,
    SessionActionView,
) {
    match event {
        SessionEventView::Established => (s, SessionActionView::Nothing),
        SessionEventView::Text(text) => match session_of_text(text) {
            Ok(message) => (s, SessionActionView::Deliver(delivery_of(message))),
            Err(e) => (s, SessionActionView::Rejected(e)),
        },
        SessionEventView::Binary(bytes) => (
            s,
            SessionActionView::Deliver(DeliveryView::Binary(bytes)),
        ),
        SessionEventView::Ping => (s, SessionActionView::SendPong),
        SessionEventView::Pong => (
            Session { last_pong: now, ..s },
            SessionActionView::Nothing,
        ),
        SessionEventView::Unknown => (s, SessionActionView::Nothing),
        SessionEventView::SendFailed => (s, SessionActionView::Nothing),
        SessionEventView::ChannelClosed => (
            Session { phase: Phase::Closed, ..s },
            SessionActionView::Close(CloseReason::PeerClosed),
        ),
        SessionEventView::ChannelFailed => (
            Session { phase: Phase::Closed, ..s },
            SessionActionView::Close(CloseReason::TransportError),
        ),
        SessionEventView::Tick => if timed_out(s.last_pong, now) {
            (
                Session { phase: Phase::Closing, ..s },
                SessionActionView::Close(CloseReason::LivenessTimeout),
            )
        } else {
            (s, SessionActionView::SendPing)
        },
    }
}

/// The transition function of a session: the state after an event that came
/// at time `now`, and the action that the caller is to carry out.
///
/// - `Connecting` waits for the channel: once it is established the session
///   is `Active`, the liveness window starts and a first probe is sent. A
///   channel that closes or fails before that is `Closed`.
/// - `Active` answers each event as [`next_active`] says. A frame that
///   could not be sent changes nothing: if the channel is gone, the
///   reading side will tell.
/// - `Closing` is over with the next event, whatever it is.
/// - `Closed` stays closed. Neither of the two sends anything.
pub open spec fn next(s: Session, event: SessionEventView, now: u64) -> (
    Session,
    SessionActionView,
) {
    match s.phase {
        Phase::Connecting => match event {
            SessionEventView::Established => (
                Session { phase: Phase::Active, last_pong: now, ..s },
                SessionActionView::SendPing,
            ),
            SessionEventView::ChannelClosed => (
                Session { phase: Phase::Closed, ..s },
                SessionActionView::Close(CloseReason::PeerClosed),
            ),
            SessionEventView::ChannelFailed => (
                Session { phase: Phase::Closed, ..s },
                SessionActionView::Close(CloseReason::TransportError),
            ),
            _ => (s, SessionActionView::Nothing),
        },
        Phase::Active => next_active(s, event, now),
        Phase::Closing => (Session { phase: Phase::Closed, ..s }, SessionActionView::Nothing),
        Phase::Closed => (s, SessionActionView::Nothing),
    }
}

/// What `send` returns for its phase and for what the printer gave.
pub fn frame_or_error(
    phase: Phase,
    printed: Result<String, EncodeError>,
) -> (r: Result<String, SendError>)
    ensures
        r == (match (phase, printed) {
            (Phase::Active, Ok(text)) => Ok::<String, SendError>(text),
            (Phase::Active, Err(_)) => Err(SendError::Encode),
            _ => Err(SendError::NotActive),
        }),
{
    match phase {
        Phase::Active => match printed {
            Ok(text) => Ok(text),
            Err(_) => Err(SendError::Encode),
        },
        _ => Err(SendError::NotActive),
    }
}

/// What the session does with a decoded message: it hands it on, sorted.
pub fn handle_websocket_message(msg: WebSocketMessage) -> (r: SessionAction)
    ensures
        r@ == SessionActionView::Deliver(delivery_of(msg@)),
{
    SessionAction::Deliver(handle_message(msg))
}

impl Session {
    /// A session that waits for its channel.
    pub fn new(role: ConnectionRole) -> (r: Session)
        ensures
            r == (Session { role, phase: Phase::Connecting, last_pong: 0 }),
    {
        Session { role, phase: Phase::Connecting, last_pong: 0 }
    }

    /// Whether the channel has been silent for longer than the liveness
    /// window at time `now`.
    pub fn is_timed_out(&self, now: u64) -> (r: bool)
        ensures
            r == timed_out(self.last_pong, now),
    {
        now >= self.last_pong && now - self.last_pong > LIVENESS_TIMEOUT_MS
    }

    /// Takes an event that came at time `now`: moves the session on and
    /// says what the caller is to do, both as [`next`] gives them.
    pub fn step(&mut self, event: SessionEvent, now: u64) -> (action: SessionAction)
        ensures
            (*final(self), action@) == next(*old(self), event@, now),
    {
        match self.phase {
            Phase::Connecting => match event {
                SessionEvent::Established => {
                    self.phase = Phase::Active;
                    self.last_pong = now;
                    SessionAction::SendPing
                },
                SessionEvent::ChannelClosed => {
                    self.phase = Phase::Closed;
                    SessionAction::Close(CloseReason::PeerClosed)
                },
                SessionEvent::ChannelFailed => {
                    self.phase = Phase::Closed;
                    SessionAction::Close(CloseReason::TransportError)
                },
                _ => SessionAction::Nothing,
            },
            Phase::Active => self.step_active(event, now),
            Phase::Closing => {
                self.phase = Phase::Closed;
                SessionAction::Nothing
            },
            Phase::Closed => SessionAction::Nothing,
        }
    }

    fn step_active(&mut self, event: SessionEvent, now: u64) -> (action: SessionAction)
        requires
            old(self).phase == Phase::Active,
        ensures
            (*final(self), action@) == next_active(*old(self), event@, now),
    {
        match event {
            SessionEvent::Established => SessionAction::Nothing,
            SessionEvent::Text(text) => match WebSocketMessage::from_json(text.as_str()) {
                Ok(message) => handle_websocket_message(message),
                Err(e) => SessionAction::Rejected(e),
            },
            SessionEvent::Binary(bytes) => SessionAction::Deliver(
                handle_binary_data(bytes.as_slice()),
            ),
            SessionEvent::Ping => SessionAction::SendPong,
            SessionEvent::Pong => {
                self.last_pong = now;
                SessionAction::Nothing
            },
            SessionEvent::Unknown => SessionAction::Nothing,
            SessionEvent::SendFailed => SessionAction::Nothing,
            SessionEvent::ChannelClosed => {
                self.phase = Phase::Closed;
                SessionAction::Close(CloseReason::PeerClosed)
            },
            SessionEvent::ChannelFailed => {
                self.phase = Phase::Closed;
                SessionAction::Close(CloseReason::TransportError)
            },
            SessionEvent::Tick => {
                if self.is_timed_out(now) {
                    self.phase = Phase::Closing;
                    SessionAction::Close(CloseReason::LivenessTimeout)
                } else {
                    SessionAction::SendPing
                }
            },
        }
    }

    /// The text frame that carries `message`, for the payload handler to
    /// send. Only an active session sends: in any other phase the message is
    /// refused. An active session gives the text that the printer gives for
    /// the message's document, and fails exactly where the printer does.
    pub fn send(&self, message: &WebSocketMessage) -> (r: Result<String, SendError>)
        ensures
            self.phase != Phase::Active ==> r == Err::<String, SendError>(SendError::NotActive),
            self.phase == Phase::Active ==> (match r {
                Ok(text) => printed_text(session_doc(message@)) == Some(text@),
                Err(e) => e == SendError::Encode && printed_text(session_doc(message@)) is None,
            }),
    {
        if self.phase != Phase::Active {
            return Err(SendError::NotActive);
        }
        let printed = message.to_json();
        frame_or_error(self.phase, printed)
    }
}

/// What never changes and what is final. No event changes the role of a
/// session; a closed session stays closed and answers with nothing; and
/// only an acknowledgment, or the channel being established, moves the
/// time from which the liveness window runs.
pub proof fn lemma_session_is_steady(s: Session, event: SessionEventView, now: u64)
    ensures
        next(s, event, now).0.role == s.role,
        s.phase == Phase::Closed ==> next(s, event, now) == (s, SessionActionView::Nothing),
        !(event is Pong || event is Established) ==> next(s, event, now).0.last_pong == s.last_pong,
        next(s, event, now).0.phase == Phase::Active ==> s.phase == Phase::Active || s.phase
            == Phase::Connecting,
{
}

/// An event together with the time at which it came.
pub type TimedEvent = (SessionEventView, u64);

/// The session after the first `n` events of a trace.
pub open spec fn session_after(start: Session, trace: Seq<TimedEvent>, n: nat) -> Session
    decreases n,
{
    if n == 0 {
        start
    } else {
        let before = session_after(start, trace, (n - 1) as nat);
        next(before, trace[n - 1].0, trace[n - 1].1).0
    }
}

/// The action with which the session answers event `i` of a trace.
pub open spec fn action_at(start: Session, trace: Seq<TimedEvent>, i: nat) -> SessionActionView {
    next(session_after(start, trace, i), trace[i as int].0, trace[i as int].1).1
}

/// Whether an action puts something on the channel.
pub open spec fn sends(action: SessionActionView) -> bool {
    action is SendPing || action is SendPong
}

/// While no acknowledgment comes, an active session keeps the time from
/// which its liveness window runs; and a session never waits for its
/// channel again.
proof fn lemma_window_stays(start: Session, trace: Seq<TimedEvent>, n: nat)
    requires
        start.phase == Phase::Active,
        forall|i: int| 0 <= i < trace.len() ==> !((#[trigger] trace[i]).0 is Pong),
        n <= trace.len(),
    ensures
        session_after(start, trace, n).phase != Phase::Connecting,
        session_after(start, trace, n).phase == Phase::Active ==> session_after(
            start,
            trace,
            n,
        ).last_pong == start.last_pong,
    decreases n,
{
    if n > 0 {
        lemma_window_stays(start, trace, (n - 1) as nat);
    }
}

/// A session that is closing or closed sends nothing and is closed after
/// the next event.
proof fn lemma_closed_stays(start: Session, trace: Seq<TimedEvent>, m: nat, n: nat)
    requires
        m <= n <= trace.len(),
        session_after(start, trace, m).phase == Phase::Closing || session_after(
            start,
            trace,
            m,
        ).phase == Phase::Closed,
    ensures
        session_after(start, trace, n).phase == Phase::Closing || session_after(
            start,
            trace,
            n,
        ).phase == Phase::Closed,
        n > m ==> session_after(start, trace, n).phase == Phase::Closed,
        n < trace.len() ==> action_at(start, trace, n) == SessionActionView::Nothing,
    decreases n - m,
{
    if n > m {
        lemma_closed_stays(start, trace, m, (n - 1) as nat);
    }
}

/// Liveness timeout. Take a session that has become active and any run of
/// events in which no heartbeat acknowledgment comes. If event `k` is a
/// heartbeat tick that comes more than the liveness window after the
/// session became active, then the session is no longer active after that
/// tick, the tick itself sends no probe, and every later event is answered
/// with nothing and leaves the session closed.
pub proof fn lemma_liveness_timeout(start: Session, trace: Seq<TimedEvent>, k: nat)
    requires
        start.phase == Phase::Active,
        forall|i: int| 0 <= i < trace.len() ==> !((#[trigger] trace[i]).0 is Pong),
        k < trace.len(),
        trace[k as int].0 is Tick,
        trace[k as int].1 - start.last_pong > LIVENESS_TIMEOUT_MS,
    ensures
        session_after(start, trace, k + 1).phase == Phase::Closing || session_after(
            start,
            trace,
            k + 1,
        ).phase == Phase::Closed,
        !sends(action_at(start, trace, k)),
        forall|j: nat|
            k < j < trace.len() ==> #[trigger] action_at(start, trace, j)
                == SessionActionView::Nothing && session_after(start, trace, j + 1).phase
                == Phase::Closed,
{
    lemma_window_stays(start, trace, k);
    assert forall|j: nat| k < j < trace.len() implies #[trigger] action_at(start, trace, j)
        == SessionActionView::Nothing && session_after(start, trace, j + 1).phase
        == Phase::Closed by {
        lemma_closed_stays(start, trace, k + 1, j);
        lemma_closed_stays(start, trace, k + 1, j + 1);
    }
}

} // verus!
