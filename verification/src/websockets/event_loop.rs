//! Who dials and who listens.
//!
//! With a peer address at hand a process dials it, a bounded number of times
//! with a pause between two attempts. When every attempt has failed, or when
//! there is no address, it listens instead and serves the connections that
//! come, one after the other. The [`Negotiator`] takes these decisions; the
//! caller dials, sleeps, binds and accepts, and reports how it went.

use crate::websockets::handlers::ConnectionRole;
use vstd::prelude::*;
use vstd::string::StringExecFns;

verus! {

/// How often a peer is dialled before the process listens instead.
pub const MAX_CONNECT_ATTEMPTS: u32 = 5;

/// The pause between two attempts, in seconds.
pub const RETRY_DELAY_SECS: u64 = 2;

/// Where the negotiation stands.
#[derive(Debug, Clone, Copy, PartialEq, Eq, Structural)]
pub enum Stage {
    /// An attempt to dial is under way; `remaining_retries` attempts are
    /// left, this one included.
    Dialing { remaining_retries: u32 },
    /// The listener is being bound.
    Binding,
    /// The listener waits for a connection.
    Listening,
    /// A channel is established and its session runs.
    InSession { role: ConnectionRole },
    /// The dialled channel has ended; the work is done.
    Finished,
    /// The listener could not be bound.
    Failed,
}

/// What the caller reports.
#[derive(Debug, Clone, Copy, PartialEq, Eq, Structural)]
pub enum NegotiationEvent {
    /// The attempt to dial failed.
    ConnectFailed,
    /// The attempt to dial succeeded.
    Connected,
    /// The listener is bound.
    Bound,
    /// The listener could not be bound.
    BindFailed,
    /// An inbound connection is established.
    Accepted,
    /// An inbound connection failed before it was established.
    AcceptFailed,
    /// The session on the established channel has ended.
    SessionEnded,
}

/// What the caller is to do next.
#[derive(Debug, Clone, Copy, PartialEq, Eq, Structural)]
pub enum NegotiationAction {
    /// Dial the peer.
    Connect,
    /// Wait `delay_secs` seconds and dial the peer again; `remaining_retries`
    /// attempts are left, that one included.
    RetryAfter { delay_secs: u64, remaining_retries: u32 },
    /// Bind the listener on `port`.
    Listen { port: u16 },
    /// Wait for the next inbound connection.
    Accept,
    /// Run the session on the channel that was just established.
    Serve { role: ConnectionRole },
    /// Leave with success.
    Finish,
    /// Leave with the bind error.
    Fail,
    /// Nothing: the event does not belong to this stage.
    Nothing,
}

/// The negotiation of one process run.
#[derive(Debug, Clone, Copy, PartialEq, Eq, Structural)]
pub struct Negotiator {
    pub stage: Stage,
    /// The port on which this process listens if it comes to that.
    pub port: u16,
}

/// Whether an action dials the peer.
pub open spec fn dials(action: NegotiationAction) -> bool {
    action is Connect || action is RetryAfter
}

/// How a negotiation begins: with an address by dialling it, without one by
/// binding the listener.
pub open spec fn begin(has_target: bool, port: u16) -> (Negotiator, NegotiationAction) {
    if has_target {
        (
            Negotiator { stage: Stage::Dialing { remaining_retries: MAX_CONNECT_ATTEMPTS }, port },
            NegotiationAction::Connect,
        )
    } else {
        (Negotiator { stage: Stage::Binding, port }, NegotiationAction::Listen { port })
    }
}

/// The transition function of the negotiation.
///
/// - A failed attempt is followed by another after the pause, as long as
///   attempts are left; after the last one the listener is bound.
/// - A successful attempt makes this process the client. When its session
///   ends the work is done: a client never falls back to listening.
/// - A listener that cannot be bound is fatal.
/// - An accepted connection makes this process the server of that session;
///   a failed one is passed over. After a session the listener waits for the
///   next connection.
/// - An event that does not belong to the stage changes nothing.
pub open spec fn negotiate(n: Negotiator, event: NegotiationEvent) -> (
    Negotiator,
    NegotiationAction,
) {
    match (n.stage, event) {
        (Stage::Dialing { remaining_retries }, NegotiationEvent::ConnectFailed) => {
            if remaining_retries > 1 {
                (
                    Negotiator {
                        stage: Stage::Dialing {
                            remaining_retries: (remaining_retries - 1) as u32,
                        },
                        ..n
                    },
                    NegotiationAction::RetryAfter {
                        delay_secs: RETRY_DELAY_SECS,
                        remaining_retries: (remaining_retries - 1) as u32,
                    },
                )
            } else {
                (
                    Negotiator { stage: Stage::Binding, ..n },
                    NegotiationAction::Listen { port: n.port },
                )
            }
        },
        (Stage::Dialing { .. }, NegotiationEvent::Connected) => (
            Negotiator { stage: Stage::InSession { role: ConnectionRole::Client }, ..n },
            NegotiationAction::Serve { role: ConnectionRole::Client },
        ),
        (Stage::Binding, NegotiationEvent::Bound) => (
            Negotiator { stage: Stage::Listening, ..n },
            NegotiationAction::Accept,
        ),
        (Stage::Binding, NegotiationEvent::BindFailed) => (
            Negotiator { stage: Stage::Failed, ..n },
            NegotiationAction::Fail,
        ),
        (Stage::Listening, NegotiationEvent::Accepted) => (
            Negotiator { stage: Stage::InSession { role: ConnectionRole::Server }, ..n },
            NegotiationAction::Serve { role: ConnectionRole::Server },
        ),
        (Stage::Listening, NegotiationEvent::AcceptFailed) => (n, NegotiationAction::Accept),
        (
            Stage::InSession { role: ConnectionRole::Client },
            NegotiationEvent::SessionEnded,
        ) => (Negotiator { stage: Stage::Finished, ..n }, NegotiationAction::Finish),
        (
            Stage::InSession { role: ConnectionRole::Server },
            NegotiationEvent::SessionEnded,
        ) => (Negotiator { stage: Stage::Listening, ..n }, NegotiationAction::Accept),
        _ => (n, NegotiationAction::Nothing),
    }
}

/// The address to dial for a peer given as `host:port`.
pub fn dial_url(target: &str) -> (r: String)
    ensures
        r@ == "ws://"@ + target@,
{
    let scheme = "ws://".to_owned();
    scheme.concat(target)
}

impl Negotiator {
    /// Begins a negotiation, as [`begin`] says, with the peer address if
    /// there is one and the port on which to listen otherwise.
    pub fn start(
        websocket_client_url: &Option<String>,
        ws_port: u16,
    ) -> (r: (Negotiator, NegotiationAction))
        ensures
            r == begin(websocket_client_url is Some, ws_port),
    {
        match websocket_client_url {
            Some(_) => (
                Negotiator {
                    stage: Stage::Dialing { remaining_retries: MAX_CONNECT_ATTEMPTS },
                    port: ws_port,
                },
                NegotiationAction::Connect,
            ),
            None => (
                Negotiator { stage: Stage::Binding, port: ws_port },
                NegotiationAction::Listen { port: ws_port },
            ),
        }
    }

    /// Takes what the caller reports: moves the negotiation on and says what
    /// to do next, both as [`negotiate`] gives them.
    pub fn step(&mut self, event: NegotiationEvent) -> (action: NegotiationAction)
        ensures
            (*final(self), action) == negotiate(*old(self), event),
    {
        match (self.stage, event) {
            (Stage::Dialing { remaining_retries }, NegotiationEvent::ConnectFailed) => {
                if remaining_retries > 1 {
                    let left: u32 = remaining_retries - 1;
                    self.stage = Stage::Dialing { remaining_retries: left };
                    NegotiationAction::RetryAfter {
                        delay_secs: RETRY_DELAY_SECS,
                        remaining_retries: left,
                    }
                } else {
                    self.stage = Stage::Binding;
                    NegotiationAction::Listen { port: self.port }
                }
            },
            (Stage::Dialing { .. }, NegotiationEvent::Connected) => {
                self.stage = Stage::InSession { role: ConnectionRole::Client };
                NegotiationAction::Serve { role: ConnectionRole::Client }
            },
            (Stage::Binding, NegotiationEvent::Bound) => {
                self.stage = Stage::Listening;
                NegotiationAction::Accept
            },
            (Stage::Binding, NegotiationEvent::BindFailed) => {
                self.stage = Stage::Failed;
                NegotiationAction::Fail
            },
            (Stage::Listening, NegotiationEvent::Accepted) => {
                self.stage = Stage::InSession { role: ConnectionRole::Server };
                NegotiationAction::Serve { role: ConnectionRole::Server }
            },
            (Stage::Listening, NegotiationEvent::AcceptFailed) => NegotiationAction::Accept,
            (
                Stage::InSession { role: ConnectionRole::Client },
                NegotiationEvent::SessionEnded,
            ) => {
                self.stage = Stage::Finished;
                NegotiationAction::Finish
            },
            (
                Stage::InSession { role: ConnectionRole::Server },
                NegotiationEvent::SessionEnded,
            ) => {
                self.stage = Stage::Listening;
                NegotiationAction::Accept
            },
            _ => NegotiationAction::Nothing,
        }
    }

    /// The role of this process, once a channel is established.
    pub fn role(&self) -> (r: Option<ConnectionRole>)
        ensures
            r == (match self.stage {
                Stage::InSession { role } => Some(role),
                _ => None,
            }),
    {
        match self.stage {
            Stage::InSession { role } => Some(role),
            _ => None,
        }
    }
}

/// The role is decided once. While the session on an established channel
/// runs, nothing that is reported changes the role or anything else, until
/// the session has ended; and the port on which to listen never changes.
pub proof fn lemma_role_is_fixed(n: Negotiator, role: ConnectionRole, event: NegotiationEvent)
    requires
        n.stage == (Stage::InSession { role }),
    ensures
        event != NegotiationEvent::SessionEnded ==> negotiate(n, event) == (
            n,
            NegotiationAction::Nothing,
        ),
        !(negotiate(n, event).0.stage is Dialing),
        negotiate(n, event).0.port == n.port,
{
}

/// The negotiation after the first `n` events of a run.
pub open spec fn negotiator_after(start: Negotiator, events: Seq<NegotiationEvent>, n: nat) -> Negotiator
    decreases n,
{
    if n == 0 {
        start
    } else {
        negotiate(negotiator_after(start, events, (n - 1) as nat), events[n - 1]).0
    }
}

/// The action with which the negotiation answers event `i` of a run.
pub open spec fn decision_at(start: Negotiator, events: Seq<NegotiationEvent>, i: nat) -> NegotiationAction {
    negotiate(negotiator_after(start, events, i), events[i as int]).1
}

/// How many of the first `n` events of a run are answered by dialling again.
pub open spec fn redials(start: Negotiator, events: Seq<NegotiationEvent>, n: nat) -> nat
    decreases n,
{
    if n == 0 {
        0
    } else {
        let earlier = redials(start, events, (n - 1) as nat);
        if dials(decision_at(start, events, (n - 1) as nat)) {
            earlier + 1
        } else {
            earlier
        }
    }
}

/// While every attempt is refused, the `n`th refusal leaves
/// `MAX_CONNECT_ATTEMPTS - n` attempts and has been followed by `n`
/// redials, until the attempts are used up; from then on the listener is
/// being bound and nothing dials any more.
proof fn lemma_refusals(port: u16, events: Seq<NegotiationEvent>, n: nat)
    requires
        forall|i: int| 0 <= i < events.len() ==> events[i] == NegotiationEvent::ConnectFailed,
        n <= events.len(),
    ensures
        n < MAX_CONNECT_ATTEMPTS ==> negotiator_after(begin(true, port).0, events, n) == (Negotiator {
            stage: Stage::Dialing { remaining_retries: (MAX_CONNECT_ATTEMPTS - n) as u32 },
            port,
        }) && redials(begin(true, port).0, events, n) == n,
        n >= MAX_CONNECT_ATTEMPTS ==> negotiator_after(begin(true, port).0, events, n) == (Negotiator {
            stage: Stage::Binding,
            port,
        }) && redials(begin(true, port).0, events, n) == MAX_CONNECT_ATTEMPTS - 1,
    decreases n,
{
    if n > 0 {
        lemma_refusals(port, events, (n - 1) as nat);
    }
}

/// Retry bound. A peer that refuses every connection is dialled exactly
/// `MAX_CONNECT_ATTEMPTS` times: once at the start and once after each of
/// the refusals but the last, which is answered by binding the listener.
/// However many refusals are reported after that, none is answered by
/// dialling.
pub proof fn lemma_retry_bound(port: u16, events: Seq<NegotiationEvent>)
    requires
        forall|i: int| 0 <= i < events.len() ==> events[i] == NegotiationEvent::ConnectFailed,
        events.len() >= MAX_CONNECT_ATTEMPTS,
    ensures
        begin(true, port).1 == NegotiationAction::Connect,
        1 + redials(begin(true, port).0, events, events.len()) == MAX_CONNECT_ATTEMPTS,
        decision_at(begin(true, port).0, events, (MAX_CONNECT_ATTEMPTS - 1) as nat)
            == (NegotiationAction::Listen { port }),
        forall|n: nat|
            MAX_CONNECT_ATTEMPTS <= n <= events.len() ==> (#[trigger] negotiator_after(
                begin(true, port).0,
                events,
                n,
            )).stage == Stage::Binding,
{
    lemma_refusals(port, events, events.len());
    lemma_refusals(port, events, (MAX_CONNECT_ATTEMPTS - 1) as nat);
    assert forall|n: nat| MAX_CONNECT_ATTEMPTS <= n <= events.len() implies (
    #[trigger] negotiator_after(begin(true, port).0, events, n)).stage == Stage::Binding by {
        lemma_refusals(port, events, n);
    }
}

/// The fallback happens once. A negotiation that has left the dialling
/// stage, for whatever reason, never enters it again, and nothing that is
/// reported to it later is answered by dialling.
pub proof fn lemma_dialing_is_left_for_good(start: Negotiator, events: Seq<NegotiationEvent>, m: nat, n: nat)
    requires
        m <= n <= events.len(),
        !(negotiator_after(start, events, m).stage is Dialing),
    ensures
        !(negotiator_after(start, events, n).stage is Dialing),
        n < events.len() ==> !dials(decision_at(start, events, n)),
    decreases n - m,
{
    if n > m {
        lemma_dialing_is_left_for_good(start, events, m, (n - 1) as nat);
    }
}

/// No retry after success. Whatever is reported to a negotiation, once an
/// attempt to dial has succeeded (event `k` is `Connected` and comes while
/// dialling) this process is the client and no later event is answered by
/// dialling.
pub proof fn lemma_no_retry_after_connect(start: Negotiator, events: Seq<NegotiationEvent>, k: nat)
    requires
        k < events.len(),
        negotiator_after(start, events, k).stage is Dialing,
        events[k as int] == NegotiationEvent::Connected,
    ensures
        decision_at(start, events, k) == (NegotiationAction::Serve { role: ConnectionRole::Client }),
        forall|j: nat| k < j < events.len() ==> !dials(#[trigger] decision_at(start, events, j)),
{
    assert forall|j: nat| k < j < events.len() implies !dials(
        #[trigger] decision_at(start, events, j),
    ) by {
        lemma_dialing_is_left_for_good(start, events, k + 1, j);
    }
}

} // verus!
