//! Discovery by UDP broadcast.
//!
//! A process makes itself known by broadcast, asks the others to do the
//! same, answers such requests, and keeps what it hears of the others in its
//! registry. [`UdpBroadcastDiscovery`] holds what the process knows and
//! decides what to send; the caller owns the socket and the clock, hands in
//! each datagram and each receive timeout, and sends what comes back.

use crate::codec::{DecodeError, EncodeError};
use crate::json::printed_bytes;
use crate::network_discovery::address::{Endpoint, Ipv4Address};
use crate::network_discovery::messages::{
    discovery_doc, discovery_of_bytes, BroadcastMessage, BroadcastMessageView,
};
use crate::network_discovery::peer::{PeerInfo, PeerInfoView};
use crate::network_discovery::registry::{
    distinct_ids, lemma_present, peer_views, peers_by_id, PeerRegistry,
};
use vstd::prelude::*;

verus! {

/// After how many seconds without an announcement the process announces
/// itself again.
pub const ANNOUNCE_INTERVAL_SECS: u64 = 5;

/// How long the caller waits for a datagram before it reports a timeout, in
/// seconds.
pub const RECEIVE_TIMEOUT_SECS: u64 = 1;

/// The largest payload that is read from one datagram, in bytes. A datagram
/// is never put together from several.
pub const RECEIVE_BUFFER_BYTES: usize = 1024;

/// The address that reaches every host of the local network.
pub open spec fn broadcast_address() -> Ipv4Address {
    Ipv4Address { a: 255, b: 255, c: 255, d: 255 }
}

/// A datagram ready to be sent.
#[derive(Debug, Clone, PartialEq, Eq)]
pub struct Datagram {
    pub to: Endpoint,
    pub payload: Vec<u8>,
}

/// What the caller is to do next.
#[derive(Debug, Clone, PartialEq, Eq)]
pub enum DiscoveryAction {
    /// Send the message to the endpoint.
    Send { to: Endpoint, message: BroadcastMessage },
    /// The payload was no datagram of discovery: report it and go on.
    Dropped(DecodeError),
    /// Nothing.
    Nothing,
}

/// An action as a mathematical value.
pub enum DiscoveryActionView {
    Send { to: Endpoint, message: BroadcastMessageView },
    Dropped(DecodeError),
    Nothing,
}

impl View for DiscoveryAction {
    type V = DiscoveryActionView;

    open spec fn view(&self) -> DiscoveryActionView {
        match *self {
            DiscoveryAction::Send { to, message } => DiscoveryActionView::Send {
                to,
                message: message@,
            },
            DiscoveryAction::Dropped(e) => DiscoveryActionView::Dropped(e),
            DiscoveryAction::Nothing => DiscoveryActionView::Nothing,
        }
    }
}

/// What a process knows, as a mathematical value.
pub struct DiscoveryView {
    /// The port on which discovery runs.
    pub port: u16,
    /// The process itself.
    pub local: PeerInfoView,
    /// The other peers, by identity.
    pub peers: Map<Seq<char>, PeerInfoView>,
    /// When the process last announced itself.
    pub last_announcement: u64,
}

/// The process never lists itself among its peers.
pub open spec fn excludes_self(s: DiscoveryView) -> bool {
    !s.peers.contains_key(s.local.id)
}

/// The request that a process broadcasts when it starts.
pub open spec fn request_of(s: DiscoveryView) -> DiscoveryActionView {
    DiscoveryActionView::Send {
        to: Endpoint { ip: broadcast_address(), port: s.port },
        message: BroadcastMessageView::DiscoveryRequest { from: s.local },
    }
}

/// Announcing at time `now`: the process broadcasts itself as seen at `now`
/// and notes the time.
pub open spec fn announce(s: DiscoveryView, now: u64) -> (DiscoveryView, DiscoveryActionView) {
    (
        DiscoveryView { last_announcement: now, ..s },
        DiscoveryActionView::Send {
            to: Endpoint { ip: broadcast_address(), port: s.port },
            message: BroadcastMessageView::Announce {
                peer: PeerInfoView { last_seen: now, ..s.local },
            },
        },
    )
}

/// Hearing of a peer: the peer is entered in the registry in place of what
/// was known of it, unless it is the process itself.
pub open spec fn hear(s: DiscoveryView, peer: PeerInfoView) -> DiscoveryView {
    if peer.id == s.local.id {
        s
    } else {
        DiscoveryView { peers: s.peers.insert(peer.id, peer), ..s }
    }
}

/// Taking a datagram that came from `from`: a request is answered to its
/// sender with the process itself; an answer or an announcement is heard.
pub open spec fn on_message(s: DiscoveryView, message: BroadcastMessageView, from: Endpoint) -> (
    DiscoveryView,
    DiscoveryActionView,
) {
    match message {
        BroadcastMessageView::DiscoveryRequest { from: _ } => (
            s,
            DiscoveryActionView::Send {
                to: from,
                message: BroadcastMessageView::DiscoveryResponse { peer: s.local },
            },
        ),
        BroadcastMessageView::DiscoveryResponse { peer } => (
            hear(s, peer),
            DiscoveryActionView::Nothing,
        ),
        BroadcastMessageView::Announce { peer } => (hear(s, peer), DiscoveryActionView::Nothing),
    }
}

/// Taking a payload that came from `from`: a payload that is no datagram of
/// discovery is dropped and changes nothing.
pub open spec fn on_datagram(s: DiscoveryView, payload: Seq<u8>, from: Endpoint) -> (
    DiscoveryView,
    DiscoveryActionView,
) {
    match discovery_of_bytes(payload) {
        Ok(message) => on_message(s, message, from),
        Err(e) => (s, DiscoveryActionView::Dropped(e)),
    }
}

/// The seconds since the last announcement; none if the clock went back.
pub open spec fn since_announcement(s: DiscoveryView, now: u64) -> int {
    if now >= s.last_announcement {
        now - s.last_announcement
    } else {
        0
    }
}

/// Taking a receive timeout at time `now`: the process announces itself
/// again once the interval since its last announcement is over.
pub open spec fn on_timeout(s: DiscoveryView, now: u64) -> (DiscoveryView, DiscoveryActionView) {
    if since_announcement(s, now) >= ANNOUNCE_INTERVAL_SECS {
        announce(s, now)
    } else {
        (s, DiscoveryActionView::Nothing)
    }
}

/// `Uuid::new_v4` and its `to_string`: a fresh random identity in the
/// hyphenated form, which has 36 characters.
#[verifier::external_body]
fn fresh_peer_id() -> (r: String)
    ensures
        r@.len() == 36,
{
    uuid::Uuid::new_v4().to_string()
}

/// What `send_to_peer` returns for what the printer gave.
pub fn datagram_or_error(
    to: Endpoint,
    printed: Result<Vec<u8>, EncodeError>,
) -> (r: Result<Datagram, EncodeError>)
    ensures
        r == (match printed {
            Ok(payload) => Ok::<Datagram, EncodeError>(Datagram { to, payload }),
            Err(e) => Err(e),
        }),
{
    match printed {
        Ok(payload) => Ok(Datagram { to, payload }),
        Err(e) => Err(e),
    }
}

/// What one process knows: itself, the port, its peers, and when it last
/// announced itself.
#[derive(Debug)]
pub struct UdpBroadcastDiscovery {
    broadcast_port: u16,
    local_info: PeerInfo,
    known_peers: PeerRegistry,
    last_announcement: u64,
}

impl View for UdpBroadcastDiscovery {
    type V = DiscoveryView;

    closed spec fn view(&self) -> DiscoveryView {
        DiscoveryView {
            port: self.broadcast_port,
            local: self.local_info@,
            peers: self.known_peers@,
            last_announcement: self.last_announcement,
        }
    }
}

impl UdpBroadcastDiscovery {
    /// The process never lists itself among its peers.
    #[verifier::type_invariant]
    spec fn never_lists_itself(self) -> bool {
        excludes_self(self@)
    }

    /// A process with a fresh identity and no peers, which reaches the
    /// network at `local_ip` and starts discovery on `port` at time `now`.
    pub fn new(
        port: u16,
        hostname: String,
        local_ip: Ipv4Address,
        now: u64,
    ) -> (r: UdpBroadcastDiscovery)
        ensures
            r@.port == port,
            r@.local.id.len() == 36,
            r@.local == (PeerInfoView {
                id: r@.local.id,
                hostname: hostname@,
                ip: local_ip,
                port,
                last_seen: now,
            }),
            r@.peers == Map::<Seq<char>, PeerInfoView>::empty(),
            r@.last_announcement == now,
    {
        UdpBroadcastDiscovery::with_identity(fresh_peer_id(), port, hostname, local_ip, now)
    }

    /// A process with the given identity and no peers.
    pub fn with_identity(
        id: String,
        port: u16,
        hostname: String,
        local_ip: Ipv4Address,
        now: u64,
    ) -> (r: UdpBroadcastDiscovery)
        ensures
            r@ == (DiscoveryView {
                port,
                local: PeerInfoView { id: id@, hostname: hostname@, ip: local_ip, port, last_seen: now },
                peers: Map::empty(),
                last_announcement: now,
            }),
    {
        UdpBroadcastDiscovery {
            broadcast_port: port,
            local_info: PeerInfo { id, hostname, ip: local_ip, port, last_seen: now },
            known_peers: PeerRegistry::new(),
            last_announcement: now,
        }
    }

    /// The process itself, as it was made.
    pub fn local_info(&self) -> (r: &PeerInfo)
        ensures
            r@ == self@.local,
    {
        &self.local_info
    }

    /// The endpoint that reaches every host on the discovery port.
    pub fn broadcast_endpoint(&self) -> (r: Endpoint)
        ensures
            r == (Endpoint { ip: broadcast_address(), port: self@.port }),
    {
        Endpoint { ip: Ipv4Address { a: 255, b: 255, c: 255, d: 255 }, port: self.broadcast_port }
    }

    /// Starts discovery at time `now`: first the request to the others, then
    /// the announcement of the process itself, both by broadcast.
    pub fn start_listening(&mut self, now: u64) -> (r: (DiscoveryAction, DiscoveryAction))
        ensures
            r.0@ == request_of(old(self)@),
            (final(self)@, r.1@) == announce(old(self)@, now),
    {
        let request = self.send_discovery_request();
        let announcement = self.announce_presence(now);
        (request, announcement)
    }

    /// The request to the others to make themselves known.
    pub fn send_discovery_request(&self) -> (r: DiscoveryAction)
        ensures
            r@ == request_of(self@),
    {
        DiscoveryAction::Send {
            to: self.broadcast_endpoint(),
            message: BroadcastMessage::DiscoveryRequest { from: self.local_info.clone() },
        }
    }

    /// Announces the process at time `now`, as [`announce`] says.
    pub fn announce_presence(&mut self, now: u64) -> (r: DiscoveryAction)
        ensures
            (final(self)@, r@) == announce(old(self)@, now),
    {
        proof {
            use_type_invariant(&*self);
        }
        self.last_announcement = now;
        DiscoveryAction::Send {
            to: self.broadcast_endpoint(),
            message: BroadcastMessage::Announce { peer: self.local_info.seen_at(now) },
        }
    }

    /// Takes a datagram that came from `from_addr`, as [`on_message`] says.
    pub fn handle_broadcast_message(
        &mut self,
        message: BroadcastMessage,
        from_addr: Endpoint,
    ) -> (r: DiscoveryAction)
        ensures
            (final(self)@, r@) == on_message(old(self)@, message@, from_addr),
    {
        match message {
            BroadcastMessage::DiscoveryRequest { from: _ } => DiscoveryAction::Send {
                to: from_addr,
                message: BroadcastMessage::DiscoveryResponse { peer: self.local_info.clone() },
            },
            BroadcastMessage::DiscoveryResponse { peer } => {
                self.hear(peer);
                DiscoveryAction::Nothing
            },
            BroadcastMessage::Announce { peer } => {
                self.hear(peer);
                DiscoveryAction::Nothing
            },
        }
    }

    fn hear(&mut self, peer: PeerInfo)
        ensures
            final(self)@ == hear(old(self)@, peer@),
    {
        proof {
            use_type_invariant(&*self);
        }
        if peer.id != self.local_info.id {
            let mut known = PeerRegistry::new();
            std::mem::swap(&mut known, &mut self.known_peers);
            known.insert_or_update(peer);
            self.known_peers = known;
        }
    }

    /// Takes a payload that came from `from_addr`, as [`on_datagram`] says.
    /// A payload that is no datagram of discovery changes nothing.
    pub fn handle_datagram(&mut self, payload: &[u8], from_addr: Endpoint) -> (r: DiscoveryAction)
        ensures
            (final(self)@, r@) == on_datagram(old(self)@, payload@, from_addr),
    {
        match BroadcastMessage::from_bytes(payload) {
            Ok(message) => self.handle_broadcast_message(message, from_addr),
            Err(e) => DiscoveryAction::Dropped(e),
        }
    }

    /// Takes a receive timeout at time `now`, as [`on_timeout`] says.
    pub fn handle_timeout(&mut self, now: u64) -> (r: DiscoveryAction)
        ensures
            (final(self)@, r@) == on_timeout(old(self)@, now),
    {
        if now >= self.last_announcement && now - self.last_announcement >= ANNOUNCE_INTERVAL_SECS {
            self.announce_presence(now)
        } else {
            DiscoveryAction::Nothing
        }
    }

    /// The known peers, each once, in no particular order. The process
    /// itself is never among them.
    pub fn get_known_peers(&self) -> (r: Vec<PeerInfo>)
        ensures
            distinct_ids(peer_views(r@)),
            peers_by_id(peer_views(r@)) == self@.peers,
            r@.len() == self@.peers.len(),
            forall|i: int| 0 <= i < r@.len() ==> (#[trigger] r@[i]).id@ != self@.local.id,
    {
        let peers = self.known_peers.snapshot();
        proof {
            use_type_invariant(self);
            assert forall|i: int| 0 <= i < peers@.len() implies (#[trigger] peers@[i]).id@
                != self@.local.id by {
                lemma_present(peer_views(peers@), i);
            }
        }
        peers
    }

    /// The datagram that carries `message` to `peer`: addressed to the
    /// peer's address and port, with the message's bytes as payload. It
    /// fails exactly where the printer does not print the message's
    /// document.
    pub fn send_to_peer(
        &self,
        peer: &PeerInfo,
        message: &BroadcastMessage,
    ) -> (r: Result<Datagram, EncodeError>)
        ensures
            match r {
                Ok(datagram) => datagram.to == (Endpoint { ip: peer.ip, port: peer.port })
                    && printed_bytes(discovery_doc(message@)) == Some(datagram.payload@),
                Err(_) => printed_bytes(discovery_doc(message@)) is None,
            },
    {
        let to = Endpoint { ip: peer.ip, port: peer.port };
        datagram_or_error(to, message.to_bytes())
    }
}

/// Self-exclusion. A process that does not list itself keeps it so,
/// whatever payload or timeout comes; and an announcement or an answer that
/// carries the identity of the process itself changes nothing at all.
pub proof fn lemma_self_exclusion(
    s: DiscoveryView,
    payload: Seq<u8>,
    message: BroadcastMessageView,
    from: Endpoint,
    now: u64,
)
    requires
        excludes_self(s),
    ensures
        excludes_self(on_message(s, message, from).0),
        excludes_self(on_datagram(s, payload, from).0),
        excludes_self(on_timeout(s, now).0),
        excludes_self(announce(s, now).0),
        (message matches BroadcastMessageView::Announce { peer } && peer.id == s.local.id)
            ==> on_message(s, message, from) == (s, DiscoveryActionView::Nothing),
        (message matches BroadcastMessageView::DiscoveryResponse { peer } && peer.id
            == s.local.id) ==> on_message(s, message, from) == (s, DiscoveryActionView::Nothing),
{
}

/// A peer that announces itself, or answers, is known afterwards as it
/// described itself, whatever was known of it before; and the request of a
/// peer is answered to the address that it came from, with the process as
/// it was made.
pub proof fn lemma_heard_peer_is_known(s: DiscoveryView, peer: PeerInfoView, from: Endpoint)
    requires
        peer.id != s.local.id,
    ensures
        on_message(s, BroadcastMessageView::Announce { peer }, from).0.peers.contains_key(peer.id),
        on_message(s, BroadcastMessageView::Announce { peer }, from).0.peers[peer.id] == peer,
        on_message(s, BroadcastMessageView::DiscoveryResponse { peer }, from).0.peers[peer.id]
            == peer,
        on_message(s, BroadcastMessageView::DiscoveryRequest { from: peer }, from) == (
            s,
            DiscoveryActionView::Send {
                to: from,
                message: BroadcastMessageView::DiscoveryResponse { peer: s.local },
            },
        ),
{
}

/// What a process says of itself and the port of discovery never change,
/// and no peer that is known is ever forgotten: whatever payload or timeout
/// comes, the registry only gains entries or has them replaced.
pub proof fn lemma_nothing_is_lost(s: DiscoveryView, payload: Seq<u8>, from: Endpoint, now: u64)
    ensures
        on_datagram(s, payload, from).0.local == s.local,
        on_datagram(s, payload, from).0.port == s.port,
        on_timeout(s, now).0.local == s.local,
        on_timeout(s, now).0.port == s.port,
        on_timeout(s, now).0.peers == s.peers,
        forall|id: Seq<char>|
            s.peers.contains_key(id) ==> #[trigger] on_datagram(s, payload, from).0.peers.contains_key(
                id,
            ),
{
}

/// Malformed payloads. A payload that is no datagram of discovery leaves
/// everything as it was, the registry included, and the payload that comes
/// next is taken exactly as if the malformed one had never come.
pub proof fn lemma_malformed_payload(
    s: DiscoveryView,
    malformed: Seq<u8>,
    from: Endpoint,
    next: Seq<u8>,
    next_from: Endpoint,
)
    requires
        discovery_of_bytes(malformed) is Err,
    ensures
        on_datagram(s, malformed, from).0 == s,
        on_datagram(s, malformed, from).1 is Dropped,
        on_datagram(on_datagram(s, malformed, from).0, next, next_from) == on_datagram(
            s,
            next,
            next_from,
        ),
{
}

} // verus!
