//! The datagrams of discovery and their JSON form.
//!
//! A datagram is an object with one member, whose name is the variant; its
//! value is an object with the variant's one field, a whole peer. A peer is
//! an object of its five fields, the address as a string in dotted decimal
//! notation.

use crate::codec::{
    number_doc, number_field, object_field, printed_bytes_or_error, read_number, read_object,
    read_string, string_field, DecodeError, EncodeError, Members,
};
use crate::json::{
    json_doc, json_members, member, number_value, object_value, parse_bytes, parsed_bytes, print_bytes,
    printed_bytes, string_value, JsonDoc,
};
use crate::network_discovery::address::{
    address_of_text, ipv4_text, lemma_address_text_round_trip, Ipv4Address,
};
use crate::network_discovery::peer::{PeerInfo, PeerInfoView};
use serde_json::Value;
use vstd::prelude::*;

verus! {

/// A datagram of discovery.
#[derive(Debug, Clone, PartialEq, Eq)]
#[allow(inconsistent_fields)]
pub enum BroadcastMessage {
    /// A peer makes itself known.
    Announce { peer: PeerInfo },
    /// A peer asks the others to make themselves known.
    DiscoveryRequest { from: PeerInfo },
    /// The answer to such a request.
    DiscoveryResponse { peer: PeerInfo },
}

/// A datagram as a mathematical value.
#[allow(inconsistent_fields)]
pub enum BroadcastMessageView {
    Announce { peer: PeerInfoView },
    DiscoveryRequest { from: PeerInfoView },
    DiscoveryResponse { peer: PeerInfoView },
}

impl View for BroadcastMessage {
    type V = BroadcastMessageView;

    open spec fn view(&self) -> BroadcastMessageView {
        match *self {
            BroadcastMessage::Announce { peer } => BroadcastMessageView::Announce { peer: peer@ },
            BroadcastMessage::DiscoveryRequest { from } => BroadcastMessageView::DiscoveryRequest {
                from: from@,
            },
            BroadcastMessage::DiscoveryResponse { peer } => BroadcastMessageView::DiscoveryResponse {
                peer: peer@,
            },
        }
    }
}

/// The members of the object that stands for a peer.
pub open spec fn peer_members(peer: PeerInfoView) -> Members {
    map![
        "id"@ => JsonDoc::String(peer.id),
        "hostname"@ => JsonDoc::String(peer.hostname),
        "ip"@ => JsonDoc::String(ipv4_text(peer.ip)),
        "port"@ => number_doc(peer.port as u64),
        "last_seen"@ => number_doc(peer.last_seen),
    ]
}

/// The peer that the members of an object stand for: all five fields must be
/// there, the address in dotted decimal notation and the port below 65536.
/// Members of other names are passed over.
pub open spec fn peer_of_members(members: Members) -> Option<PeerInfoView> {
    match (
        string_field(members, "id"@),
        string_field(members, "hostname"@),
        string_field(members, "ip"@),
        number_field(members, "port"@),
        number_field(members, "last_seen"@),
    ) {
        (Some(id), Some(hostname), Some(ip_text), Some(port), Some(last_seen)) => {
            match address_of_text(ip_text) {
                Some(ip) => if port <= u16::MAX {
                    Some(PeerInfoView { id, hostname, ip, port: port as u16, last_seen })
                } else {
                    None
                },
                None => None,
            }
        },
        _ => None,
    }
}

/// The object with the one member `name`, whose value is the object with
/// the one member `field`, whose value is the peer.
pub open spec fn variant_doc(name: Seq<char>, field: Seq<char>, peer: PeerInfoView) -> JsonDoc {
    JsonDoc::Object(
        map![name => JsonDoc::Object(map![field => JsonDoc::Object(peer_members(peer))])],
    )
}

/// The document that stands for a datagram.
pub open spec fn discovery_doc(message: BroadcastMessageView) -> JsonDoc {
    match message {
        BroadcastMessageView::Announce { peer } => variant_doc("Announce"@, "peer"@, peer),
        BroadcastMessageView::DiscoveryRequest { from } => variant_doc(
            "DiscoveryRequest"@,
            "from"@,
            from,
        ),
        BroadcastMessageView::DiscoveryResponse { peer } => variant_doc(
            "DiscoveryResponse"@,
            "peer"@,
            peer,
        ),
    }
}

/// The peer in the field `field` of the variant `name`.
pub open spec fn variant_peer(members: Members, name: Seq<char>, field: Seq<char>) -> Result<
    PeerInfoView,
    DecodeError,
> {
    match object_field(members, name) {
        Some(fields) => match object_field(fields, field) {
            Some(peer) => match peer_of_members(peer) {
                Some(peer) => Ok(peer),
                None => Err(DecodeError::InvalidField),
            },
            None => Err(DecodeError::InvalidField),
        },
        None => Err(DecodeError::InvalidField),
    }
}

/// The datagram that a document stands for: an object with exactly one
/// member, which names a variant and holds its field.
pub open spec fn discovery_of_doc(doc: JsonDoc) -> Result<BroadcastMessageView, DecodeError> {
    match doc {
        JsonDoc::Object(members) => if members.len() != 1 {
            Err(DecodeError::MissingDiscriminant)
        } else if members.contains_key("Announce"@) {
            match variant_peer(members, "Announce"@, "peer"@) {
                Ok(peer) => Ok(BroadcastMessageView::Announce { peer }),
                Err(e) => Err(e),
            }
        } else if members.contains_key("DiscoveryRequest"@) {
            match variant_peer(members, "DiscoveryRequest"@, "from"@) {
                Ok(from) => Ok(BroadcastMessageView::DiscoveryRequest { from }),
                Err(e) => Err(e),
            }
        } else if members.contains_key("DiscoveryResponse"@) {
            match variant_peer(members, "DiscoveryResponse"@, "peer"@) {
                Ok(peer) => Ok(BroadcastMessageView::DiscoveryResponse { peer }),
                Err(e) => Err(e),
            }
        } else {
            Err(DecodeError::UnknownVariant)
        },
        _ => Err(DecodeError::MissingDiscriminant),
    }
}

/// The datagram that a payload stands for.
pub open spec fn discovery_of_bytes(bytes: Seq<u8>) -> Result<BroadcastMessageView, DecodeError> {
    match parsed_bytes(bytes) {
        Some(doc) => discovery_of_doc(doc),
        None => Err(DecodeError::Syntax),
    }
}

/// What a decoding returned, with the datagram as a mathematical value.
pub open spec fn decoded_view(r: Result<BroadcastMessage, DecodeError>) -> Result<
    BroadcastMessageView,
    DecodeError,
> {
    match r {
        Ok(message) => Ok(message@),
        Err(e) => Err(e),
    }
}

fn write_peer(peer: &PeerInfo) -> (r: Value)
    ensures
        json_doc(r) == JsonDoc::Object(peer_members(peer@)),
{
    let mut members = serde_json::Map::new();
    members.insert("id".to_owned(), string_value(peer.id.clone()));
    members.insert("hostname".to_owned(), string_value(peer.hostname.clone()));
    members.insert("ip".to_owned(), string_value(peer.ip.to_text()));
    members.insert("port".to_owned(), number_value(peer.port as u64));
    members.insert("last_seen".to_owned(), number_value(peer.last_seen));
    object_value(members)
}

fn write_variant(name: &str, field: &str, peer: &PeerInfo) -> (r: Value)
    ensures
        json_doc(r) == variant_doc(name@, field@, peer@),
{
    let mut fields = serde_json::Map::new();
    fields.insert(field.to_owned(), write_peer(peer));
    let mut members = serde_json::Map::new();
    members.insert(name.to_owned(), object_value(fields));
    object_value(members)
}

fn read_peer(members: &serde_json::Map<String, Value>) -> (r: Option<PeerInfo>)
    ensures
        match r {
            Some(peer) => peer_of_members(json_members(*members)) == Some(peer@),
            None => peer_of_members(json_members(*members)) is None,
        },
{
    let id = match read_string(members, "id") {
        Some(id) => id,
        None => {
            return None;
        },
    };
    let hostname = match read_string(members, "hostname") {
        Some(hostname) => hostname,
        None => {
            return None;
        },
    };
    let ip_text = match read_string(members, "ip") {
        Some(ip_text) => ip_text,
        None => {
            return None;
        },
    };
    let port = match read_number(members, "port") {
        Some(port) => port,
        None => {
            return None;
        },
    };
    let last_seen = match read_number(members, "last_seen") {
        Some(last_seen) => last_seen,
        None => {
            return None;
        },
    };
    let ip = match Ipv4Address::parse(ip_text.as_str()) {
        Some(ip) => ip,
        None => {
            return None;
        },
    };
    if port > 65535 {
        return None;
    }
    Some(PeerInfo { id, hostname, ip, port: port as u16, last_seen })
}

fn read_variant_peer(
    members: &serde_json::Map<String, Value>,
    name: &str,
    field: &str,
) -> (r: Result<PeerInfo, DecodeError>)
    ensures
        match r {
            Ok(peer) => variant_peer(json_members(*members), name@, field@) == Ok::<
                PeerInfoView,
                DecodeError,
            >(peer@),
            Err(e) => variant_peer(json_members(*members), name@, field@) == Err::<
                PeerInfoView,
                DecodeError,
            >(e),
        },
{
    let fields = match read_object(members, name) {
        Some(fields) => fields,
        None => {
            return Err(DecodeError::InvalidField);
        },
    };
    let peer = match read_object(fields, field) {
        Some(peer) => peer,
        None => {
            return Err(DecodeError::InvalidField);
        },
    };
    match read_peer(peer) {
        Some(peer) => Ok(peer),
        None => Err(DecodeError::InvalidField),
    }
}

fn has_member(members: &serde_json::Map<String, Value>, name: &str) -> (r: bool)
    ensures
        r == json_members(*members).contains_key(name@),
{
    member(members, name).is_some()
}

impl BroadcastMessage {
    /// The JSON value of the datagram.
    pub fn to_value(&self) -> (r: Value)
        ensures
            json_doc(r) == discovery_doc(self@),
    {
        match self {
            BroadcastMessage::Announce { peer } => write_variant("Announce", "peer", peer),
            BroadcastMessage::DiscoveryRequest { from } => write_variant(
                "DiscoveryRequest",
                "from",
                from,
            ),
            BroadcastMessage::DiscoveryResponse { peer } => write_variant(
                "DiscoveryResponse",
                "peer",
                peer,
            ),
        }
    }

    /// Reads a datagram from a JSON value: the datagram that the value's
    /// document stands for, or the reason why it stands for none.
    pub fn from_value(value: &Value) -> (r: Result<BroadcastMessage, DecodeError>)
        ensures
            decoded_view(r) == discovery_of_doc(json_doc(*value)),
    {
        let members = match value.as_object() {
            Some(members) => members,
            None => {
                return Err(DecodeError::MissingDiscriminant);
            },
        };
        if members.len() != 1 {
            return Err(DecodeError::MissingDiscriminant);
        }
        if has_member(members, "Announce") {
            match read_variant_peer(members, "Announce", "peer") {
                Ok(peer) => Ok(BroadcastMessage::Announce { peer }),
                Err(e) => Err(e),
            }
        } else if has_member(members, "DiscoveryRequest") {
            match read_variant_peer(members, "DiscoveryRequest", "from") {
                Ok(from) => Ok(BroadcastMessage::DiscoveryRequest { from }),
                Err(e) => Err(e),
            }
        } else if has_member(members, "DiscoveryResponse") {
            match read_variant_peer(members, "DiscoveryResponse", "peer") {
                Ok(peer) => Ok(BroadcastMessage::DiscoveryResponse { peer }),
                Err(e) => Err(e),
            }
        } else {
            Err(DecodeError::UnknownVariant)
        }
    }

    /// The payload of the datagram: exactly what the printer gives for the
    /// datagram's document, its bytes where it prints the document and the
    /// failure where it does not.
    pub fn to_bytes(&self) -> (r: Result<Vec<u8>, EncodeError>)
        ensures
            match r {
                Ok(bytes) => printed_bytes(discovery_doc(self@)) == Some(bytes@),
                Err(_) => printed_bytes(discovery_doc(self@)) is None,
            },
    {
        let value = self.to_value();
        printed_bytes_or_error(print_bytes(&value))
    }

    /// Reads a datagram from a payload. A payload that is no JSON document,
    /// or whose document stands for no datagram, is rejected with the reason.
    pub fn from_bytes(payload: &[u8]) -> (r: Result<BroadcastMessage, DecodeError>)
        ensures
            decoded_view(r) == discovery_of_bytes(payload@),
    {
        match parse_bytes(payload) {
            Ok(value) => BroadcastMessage::from_value(&value),
            Err(_) => Err(DecodeError::Syntax),
        }
    }
}

/// The names of a peer's fields are pairwise different, and so are the
/// names of the variants.
proof fn lemma_discovery_names()
    ensures
        "id"@.len() == 2 && "id"@[1] == 'd',
        "ip"@.len() == 2 && "ip"@[1] == 'p',
        "port"@.len() == 4,
        "hostname"@.len() == 8,
        "last_seen"@.len() == 9,
        "Announce"@.len() == 8,
        "DiscoveryRequest"@.len() == 16,
        "DiscoveryResponse"@.len() == 17,
{
    reveal_strlit("id");
    reveal_strlit("ip");
    reveal_strlit("port");
    reveal_strlit("hostname");
    reveal_strlit("last_seen");
    reveal_strlit("Announce");
    reveal_strlit("DiscoveryRequest");
    reveal_strlit("DiscoveryResponse");
}

/// The object written for a peer stands for that peer.
pub proof fn lemma_peer_round_trip(peer: PeerInfoView)
    ensures
        peer_of_members(peer_members(peer)) == Some(peer),
{
    lemma_discovery_names();
    lemma_address_text_round_trip(peer.ip);
}

/// Encoding and then decoding gives the datagram back: the document written
/// for a datagram stands for that datagram, whatever the variant.
pub proof fn lemma_discovery_round_trip(message: BroadcastMessageView)
    ensures
        discovery_of_doc(discovery_doc(message)) == Ok::<BroadcastMessageView, DecodeError>(message),
{
    lemma_discovery_names();
    match message {
        BroadcastMessageView::Announce { peer } => {
            lemma_peer_round_trip(peer);
        },
        BroadcastMessageView::DiscoveryRequest { from } => {
            lemma_peer_round_trip(from);
        },
        BroadcastMessageView::DiscoveryResponse { peer } => {
            lemma_peer_round_trip(peer);
        },
    }
}

} // verus!
