//! What is known of one peer.

use crate::network_discovery::address::Ipv4Address;
use vstd::prelude::*;

verus! {

/// The identity of a peer: made once when a process starts discovery, and
/// kept for as long as the process lives.
pub type PeerId = String;

/// A peer as it announces itself.
#[derive(Debug, PartialEq, Eq)]
pub struct PeerInfo {
    pub id: PeerId,
    pub hostname: String,
    pub ip: Ipv4Address,
    pub port: u16,
    /// When the peer was last seen, in seconds since the Unix epoch.
    pub last_seen: u64,
}

/// A peer as a mathematical value.
pub struct PeerInfoView {
    pub id: Seq<char>,
    pub hostname: Seq<char>,
    pub ip: Ipv4Address,
    pub port: u16,
    pub last_seen: u64,
}

impl View for PeerInfo {
    type V = PeerInfoView;

    open spec fn view(&self) -> PeerInfoView {
        PeerInfoView {
            id: self.id@,
            hostname: self.hostname@,
            ip: self.ip,
            port: self.port,
            last_seen: self.last_seen,
        }
    }
}

impl Clone for PeerInfo {
    fn clone(&self) -> (r: PeerInfo)
        ensures
            r == *self,
    {
        PeerInfo {
            id: self.id.clone(),
            hostname: self.hostname.clone(),
            ip: self.ip,
            port: self.port,
            last_seen: self.last_seen,
        }
    }
}

impl PeerInfo {
    /// The peer with another time at which it was last seen.
    pub fn seen_at(&self, last_seen: u64) -> (r: PeerInfo)
        ensures
            r@ == (PeerInfoView { last_seen, ..self@ }),
    {
        PeerInfo {
            id: self.id.clone(),
            hostname: self.hostname.clone(),
            ip: self.ip,
            port: self.port,
            last_seen,
        }
    }
}

} // verus!
