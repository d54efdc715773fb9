//! Finding peers on the local network.

pub mod address;
pub mod mdns;
pub mod messages;
pub mod peer;
pub mod registry;
pub mod udp_broadcast;
