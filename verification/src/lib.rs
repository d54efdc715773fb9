//! Serverless peer discovery on a local network and a single monitored
//! message channel between two peers.
//!
//! The crate holds the protocol logic as pure state machines: the caller owns
//! the sockets, the clock and the timers, feeds what happened into a machine
//! and carries out the action that the machine answers with.
//!
//! - [`network_discovery`]: the datagrams of discovery, the registry of known
//!   peers, and the machine that announces, asks and answers.
//! - [`websockets`]: the messages of the channel, the negotiation of who
//!   dials and who listens, and the session with its heartbeat.
//! - [`codec`] and [`json`]: the JSON form of both vocabularies.
//! - [`config`] and [`cli`]: the settings and arguments of the program.

pub mod cli;
pub mod codec;
pub mod config;
pub mod json;
pub mod network_discovery;
pub mod websockets;
