//! The arguments of the program, as plain values.

use vstd::prelude::*;

verus! {

/// The port of discovery where none is given.
pub const DEFAULT_UDP_PORT: u16 = 7070;

/// What the program was started with.
#[derive(Debug, Clone, PartialEq, Eq)]
pub struct Args {
    /// Log level (error, warn, info, debug, trace).
    pub log_level: String,
    /// Path of the settings file.
    pub config: Option<String>,
    /// Port of discovery by UDP broadcast.
    pub udp_port: u16,
    /// What to do.
    pub command: Option<Command>,
}

/// What the program is asked to do.
#[derive(Debug, Clone, PartialEq, Eq)]
#[allow(inconsistent_fields)]
pub enum Command {
    /// Start discovery by UDP broadcast.
    Discover { verbose: bool },
    /// List the known peers.
    Peers { verbose: bool },
    /// Send files to a peer.
    Send {
        /// The peer, by identity or name.
        to: String,
        /// The files or directories to send.
        paths: Vec<String>,
    },
}

} // verus!
