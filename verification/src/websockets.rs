//! The message channel between two peers: its vocabulary, the negotiation of
//! who dials and who listens, and the heartbeat that watches the channel.

pub mod event_loop;
pub mod handle_message;
pub mod handlers;
pub mod messages;
