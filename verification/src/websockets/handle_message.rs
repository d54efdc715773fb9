//! Where an inbound message goes.
//!
//! The session layer does not interpret payloads. It sorts what arrives into
//! control messages, which it reports, and transfer messages and raw bytes,
//! which belong to the payload handler that the caller plugs in.

use crate::websockets::messages::{WebSocketMessage, WebSocketMessageView};
use vstd::prelude::*;
use vstd::slice::slice_to_vec;

verus! {

/// What the session layer hands on for one inbound frame.
#[derive(Debug, Clone, PartialEq, Eq)]
pub enum Delivery {
    /// A control message: authentication or an error report.
    Control(WebSocketMessage),
    /// A transfer message, for the payload handler.
    Payload(WebSocketMessage),
    /// Raw bytes, for the payload handler, as they came.
    Binary(Vec<u8>),
}

/// A delivery as a mathematical value.
pub enum DeliveryView {
    Control(WebSocketMessageView),
    Payload(WebSocketMessageView),
    Binary(Seq<u8>),
}

impl View for Delivery {
    type V = DeliveryView;

    open spec fn view(&self) -> DeliveryView {
        match *self {
            Delivery::Control(message) => DeliveryView::Control(message@),
            Delivery::Payload(message) => DeliveryView::Payload(message@),
            Delivery::Binary(bytes) => DeliveryView::Binary(bytes@),
        }
    }
}

/// Whether a message is a control message: `Auth`, `AuthResponse` or `Error`.
pub open spec fn is_control(message: WebSocketMessageView) -> bool {
    message is Auth || message is AuthResponse || message is Error
}

/// Where a message goes: a control message is reported, any other belongs to
/// the payload handler.
pub open spec fn delivery_of(message: WebSocketMessageView) -> DeliveryView {
    if is_control(message) {
        DeliveryView::Control(message)
    } else {
        DeliveryView::Payload(message)
    }
}

/// Sorts a decoded message. Every variant is named: a variant added to the
/// vocabulary has to be sorted here before the crate builds again.
pub fn handle_message(msg: WebSocketMessage) -> (r: Delivery)
    ensures
        r@ == delivery_of(msg@),
{
    match msg {
        WebSocketMessage::Auth { token } => Delivery::Control(WebSocketMessage::Auth { token }),
        WebSocketMessage::AuthResponse { success, message } => Delivery::Control(
            WebSocketMessage::AuthResponse { success, message },
        ),
        WebSocketMessage::Error { message } => Delivery::Control(
            WebSocketMessage::Error { message },
        ),
        WebSocketMessage::FileOffer { filename, size, hash, mime_type } => Delivery::Payload(
            WebSocketMessage::FileOffer { filename, size, hash, mime_type },
        ),
        WebSocketMessage::FileAccept { accept, reason } => Delivery::Payload(
            WebSocketMessage::FileAccept { accept, reason },
        ),
        WebSocketMessage::TransferStart { chunk_size } => Delivery::Payload(
            WebSocketMessage::TransferStart { chunk_size },
        ),
        WebSocketMessage::TransferChunk { data, offset } => Delivery::Payload(
            WebSocketMessage::TransferChunk { data, offset },
        ),
        WebSocketMessage::TransferComplete { hash } => Delivery::Payload(
            WebSocketMessage::TransferComplete { hash },
        ),
    }
}

/// Passes a binary frame on to the payload handler, byte for byte.
pub fn handle_binary_data(data: &[u8]) -> (r: Delivery)
    ensures
        r@ == DeliveryView::Binary(data@),
{
    Delivery::Binary(slice_to_vec(data))
}

} // verus!
