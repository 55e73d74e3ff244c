//! Message and event types exchanged between the broker side, the broadcast
//! channel and the per-connection handlers.

use vstd::prelude::*;

verus! {

/// Mathematical image of a `BridgeMessage`: the topic and the raw JSON text
/// of the payload, both as character sequences.
pub ghost struct BridgeMessageView {
    pub topic: Seq<char>,
    pub payload: Seq<char>,
}

/// A broker publication decoded and ready for fan-out to clients.
///
/// `payload` holds the payload exactly as it arrived from the broker; it is
/// only ever accepted when that text is well-formed JSON, and it is embedded
/// verbatim in the frame sent to clients, so a published message is never
/// altered between the broker and a subscriber.
pub struct BridgeMessage {
    pub topic: String,
    pub payload: String,
}

impl View for BridgeMessage {
    type V = BridgeMessageView;

    open spec fn view(&self) -> BridgeMessageView {
        BridgeMessageView { topic: self.topic@, payload: self.payload@ }
    }
}

impl BridgeMessage {
    /// A fresh message with the same topic and payload.
    pub fn duplicate(&self) -> (r: Self)
        ensures
            r@ == self@,
    {
        BridgeMessage { topic: self.topic.clone(), payload: self.payload.clone() }
    }
}

/// Mathematical image of an `OutFrame`.
pub ghost struct OutFrameView {
    pub text: Option<Seq<char>>,
}

/// One frame for the transport layer to send to the client, in order.
pub enum OutFrame {
    /// A text frame with the given contents.
    Text(String),
    /// A close frame; the connection is being shut down.
    Close,
}

impl View for OutFrame {
    type V = OutFrameView;

    open spec fn view(&self) -> OutFrameView {
        match self {
            OutFrame::Text(s) => OutFrameView { text: Some(s@) },
            OutFrame::Close => OutFrameView { text: None::<Seq<char>> },
        }
    }
}

/// One event observed on a client connection by the transport layer.
pub enum ClientEvent {
    /// An inbound text frame with the given contents.
    Text(String),
    /// The client closed the connection, the stream ended, or reading failed.
    Disconnect,
    /// Any other inbound frame (binary, ping, pong).
    Other,
}

/// One event observed on the broker session by the transport layer.
pub enum BrokerEvent {
    /// An incoming publication: its topic and its payload decoded as text.
    Publication { topic: String, payload: String },
    /// Any other event of a healthy session (acknowledgements, pings).
    Other,
    /// A transport or protocol error on the session.
    Failure,
}

} // verus!
