//! Message and event types shared by the registry and the sessions: the
//! payload fanned out to clients, the registry protocol, the wire frames a
//! session consumes and the actions it asks its transport to perform.

use vstd::prelude::*;

verus! {

/// One payload pushed to a client over its send handle.
pub struct WebsocketMessage {
    pub content: String,
}

/// Registration request: a session hands the hub its id and send handle.
pub struct Connect {
    pub id: u128,
    pub address: crate::handle::SendHandle,
}

/// Deregistration request: a session asks the hub to forget its id.
pub struct Disconnect {
    pub id: u128,
}

/// Outcomes the registry reports to its callers.
#[derive(Clone, Copy, PartialEq, Eq, Debug)]
pub enum RegistryError {
    /// Register was called with an id that is already present.
    AlreadyExists,
    /// Deregister was called with an id that is not present.
    NotFound,
}

/// Why a peer closed the connection, as far as the transport decoded it.
#[derive(Clone, PartialEq, Eq, Debug)]
pub struct CloseReason {
    pub code: u16,
    pub description: Option<String>,
}

/// One decoded inbound frame from the peer.
#[derive(Clone, PartialEq, Eq, Debug)]
pub enum Frame {
    Ping(Vec<u8>),
    Pong(Vec<u8>),
    Text(String),
    Binary(Vec<u8>),
    Close(Option<CloseReason>),
    Continuation,
    Nop,
}

/// One outbound frame a session asks its transport to send.
#[derive(Clone, PartialEq, Eq, Debug)]
pub enum Action {
    SendPing(Vec<u8>),
    SendPong(Vec<u8>),
    SendText(String),
    SendBinary(Vec<u8>),
    SendClose(Option<CloseReason>),
}

/// Everything that can drive a session's state machine forward, with the
/// clock reading at which it happened supplied alongside.
#[derive(Clone, PartialEq, Eq, Debug)]
pub enum SessionEvent {
    /// The session was registered and its heartbeat timer armed.
    Started,
    /// The transport decoded one inbound frame.
    Inbound(Frame),
    /// The heartbeat timer fired.
    ProbeTick,
    /// The transport reported an error or end of stream.
    TransportError,
}

} // verus!
