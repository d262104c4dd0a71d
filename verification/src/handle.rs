//! The send-handle capability: the registry's way of pushing one message to
//! one session. A handle wraps the sending half of a bounded in-process
//! queue, so a push never blocks and a stalled or departed receiver only
//! fails its own delivery.

use vstd::prelude::*;
use crate::messages::WebsocketMessage;

verus! {

#[verifier::external_type_specification]
#[verifier::external_body]
#[verifier::reject_recursive_types(T)]
pub struct ExSender<T>(tokio::sync::mpsc::Sender<T>);

/// Capability to push one [`WebsocketMessage`] into a session's delivery
/// queue. The registry holds one per registered session; the receiving half
/// stays with whoever drains that session's queue.
pub struct SendHandle {
    tx: tokio::sync::mpsc::Sender<WebsocketMessage>,
}

impl SendHandle {
    /// Wraps the sending half of a bounded queue as a send handle.
    pub fn from_sender(tx: tokio::sync::mpsc::Sender<WebsocketMessage>) -> SendHandle {
        SendHandle { tx }
    }
}

/// Relies on tokio::sync::mpsc::Sender::try_send: a non-blocking enqueue
/// that hands the message to the receiving half when the queue has room,
/// and returns an error when the queue is full or the receiver is gone.
/// The outcome depends on the state of the queue, so nothing is promised
/// of the returned flag.
#[verifier::external_body]
pub(crate) fn try_deliver(handle: &SendHandle, message: WebsocketMessage) -> (delivered: bool) {
    handle.tx.try_send(message).is_ok()
}

} // verus!
