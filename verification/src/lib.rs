//! Real-time broadcast hub: a registry that fans messages out to every live
//! session, and a per-session liveness state machine that probes its peer and
//! terminates the connection when the peer stops responding.
//!
//! The transport (handshake, frame encoding, timers, task spawning) is an
//! external collaborator: callers feed decoded frames, clock readings and
//! probe ticks into [`session::WebsocketConnection`] and carry out the
//! [`messages::Action`]s it returns, while [`server::ImageServer`] owns the
//! id -> send-handle map and performs the fan-out itself.

pub mod dispatch;
pub mod handle;
pub mod messages;
pub mod server;
pub mod session;
