//! A small request/response service: a peer sends one protobuf-encoded message
//! per read, either an addition request or a text to echo, and gets one encoded
//! reply back on the same connection.
//!
//! The crate holds the message schemas and their wire format, the dispatch from
//! request to reply, the per-connection state machine and the service's running
//! flag. Sockets and scheduling belong to the program around it.

pub mod dispatch;
pub mod dispatch_laws;
pub mod message;
pub mod message_laws;
pub mod server;
pub mod server_laws;
pub mod wire;
pub mod wire_laws;
