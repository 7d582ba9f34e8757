//! The opening handshake of a WebSocket-to-TCP relay and the decisions of the
//! relay session that follows it.
//!
//! Nothing here touches a socket. A caller reads lines and writes bytes; this
//! crate says which bytes, and when to stop.

pub mod ascii;
pub mod header;
pub mod accept;
pub mod handshake;
pub mod relay;
pub mod port;
