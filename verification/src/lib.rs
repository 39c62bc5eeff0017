//! Cleverest: a screencast client and server that talk over QUIC.
//!
//! The library holds the message types of the wire protocol, the decisions
//! that the client and the server make on each message, the frame
//! book-keeping of the server and the pixel conversion of its display.
pub mod common;
pub mod client;
pub mod server;
