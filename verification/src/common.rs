//! Code shared by the client and the server.
pub mod error;
pub mod network;
pub mod protocol;
pub mod util;
