//! The messages that the client and the server exchange.
use vstd::prelude::*;

verus! {

/// One captured screen image as it travels from the client to the server.
#[derive(Debug, Clone, PartialEq, Eq)]
pub struct FrameData {
    pub width: u32,
    pub height: u32,
    /// Milliseconds since the Unix epoch at which the frame was taken.
    pub timestamp: u64,
    pub data: Vec<u8>,
    pub format: PixelFormat,
    /// Whether the data is compressed.
    pub compressed: bool,
    /// Whether this is a key frame (full image) or a delta.
    pub key_frame: bool,
}

/// The byte layout of one pixel in `FrameData::data`.
#[derive(Debug, Clone, Copy, PartialEq, Eq)]
pub enum PixelFormat {
    RGB,
    RGBA,
    BGR,
    BGRA,
}

/// A message sent by the client.
#[derive(Debug, Clone, PartialEq, Eq)]
pub enum ClientMessage {
    Hello { client_id: String, client_version: String },
    Frame(FrameData),
    Goodbye,
}

/// A message sent by the server.
#[derive(Debug, Clone, PartialEq, Eq)]
pub enum ServerMessage {
    Hello { server_id: String, server_version: String },
    FrameAck { timestamp: u64, received_at: u64 },
    RequestKeyFrame,
    /// Quality in the range 0-100.
    ConfigureQuality { quality: u8 },
    ConfigureFrameRate { fps: u8 },
    ToggleCapture { enabled: bool },
    Goodbye,
}

/// What one read from a QUIC stream gave, once the bytes were decoded.
#[derive(Debug, Clone, PartialEq, Eq)]
pub enum StreamEvent<M> {
    /// A non-empty read that decoded into a message.
    Message(M),
    /// A non-empty read whose bytes are not a message.
    Undecodable,
    /// A read of zero bytes: the peer closed its side.
    Empty,
    /// The stream was finished by the peer.
    Finished,
    /// The read itself failed.
    Failed,
}

/// Why a connection was given up before the two hello messages were exchanged.
#[derive(Debug, Clone, Copy, PartialEq, Eq)]
pub enum HandshakeError {
    /// The stream ended before the peer said hello.
    ConnectionClosed,
    /// The first bytes were not a message.
    Undecodable,
    /// Reading the first bytes failed.
    ReadFailed,
    /// The first message was not a hello.
    UnexpectedMessage,
}

/// The handshake outcome of the first read of a connection: the peer's
/// message when it is a hello, else why the connection is given up.
pub open spec fn first_read_outcome<M>(event: StreamEvent<M>) -> Result<M, HandshakeError> {
    match event {
        StreamEvent::Message(m) => Ok(m),
        StreamEvent::Undecodable => Err(HandshakeError::Undecodable),
        // Zero bytes do not decode into any message.
        StreamEvent::Empty => Err(HandshakeError::Undecodable),
        StreamEvent::Finished => Err(HandshakeError::ConnectionClosed),
        StreamEvent::Failed => Err(HandshakeError::ReadFailed),
    }
}

} // verus!
