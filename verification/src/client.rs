//! Decisions of the client: the handshake, the reaction to each server
//! message, and the frames it sends.
use vstd::prelude::*;
use vstd::string::*;
use crate::common::protocol::{
    first_read_outcome, ClientMessage, FrameData, HandshakeError, PixelFormat, ServerMessage,
    StreamEvent,
};

verus! {

/// The capture settings that the server may change while streaming.
#[derive(Debug, Clone, Copy, PartialEq, Eq)]
pub struct ClientSettings {
    pub fps: u8,
    pub quality: u8,
    /// Whether to actively capture frames.
    pub active_capture: bool,
}

/// A request that the receiving side hands to the rest of the client.
#[derive(Debug, Clone, Copy, PartialEq, Eq)]
pub enum ControlMessage {
    Shutdown,
    RequestKeyFrame,
}

/// How the client reacts to one message from the server.
#[derive(Debug, Clone, Copy, PartialEq, Eq)]
pub enum ServerReaction {
    /// A frame was acknowledged: its round trip took `latency` milliseconds
    /// and the server received it at `received_at`.
    Latency { latency: u64, received_at: u64 },
    /// Hand a control request to the rest of the client.
    Control(ControlMessage),
    /// A capture setting was changed.
    Reconfigured,
    /// A message that has no meaning here.
    Unexpected,
}

/// What one read from the server's stream leads to.
#[derive(Debug, Clone, Copy, PartialEq, Eq)]
pub enum ReceiveStep {
    /// A message arrived and was handled.
    Handled(ServerReaction),
    /// Bytes that are not a message: log them and go on reading.
    Skip,
    /// The stream is over: stop receiving and shut the client down.
    Stop,
}

/// The settings after the server's message `msg`.
pub open spec fn settings_after(msg: ServerMessage, s: ClientSettings) -> ClientSettings {
    match msg {
        ServerMessage::ConfigureQuality { quality } => ClientSettings { quality, ..s },
        ServerMessage::ConfigureFrameRate { fps } => ClientSettings { fps, ..s },
        ServerMessage::ToggleCapture { enabled } => ClientSettings { active_capture: enabled, ..s },
        _ => s,
    }
}

/// A capture toggle from the server sets the client's capture state to the
/// message's value, whatever it was before, and leaves the frame rate and
/// quality alone; so applying it twice is the same as applying it once.
pub proof fn lemma_toggle_capture_sets_state(s: ClientSettings, enabled: bool)
    ensures
        settings_after(ServerMessage::ToggleCapture { enabled }, s).active_capture == enabled,
        settings_after(ServerMessage::ToggleCapture { enabled }, s).fps == s.fps,
        settings_after(ServerMessage::ToggleCapture { enabled }, s).quality == s.quality,
        settings_after(
            ServerMessage::ToggleCapture { enabled },
            ClientSettings { active_capture: !s.active_capture, ..s },
        ) == settings_after(ServerMessage::ToggleCapture { enabled }, s),
        settings_after(
            ServerMessage::ToggleCapture { enabled },
            settings_after(ServerMessage::ToggleCapture { enabled }, s),
        ) == settings_after(ServerMessage::ToggleCapture { enabled }, s),
{
}

/// A frame-rate request sets the client's frame rate to exactly the
/// requested value, for every value, and leaves quality and capture alone.
pub proof fn lemma_frame_rate_sets_fps(s: ClientSettings, fps: u8)
    ensures
        settings_after(ServerMessage::ConfigureFrameRate { fps }, s).fps == fps,
        settings_after(ServerMessage::ConfigureFrameRate { fps }, s).quality == s.quality,
        settings_after(ServerMessage::ConfigureFrameRate { fps }, s).active_capture == s.active_capture,
{
}

/// A quality request sets the client's quality to exactly the requested
/// value, for every value, and leaves frame rate and capture alone.
pub proof fn lemma_quality_sets_quality(s: ClientSettings, quality: u8)
    ensures
        settings_after(ServerMessage::ConfigureQuality { quality }, s).quality == quality,
        settings_after(ServerMessage::ConfigureQuality { quality }, s).fps == s.fps,
        settings_after(ServerMessage::ConfigureQuality { quality }, s).active_capture == s.active_capture,
{
}

/// Milliseconds from `timestamp` to `now`, or zero when `now` is earlier.
pub open spec fn latency_ms(now: u64, timestamp: u64) -> u64 {
    if now >= timestamp {
        (now - timestamp) as u64
    } else {
        0
    }
}

/// The client's reaction to the server's message `msg` at time `now`.
pub open spec fn reaction_to(msg: ServerMessage, now: u64) -> ServerReaction {
    match msg {
        ServerMessage::FrameAck { timestamp, received_at } => ServerReaction::Latency {
            latency: latency_ms(now, timestamp),
            received_at,
        },
        ServerMessage::RequestKeyFrame => ServerReaction::Control(ControlMessage::RequestKeyFrame),
        ServerMessage::ConfigureQuality { .. } => ServerReaction::Reconfigured,
        ServerMessage::ConfigureFrameRate { .. } => ServerReaction::Reconfigured,
        ServerMessage::ToggleCapture { .. } => ServerReaction::Reconfigured,
        ServerMessage::Goodbye => ServerReaction::Control(ControlMessage::Shutdown),
        ServerMessage::Hello { .. } => ServerReaction::Unexpected,
    }
}

/// Handles one message from the server at time `now` (milliseconds since
/// the Unix epoch): applies a settings change, or says what to do.
pub fn handle_server_message(msg: ServerMessage, settings: &mut ClientSettings, now: u64) -> (r:
    ServerReaction)
    ensures
        *final(settings) == settings_after(msg, *old(settings)),
        r == reaction_to(msg, now),
        msg matches ServerMessage::ToggleCapture { enabled } ==> final(settings).active_capture
            == enabled && final(settings).fps == old(settings).fps && final(settings).quality == old(
            settings).quality,
        msg matches ServerMessage::ConfigureFrameRate { fps } ==> final(settings).fps == fps
            && final(settings).quality == old(settings).quality && final(settings).active_capture
            == old(settings).active_capture,
        msg matches ServerMessage::ConfigureQuality { quality } ==> final(settings).quality == quality
            && final(settings).fps == old(settings).fps && final(settings).active_capture == old(
            settings).active_capture,
{
    match msg {
        ServerMessage::FrameAck { timestamp, received_at } => {
            let latency: u64 = now.saturating_sub(timestamp);
            ServerReaction::Latency { latency, received_at }
        },
        ServerMessage::RequestKeyFrame => ServerReaction::Control(ControlMessage::RequestKeyFrame),
        ServerMessage::ConfigureQuality { quality } => {
            settings.quality = quality;
            ServerReaction::Reconfigured
        },
        ServerMessage::ConfigureFrameRate { fps } => {
            settings.fps = fps;
            ServerReaction::Reconfigured
        },
        ServerMessage::ToggleCapture { enabled } => {
            settings.active_capture = enabled;
            ServerReaction::Reconfigured
        },
        ServerMessage::Goodbye => ServerReaction::Control(ControlMessage::Shutdown),
        ServerMessage::Hello { .. } => ServerReaction::Unexpected,
    }
}

/// Handles one read from the server's stream once the hello was exchanged.
pub fn receive_step(event: StreamEvent<ServerMessage>, settings: &mut ClientSettings, now: u64) -> (r:
    ReceiveStep)
    ensures
        match event {
            StreamEvent::Message(msg) => {
                &&& *final(settings) == settings_after(msg, *old(settings))
                &&& r == ReceiveStep::Handled(reaction_to(msg, now))
            },
            StreamEvent::Undecodable => *final(settings) == *old(settings) && r == ReceiveStep::Skip,
            _ => *final(settings) == *old(settings) && r == ReceiveStep::Stop,
        },
{
    match event {
        StreamEvent::Message(msg) => ReceiveStep::Handled(handle_server_message(msg, settings, now)),
        StreamEvent::Undecodable => ReceiveStep::Skip,
        _ => ReceiveStep::Stop,
    }
}

/// Checks the first read of a connection: the server's id and version when
/// it is the server's hello, else why the connection is given up.
pub fn accept_server_hello(event: StreamEvent<ServerMessage>) -> (r: Result<(String, String), HandshakeError>)
    ensures
        match first_read_outcome(event) {
            Ok(ServerMessage::Hello { server_id, server_version }) => r == Ok::<(String, String), HandshakeError>((server_id, server_version)),
            Ok(_) => r == Err::<(String, String), HandshakeError>(HandshakeError::UnexpectedMessage),
            Err(e) => r == Err::<(String, String), HandshakeError>(e),
        },
{
    match event {
        StreamEvent::Message(ServerMessage::Hello { server_id, server_version }) => Ok((server_id, server_version)),
        StreamEvent::Message(_) => Err(HandshakeError::UnexpectedMessage),
        StreamEvent::Undecodable | StreamEvent::Empty => Err(HandshakeError::Undecodable),
        StreamEvent::Finished => Err(HandshakeError::ConnectionClosed),
        StreamEvent::Failed => Err(HandshakeError::ReadFailed),
    }
}

/// The client's hello: its id is `cleverest-client-` followed by `instance`
/// (a fresh unique text per run), with the client's `version`.
pub fn client_hello(instance: &str, version: &str) -> (r: ClientMessage)
    ensures
        r matches ClientMessage::Hello { client_id, client_version } && client_id@ == "cleverest-client-"@
            + instance@ && client_version@ == version@,
{
    let mut client_id = String::from_str("cleverest-client-");
    client_id.append(instance);
    ClientMessage::Hello { client_id, client_version: String::from_str(version) }
}

/// A screen image as the capture gave it.
#[derive(Debug, Clone, PartialEq, Eq)]
pub struct CapturedImage {
    pub width: u32,
    pub height: u32,
    pub data: Vec<u8>,
}

/// The all-zero image of `width` x `height` pixels of four bytes each, sent
/// when nothing was captured.
pub fn blank_frame_data(width: u32, height: u32) -> (r: Vec<u8>)
    requires
        width * height * 4 <= u32::MAX,
    ensures
        r@ == Seq::new((width * height * 4) as nat, |i: int| 0u8),
{
    assert(width * height <= u32::MAX) by (nonlinear_arith)
        requires
            width * height * 4 <= u32::MAX,
    ;
    let len: usize = (width * height * 4) as usize;
    let mut data: Vec<u8> = Vec::new();
    let mut i: usize = 0;
    while i < len
        invariant
            i <= len,
            data@ == Seq::new(i as nat, |j: int| 0u8),
        decreases len - i,
    {
        data.push(0u8);
        i += 1;
        assert(data@ =~= Seq::new(i as nat, |j: int| 0u8));
    }
    data
}

/// The frame rate and capture switch that one capture period runs with:
/// the client's settings, or 30 frames per second with capture off when
/// the settings could not be read.
pub fn capture_parameters(settings: Option<ClientSettings>) -> (r: (u8, bool))
    ensures
        r == match settings {
            Some(s) => (s.fps, s.active_capture),
            None => (30u8, false),
        },
{
    match settings {
        Some(s) => (s.fps, s.active_capture),
        None => (30, false),
    }
}

/// The frame sent for one capture period at `timestamp`.
///
/// With capture on and an image captured, the frame is that image; else it
/// is the blank image at the screen's size `width` x `height`. Every frame
/// is an uncompressed BGRA key frame.
pub fn next_frame(
    active_capture: bool,
    captured: Option<CapturedImage>,
    width: u32,
    height: u32,
    timestamp: u64,
    blank: &Vec<u8>,
) -> (f: FrameData)
    ensures
        f.timestamp == timestamp,
        f.format == PixelFormat::BGRA,
        !f.compressed,
        f.key_frame,
        match captured {
            Some(c) if active_capture => f.width == c.width && f.height == c.height && f.data == c.data,
            _ => f.width == width && f.height == height && f.data@ == blank@,
        },
{
    match captured {
        Some(c) if active_capture => FrameData {
            width: c.width,
            height: c.height,
            timestamp,
            data: c.data,
            format: PixelFormat::BGRA,
            compressed: false,
            key_frame: true,
        },
        _ => {
            let data = blank.clone();
            assert(data@ =~= blank@);
            FrameData {
                width,
                height,
                timestamp,
                data,
                format: PixelFormat::BGRA,
                compressed: false,
                key_frame: true,
            }
        },
    }
}

} // verus!
