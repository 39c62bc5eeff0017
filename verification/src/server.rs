//! Decisions of the server: the connection protocol, the frame
//! book-keeping and the conversion of frames for the display window.
use vstd::prelude::*;
use vstd::string::*;
use crate::common::protocol::{
    first_read_outcome, ClientMessage, FrameData, HandshakeError, PixelFormat, ServerMessage,
    StreamEvent,
};

verus! {

/// The `0xAARRGGBB` word that the display window expects for one pixel.
pub open spec fn argb(b: u8, g: u8, r: u8, a: u8) -> u32 {
    ((a as u32) << 24u32) | ((r as u32) << 16u32) | ((g as u32) << 8u32) | (b as u32)
}

/// Number of pixels in a frame.
pub open spec fn pixel_count(frame: FrameData) -> int {
    frame.width as int * frame.height as int
}

/// `buf` after `Vec::resize(len, 0)`: cut to `len`, or padded with zeros.
pub open spec fn resized(buf: Seq<u32>, len: int) -> Seq<u32> {
    Seq::new(len as nat, |i: int| if i < buf.len() { buf[i] } else { 0u32 })
}

/// The window pixel that the BGRA bytes of pixel `i` give.
pub open spec fn bgra_pixel(data: Seq<u8>, i: int) -> u32 {
    argb(data[4 * i], data[4 * i + 1], data[4 * i + 2], data[4 * i + 3])
}

/// `buf`, resized to `pixels`, with every pixel whose four bytes are all in
/// `data` replaced by its converted value; the others keep their old value.
pub open spec fn converted_bgra(buf: Seq<u32>, data: Seq<u8>, pixels: int) -> Seq<u32> {
    Seq::new(
        pixels as nat,
        |i: int|
            if 4 * i + 3 < data.len() {
                bgra_pixel(data, i)
            } else if i < buf.len() {
                buf[i]
            } else {
                0u32
            },
    )
}

/// The display buffer after a frame was drawn into `buf`; `window_resized`
/// says whether the window was recreated at the frame's size first.
pub open spec fn rendered(buf: Seq<u32>, window_resized: bool, frame: FrameData) -> Seq<u32> {
    let pixels = pixel_count(frame);
    let sized = if window_resized { resized(buf, pixels) } else { buf };
    if frame.format == PixelFormat::BGRA {
        converted_bgra(sized, frame.data@, pixels)
    } else {
        sized
    }
}

/// The packed word keeps all four channels of the pixel: each byte can be
/// read back from its place in the word.
pub proof fn lemma_argb_keeps_channels(b: u8, g: u8, r: u8, a: u8)
    ensures
        (argb(b, g, r, a) >> 24u32) & 0xffu32 == a,
        (argb(b, g, r, a) >> 16u32) & 0xffu32 == r,
        (argb(b, g, r, a) >> 8u32) & 0xffu32 == g,
        argb(b, g, r, a) & 0xffu32 == b,
{
    let (b32, g32, r32, a32) = (b as u32, g as u32, r as u32, a as u32);
    assert(b32 < 256 && g32 < 256 && r32 < 256 && a32 < 256);
    assert(b32 < 256 && g32 < 256 && r32 < 256 && a32 < 256 ==> {
        let w: u32 = (a32 << 24u32) | (r32 << 16u32) | (g32 << 8u32) | b32;
        &&& (w >> 24u32) & 0xffu32 == a32
        &&& (w >> 16u32) & 0xffu32 == r32
        &&& (w >> 8u32) & 0xffu32 == g32
        &&& w & 0xffu32 == b32
    }) by (bit_vector);
}

/// Drawing a BGRA frame gives the buffer one word per pixel of the frame,
/// and every pixel `i` below `width * height` whose four bytes `4i..4i+3`
/// are in the data becomes the word `0xAARRGGBB` made of them: alpha from
/// byte `4i + 3`, red from `4i + 2`, green from `4i + 1`, blue from `4i`.
/// This holds for every row of the frame, whatever its width and height.
pub proof fn lemma_bgra_frame_draws_every_pixel(
    buf: Seq<u32>,
    window_resized: bool,
    frame: FrameData,
    i: int,
)
    requires
        frame.format == PixelFormat::BGRA,
        0 <= i < frame.width * frame.height,
        4 * i + 3 < frame.data@.len(),
    ensures
        rendered(buf, window_resized, frame).len() == frame.width * frame.height,
        rendered(buf, window_resized, frame)[i] == (((frame.data@[4 * i + 3] as u32) << 24u32) | ((
        frame.data@[4 * i + 2] as u32) << 16u32) | ((frame.data@[4 * i + 1] as u32) << 8u32) | (
        frame.data@[4 * i] as u32)),
{
}

/// Whether the display window must be recreated to show `frame`.
pub fn needs_window_resize(current_width: usize, current_height: usize, frame: &FrameData) -> (r: bool)
    ensures
        r == (current_width != frame.width || current_height != frame.height),
{
    current_width != frame.width as usize || current_height != frame.height as usize
}

/// Draws `frame` into the display buffer, one `0xAARRGGBB` word per pixel.
///
/// When the window was recreated the buffer first takes the frame's size.
/// Only BGRA frames are drawn; the result says whether the format was one.
pub fn render_frame(buffer: &mut Vec<u32>, window_resized: bool, frame: &FrameData) -> (drawn: bool)
    requires
        pixel_count(*frame) * 4 <= usize::MAX,
    ensures
        final(buffer)@ == rendered(old(buffer)@, window_resized, *frame),
        drawn == (frame.format == PixelFormat::BGRA),
        frame.format == PixelFormat::BGRA ==> final(buffer)@.len() == frame.width * frame.height,
        frame.format == PixelFormat::BGRA ==> forall|i: int|
            0 <= i < frame.width * frame.height && 4 * i + 3 < frame.data@.len() ==> #[trigger] final(buffer)@[i] == (((frame.data@[4 * i + 3] as u32) << 24u32) | ((frame.data@[4 * i + 2] as u32)
                << 16u32) | ((frame.data@[4 * i + 1] as u32) << 8u32) | (frame.data@[4 * i] as u32)),
{
    let pixels: usize = frame.width as usize * frame.height as usize;
    if window_resized {
        buffer.resize(pixels, 0);
        assert(buffer@ =~= resized(old(buffer)@, pixels as int));
    }
    let ghost sized = buffer@;
    match frame.format {
        PixelFormat::BGRA => {
            buffer.resize(pixels, 0);
            assert(buffer@ =~= resized(sized, pixels as int));
            let mut i: usize = 0;
            while i < pixels
                invariant
                    pixels == pixel_count(*frame),
                    pixel_count(*frame) * 4 <= usize::MAX,
                    i <= pixels,
                    buffer@.len() == pixels,
                    forall|j: int|
                        0 <= j < i ==> #[trigger] buffer@[j] == converted_bgra(
                            sized,
                            frame.data@,
                            pixels as int,
                        )[j],
                    forall|j: int|
                        i <= j < pixels ==> #[trigger] buffer@[j] == resized(
                            sized,
                            pixels as int,
                        )[j],
                decreases pixels - i,
            {
                let idx: usize = i * 4;
                if idx + 3 < frame.data.len() {
                    let b: u32 = frame.data[idx] as u32;
                    let g: u32 = frame.data[idx + 1] as u32;
                    let r: u32 = frame.data[idx + 2] as u32;
                    let a: u32 = frame.data[idx + 3] as u32;
                    buffer.set(i, (a << 24u32) | (r << 16u32) | (g << 8u32) | b);
                }
                i += 1;
            }
            assert(buffer@ =~= converted_bgra(sized, frame.data@, pixels as int));
            true
        },
        _ => false,
    }
}

/// Where a connection stands in the protocol.
#[derive(Debug, Clone, Copy, PartialEq, Eq)]
pub enum ConnectionPhase {
    /// Waiting for the client's hello.
    AwaitingHello,
    /// Hello exchanged: frames flow.
    Streaming,
    /// The connection is over.
    Closed,
}

/// What the server does after one read from a client's stream.
#[derive(Debug, Clone, PartialEq, Eq)]
pub enum ConnectionAction {
    /// The client said hello: answer with the server's hello.
    Welcome { client_id: String, client_version: String },
    /// Give the connection up without a goodbye.
    Reject(HandshakeError),
    /// Record, display and acknowledge the frame.
    ProcessFrame(FrameData),
    /// A message that has no meaning here: warn and go on.
    Unexpected,
    /// Bytes that are not a message: log them and go on.
    Skip,
    /// Say goodbye and end the connection.
    Close,
    /// The connection is over: nothing to do.
    Idle,
}

/// The protocol of one connection, as seen by the server.
pub open spec fn connection_transition(
    phase: ConnectionPhase,
    event: StreamEvent<ClientMessage>,
) -> (ConnectionPhase, ConnectionAction) {
    match phase {
        ConnectionPhase::AwaitingHello => match first_read_outcome(event) {
            Ok(ClientMessage::Hello { client_id, client_version }) => (
                ConnectionPhase::Streaming,
                ConnectionAction::Welcome { client_id, client_version },
            ),
            Ok(_) => (
                ConnectionPhase::Closed,
                ConnectionAction::Reject(HandshakeError::UnexpectedMessage),
            ),
            Err(e) => (ConnectionPhase::Closed, ConnectionAction::Reject(e)),
        },
        ConnectionPhase::Streaming => match event {
            StreamEvent::Message(ClientMessage::Frame(frame)) => (
                ConnectionPhase::Streaming,
                ConnectionAction::ProcessFrame(frame),
            ),
            StreamEvent::Message(ClientMessage::Goodbye) => (
                ConnectionPhase::Closed,
                ConnectionAction::Close,
            ),
            StreamEvent::Message(ClientMessage::Hello { .. }) => (
                ConnectionPhase::Streaming,
                ConnectionAction::Unexpected,
            ),
            StreamEvent::Undecodable => (ConnectionPhase::Streaming, ConnectionAction::Skip),
            _ => (ConnectionPhase::Closed, ConnectionAction::Close),
        },
        ConnectionPhase::Closed => (ConnectionPhase::Closed, ConnectionAction::Idle),
    }
}

/// Decides what the server does with one read from a client's stream.
pub fn connection_step(phase: ConnectionPhase, event: StreamEvent<ClientMessage>) -> (r: (
    ConnectionPhase,
    ConnectionAction,
))
    ensures
        r == connection_transition(phase, event),
{
    match phase {
        ConnectionPhase::AwaitingHello => match event {
            StreamEvent::Message(ClientMessage::Hello { client_id, client_version }) => (
                ConnectionPhase::Streaming,
                ConnectionAction::Welcome { client_id, client_version },
            ),
            StreamEvent::Message(_) => (
                ConnectionPhase::Closed,
                ConnectionAction::Reject(HandshakeError::UnexpectedMessage),
            ),
            StreamEvent::Undecodable | StreamEvent::Empty => (
                ConnectionPhase::Closed,
                ConnectionAction::Reject(HandshakeError::Undecodable),
            ),
            StreamEvent::Finished => (
                ConnectionPhase::Closed,
                ConnectionAction::Reject(HandshakeError::ConnectionClosed),
            ),
            StreamEvent::Failed => (
                ConnectionPhase::Closed,
                ConnectionAction::Reject(HandshakeError::ReadFailed),
            ),
        },
        ConnectionPhase::Streaming => match event {
            StreamEvent::Message(ClientMessage::Frame(frame)) => (
                ConnectionPhase::Streaming,
                ConnectionAction::ProcessFrame(frame),
            ),
            StreamEvent::Message(ClientMessage::Goodbye) => (
                ConnectionPhase::Closed,
                ConnectionAction::Close,
            ),
            StreamEvent::Message(ClientMessage::Hello { .. }) => (
                ConnectionPhase::Streaming,
                ConnectionAction::Unexpected,
            ),
            StreamEvent::Undecodable => (ConnectionPhase::Streaming, ConnectionAction::Skip),
            _ => (ConnectionPhase::Closed, ConnectionAction::Close),
        },
        ConnectionPhase::Closed => (ConnectionPhase::Closed, ConnectionAction::Idle),
    }
}

/// The phase that a connection reaches from `phase` through the reads `events`.
pub open spec fn phase_after(phase: ConnectionPhase, events: Seq<StreamEvent<ClientMessage>>) -> ConnectionPhase
    decreases events.len(),
{
    if events.len() == 0 {
        phase
    } else {
        connection_transition(phase_after(phase, events.drop_last()), events.last()).0
    }
}

/// What the server does on read `k` of a connection whose reads are `events`.
pub open spec fn action_at(events: Seq<StreamEvent<ClientMessage>>, k: int) -> ConnectionAction {
    connection_transition(phase_after(ConnectionPhase::AwaitingHello, events.take(k)), events[k]).1
}

pub open spec fn is_client_hello(event: StreamEvent<ClientMessage>) -> bool {
    event matches StreamEvent::Message(ClientMessage::Hello { .. })
}

proof fn lemma_phase_after_start(events: Seq<StreamEvent<ClientMessage>>)
    ensures
        events.len() > 0 ==> phase_after(ConnectionPhase::AwaitingHello, events)
            != ConnectionPhase::AwaitingHello,
        phase_after(ConnectionPhase::AwaitingHello, events) == ConnectionPhase::Streaming
            ==> events.len() > 0 && is_client_hello(events[0]),
    decreases events.len(),
{
    if events.len() > 0 {
        let prefix = events.drop_last();
        lemma_phase_after_start(prefix);
        if prefix.len() == 0 {
            assert(phase_after(ConnectionPhase::AwaitingHello, prefix) == ConnectionPhase::AwaitingHello);
            assert(events[0] == events.last());
        } else {
            assert(prefix[0] == events[0]);
        }
    }
}

/// Once closed, a connection stays closed whatever it reads.
pub proof fn lemma_closed_is_final(events: Seq<StreamEvent<ClientMessage>>)
    ensures
        phase_after(ConnectionPhase::Closed, events) == ConnectionPhase::Closed,
        forall|k: int|
            0 <= k < events.len() ==> connection_transition(
                phase_after(ConnectionPhase::Closed, events.take(k)),
                #[trigger] events[k],
            ) == (ConnectionPhase::Closed, ConnectionAction::Idle),
    decreases events.len(),
{
    if events.len() > 0 {
        lemma_closed_is_final(events.drop_last());
    }
    assert forall|k: int| 0 <= k < events.len() implies connection_transition(
        phase_after(ConnectionPhase::Closed, events.take(k)),
        #[trigger] events[k],
    ) == (ConnectionPhase::Closed, ConnectionAction::Idle) by {
        lemma_closed_is_final(events.take(k));
    }
}

/// The handshake is the first read of a connection: only that read can
/// welcome or reject the client, and a frame is processed only on a later
/// read of a connection whose first message was the client's hello.
pub proof fn lemma_handshake_comes_first(events: Seq<StreamEvent<ClientMessage>>, k: int)
    requires
        0 <= k < events.len(),
    ensures
        (action_at(events, k) is Welcome || action_at(events, k) is Reject) ==> k == 0,
        action_at(events, k) is ProcessFrame ==> k > 0 && is_client_hello(events[0]),
{
    let prefix = events.take(k);
    lemma_phase_after_start(prefix);
    if k > 0 {
        assert(prefix[0] == events[0]);
    }
}

/// What the server keeps across connections: the last frame and counters.
#[derive(Debug, Clone, PartialEq, Eq)]
pub struct ServerState {
    pub current_frame: Option<FrameData>,
    pub connected_clients: usize,
    /// Frames received since the last frame-rate sample.
    pub frames_received: usize,
    pub total_frames: usize,
}

/// `s` with one more connected client.
pub open spec fn with_client_added(s: ServerState) -> ServerState {
    ServerState { connected_clients: (s.connected_clients + 1) as usize, ..s }
}

/// `s` with one connected client less.
pub open spec fn with_client_removed(s: ServerState) -> ServerState {
    ServerState { connected_clients: (s.connected_clients - 1) as usize, ..s }
}

/// A client that connects and then disconnects leaves the state as it was.
pub proof fn lemma_connect_then_disconnect(s: ServerState)
    requires
        s.connected_clients < usize::MAX,
    ensures
        with_client_removed(with_client_added(s)) == s,
{
}

impl ServerState {
    /// The state of a server that has seen nothing yet.
    pub fn new() -> (s: Self)
        ensures
            s.current_frame is None,
            s.connected_clients == 0,
            s.frames_received == 0,
            s.total_frames == 0,
    {
        ServerState { current_frame: None, connected_clients: 0, frames_received: 0, total_frames: 0 }
    }

    /// A client connected.
    pub fn client_connected(&mut self)
        requires
            old(self).connected_clients < usize::MAX,
        ensures
            *final(self) == with_client_added(*old(self)),
    {
        self.connected_clients = self.connected_clients + 1;
    }

    /// A client's connection ended.
    pub fn client_disconnected(&mut self)
        requires
            old(self).connected_clients > 0,
        ensures
            *final(self) == with_client_removed(*old(self)),
    {
        self.connected_clients = self.connected_clients - 1;
    }
}

/// The acknowledgement of a frame taken at `frame_timestamp` and received
/// at `received_at` (both in milliseconds since the Unix epoch).
pub fn frame_ack(frame_timestamp: u64, received_at: u64) -> (r: ServerMessage)
    ensures
        r == (ServerMessage::FrameAck { timestamp: frame_timestamp, received_at }),
{
    ServerMessage::FrameAck { timestamp: frame_timestamp, received_at }
}

/// The state after a frame is recorded `elapsed_secs` whole seconds after
/// the last frame-rate sample: the frame becomes the current one, both
/// counts grow by one, and a period of at least one second closes, which
/// starts the period count again from zero.
pub open spec fn frame_recorded(s: ServerState, frame: FrameData, elapsed_secs: u64) -> ServerState {
    ServerState {
        current_frame: Some(frame),
        frames_received: if elapsed_secs >= 1 { 0 } else { (s.frames_received + 1) as usize },
        total_frames: (s.total_frames + 1) as usize,
        ..s
    }
}

/// The frame-rate sample that recording a frame in `s` gives: the frames of
/// the period, this one included, when the period closes.
pub open spec fn fps_sample(s: ServerState, elapsed_secs: u64) -> Option<usize> {
    if elapsed_secs >= 1 {
        Some((s.frames_received + 1) as usize)
    } else {
        None
    }
}

/// Records a received frame.
///
/// `elapsed_secs` is the whole number of seconds since the last frame-rate
/// sample. When at least one second has passed, the frames of the period
/// are handed out as a sample and the period count starts again from zero.
pub fn process_frame(state: &mut ServerState, frame: FrameData, elapsed_secs: u64) -> (sample: Option<
    usize,
>)
    requires
        old(state).frames_received < usize::MAX,
        old(state).total_frames < usize::MAX,
    ensures
        *final(state) == frame_recorded(*old(state), frame, elapsed_secs),
        sample == fps_sample(*old(state), elapsed_secs),
{
    state.current_frame = Some(frame);
    state.frames_received = state.frames_received + 1;
    state.total_frames = state.total_frames + 1;
    if elapsed_secs >= 1 {
        let sample: usize = state.frames_received;
        state.frames_received = 0;
        Some(sample)
    } else {
        None
    }
}

/// The state after the frames `frames` (each with the whole seconds since
/// the last sample at its arrival) were recorded in turn from `s`.
pub open spec fn frames_recorded(s: ServerState, frames: Seq<(FrameData, u64)>) -> ServerState
    decreases frames.len(),
{
    if frames.len() == 0 {
        s
    } else {
        let before = frames_recorded(s, frames.drop_last());
        frame_recorded(before, frames.last().0, frames.last().1)
    }
}

/// Over any run of received frames from a state whose period count is at
/// most its total, as from `ServerState::new`: the total grows by exactly
/// the number of frames, the period count never exceeds the total, the
/// client count is untouched, the last frame is the current one, and no
/// frame-rate sample counts more frames than the total so far.
///
/// `process_frame` changes the state exactly as `frame_recorded` and returns
/// `fps_sample`, so a run of its calls from a state `s` leaves
/// `frames_recorded(s, run)`; the bound on the run's length is the one that
/// `process_frame`'s counters need not to overflow.
pub proof fn lemma_frame_counts(s: ServerState, frames: Seq<(FrameData, u64)>)
    requires
        s.frames_received <= s.total_frames,
        s.total_frames + frames.len() <= usize::MAX,
    ensures
        frames_recorded(s, frames).total_frames == s.total_frames + frames.len(),
        frames_recorded(s, frames).frames_received <= frames_recorded(s, frames).total_frames,
        frames_recorded(s, frames).connected_clients == s.connected_clients,
        frames.len() > 0 ==> frames_recorded(s, frames).current_frame == Some(frames.last().0),
        forall|k: int|
            0 <= k < frames.len() ==> (#[trigger] fps_sample(frames_recorded(s, frames.take(k)), frames[k].1)
                matches Some(n) ==> n <= frames_recorded(s, frames.take(k + 1)).total_frames),
    decreases frames.len(),
{
    if frames.len() > 0 {
        lemma_frame_counts(s, frames.drop_last());
    }
    assert forall|k: int|
        0 <= k < frames.len() implies (#[trigger] fps_sample(frames_recorded(s, frames.take(k)), frames[k].1)
            matches Some(n) ==> n <= frames_recorded(s, frames.take(k + 1)).total_frames) by {
        let prefix = frames.take(k + 1);
        lemma_frame_counts(s, frames.take(k));
        assert(prefix.drop_last() =~= frames.take(k));
        assert(prefix.last() == frames[k]);
    }
}

/// Whether a message queued for a client is sent on its stream: only
/// capture toggles are.
pub fn forwards_to_client(msg: &ServerMessage) -> (r: bool)
    ensures
        r == (msg is ToggleCapture),
{
    match msg {
        ServerMessage::ToggleCapture { .. } => true,
        _ => false,
    }
}

/// The display window's side of the capture toggle.
#[derive(Debug, Clone, Copy, PartialEq, Eq)]
pub struct DisplayState {
    pub capture_enabled: bool,
}

impl DisplayState {
    /// Capture starts enabled.
    pub fn new() -> (s: Self)
        ensures
            s.capture_enabled,
    {
        DisplayState { capture_enabled: true }
    }

    /// The toggle key was pressed: flips the capture state and returns the
    /// message that tells the clients.
    pub fn toggle_capture(&mut self) -> (msg: ServerMessage)
        ensures
            *final(self) == toggled(*old(self)),
            msg == (ServerMessage::ToggleCapture { enabled: final(self).capture_enabled }),
    {
        self.capture_enabled = !self.capture_enabled;
        ServerMessage::ToggleCapture { enabled: self.capture_enabled }
    }
}

/// The display state after one press of the toggle key.
pub open spec fn toggled(s: DisplayState) -> DisplayState {
    DisplayState { capture_enabled: !s.capture_enabled }
}

/// Pressing the toggle key twice gives back the state it started from.
pub proof fn lemma_toggle_twice(s: DisplayState)
    ensures
        toggled(toggled(s)) == s,
{
}

/// The display state after `k` presses of the toggle key from `s`.
pub open spec fn toggled_times(s: DisplayState, k: nat) -> DisplayState
    decreases k,
{
    if k == 0 {
        s
    } else {
        toggled(toggled_times(s, (k - 1) as nat))
    }
}

/// After `k` presses from the start (capture on), capture is on exactly
/// when `k` is even; so the `k`-th press tells the clients
/// `ToggleCapture { enabled: k % 2 == 0 }`: off, on, off, ...
pub proof fn lemma_toggle_parity(k: nat)
    ensures
        toggled_times(DisplayState { capture_enabled: true }, k).capture_enabled == (k % 2 == 0),
    decreases k,
{
    if k > 0 {
        lemma_toggle_parity((k - 1) as nat);
    }
}

/// The server's hello: its id is `cleverest-server-` followed by `instance`
/// (a fresh unique text per connection), with the server's `version`.
pub fn server_hello(instance: &str, version: &str) -> (r: ServerMessage)
    ensures
        r matches ServerMessage::Hello { server_id, server_version } && server_id@ == "cleverest-server-"@
            + instance@ && server_version@ == version@,
{
    let mut server_id = String::from_str("cleverest-server-");
    server_id.append(instance);
    ServerMessage::Hello { server_id, server_version: String::from_str(version) }
}

} // verus!
