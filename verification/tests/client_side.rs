use cleverest::client::{
    accept_server_hello, blank_frame_data, capture_parameters, client_hello, handle_server_message,
    next_frame, receive_step, CapturedImage, ClientSettings, ControlMessage, ReceiveStep,
    ServerReaction,
};
use cleverest::common::protocol::{ClientMessage, HandshakeError, PixelFormat, ServerMessage, StreamEvent};

fn settings() -> ClientSettings {
    ClientSettings { fps: 30, quality: 80, active_capture: true }
}

#[test]
fn configuration_messages_change_one_setting() {
    let mut s = settings();
    assert_eq!(handle_server_message(ServerMessage::ConfigureQuality { quality: 40 }, &mut s, 0), ServerReaction::Reconfigured);
    assert_eq!(s, ClientSettings { fps: 30, quality: 40, active_capture: true });
    assert_eq!(handle_server_message(ServerMessage::ConfigureFrameRate { fps: 10 }, &mut s, 0), ServerReaction::Reconfigured);
    assert_eq!(s, ClientSettings { fps: 10, quality: 40, active_capture: true });
    assert_eq!(handle_server_message(ServerMessage::ToggleCapture { enabled: false }, &mut s, 0), ServerReaction::Reconfigured);
    assert_eq!(s, ClientSettings { fps: 10, quality: 40, active_capture: false });
}

#[test]
fn acknowledgements_give_the_latency() {
    let mut s = settings();
    let r = handle_server_message(ServerMessage::FrameAck { timestamp: 1000, received_at: 1010 }, &mut s, 1025);
    assert_eq!(r, ServerReaction::Latency { latency: 25, received_at: 1010 });
    // A clock behind the frame's timestamp gives no negative latency.
    let r = handle_server_message(ServerMessage::FrameAck { timestamp: 1000, received_at: 1010 }, &mut s, 900);
    assert_eq!(r, ServerReaction::Latency { latency: 0, received_at: 1010 });
    assert_eq!(s, settings());
}

#[test]
fn requests_and_goodbye_become_control_messages() {
    let mut s = settings();
    assert_eq!(handle_server_message(ServerMessage::RequestKeyFrame, &mut s, 0), ServerReaction::Control(ControlMessage::RequestKeyFrame));
    assert_eq!(handle_server_message(ServerMessage::Goodbye, &mut s, 0), ServerReaction::Control(ControlMessage::Shutdown));
    let hello = ServerMessage::Hello { server_id: "s".to_string(), server_version: "v".to_string() };
    assert_eq!(handle_server_message(hello, &mut s, 0), ServerReaction::Unexpected);
    assert_eq!(s, settings());
}

#[test]
fn receive_loop_stops_at_the_end_of_the_stream() {
    let mut s = settings();
    assert_eq!(receive_step(StreamEvent::Undecodable, &mut s, 0), ReceiveStep::Skip);
    assert_eq!(receive_step(StreamEvent::Empty, &mut s, 0), ReceiveStep::Stop);
    assert_eq!(receive_step(StreamEvent::Finished, &mut s, 0), ReceiveStep::Stop);
    assert_eq!(receive_step(StreamEvent::Failed, &mut s, 0), ReceiveStep::Stop);
    assert_eq!(
        receive_step(StreamEvent::Message(ServerMessage::ConfigureFrameRate { fps: 5 }), &mut s, 0),
        ReceiveStep::Handled(ServerReaction::Reconfigured)
    );
    assert_eq!(s.fps, 5);
}

#[test]
fn handshake_accepts_only_the_server_hello() {
    let hello = ServerMessage::Hello { server_id: "cleverest-server-x".to_string(), server_version: "0.1.0".to_string() };
    assert_eq!(
        accept_server_hello(StreamEvent::Message(hello)),
        Ok(("cleverest-server-x".to_string(), "0.1.0".to_string()))
    );
    assert_eq!(accept_server_hello(StreamEvent::Message(ServerMessage::Goodbye)), Err(HandshakeError::UnexpectedMessage));
    assert_eq!(accept_server_hello(StreamEvent::Finished), Err(HandshakeError::ConnectionClosed));
    assert_eq!(accept_server_hello(StreamEvent::Undecodable), Err(HandshakeError::Undecodable));
    assert_eq!(accept_server_hello(StreamEvent::Failed), Err(HandshakeError::ReadFailed));
}

#[test]
fn client_hello_carries_its_id_and_version() {
    assert_eq!(
        client_hello("abc", "0.1.0"),
        ClientMessage::Hello { client_id: "cleverest-client-abc".to_string(), client_version: "0.1.0".to_string() }
    );
}

#[test]
fn blank_frames_have_four_zero_bytes_per_pixel() {
    let blank = blank_frame_data(3, 2);
    assert_eq!(blank, vec![0u8; 24]);
    assert!(blank_frame_data(0, 5).is_empty());
}

#[test]
fn captured_image_is_sent_only_when_capture_is_on() {
    let blank = blank_frame_data(2, 1);
    let image = CapturedImage { width: 1, height: 1, data: vec![9, 8, 7, 6] };
    let f = next_frame(true, Some(image.clone()), 2, 1, 55, &blank);
    assert_eq!((f.width, f.height, f.timestamp, f.data.clone()), (1, 1, 55, vec![9, 8, 7, 6]));
    assert_eq!(f.format, PixelFormat::BGRA);
    assert!(f.key_frame && !f.compressed);

    let off = next_frame(false, Some(image), 2, 1, 56, &blank);
    assert_eq!((off.width, off.height, off.timestamp, off.data), (2, 1, 56, vec![0u8; 8]));
    let failed = next_frame(true, None, 2, 1, 57, &blank);
    assert_eq!(failed.data, vec![0u8; 8]);
}

#[test]
fn unreadable_settings_mean_thirty_fps_without_capture() {
    assert_eq!(capture_parameters(None), (30, false));
    assert_eq!(capture_parameters(Some(ClientSettings { fps: 12, quality: 1, active_capture: true })), (12, true));
}
