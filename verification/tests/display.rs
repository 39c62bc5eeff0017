use cleverest::common::protocol::{FrameData, PixelFormat};
use cleverest::server::{needs_window_resize, render_frame, DisplayState};
use cleverest::common::protocol::ServerMessage;

fn frame(width: u32, height: u32, data: Vec<u8>, format: PixelFormat) -> FrameData {
    FrameData { width, height, timestamp: 7, data, format, compressed: false, key_frame: true }
}

#[test]
fn bgra_pixels_become_argb_words() {
    let f = frame(2, 1, vec![0x10, 0x20, 0x30, 0x40, 0xff, 0x00, 0x80, 0x01], PixelFormat::BGRA);
    let mut buffer = vec![0u32; 5];
    assert!(render_frame(&mut buffer, false, &f));
    assert_eq!(buffer, vec![0x4030_2010, 0x0180_00ff]);
}

#[test]
fn pixels_without_four_bytes_keep_their_old_value() {
    // Two pixels, but only the first has its four bytes; the buffer grows to two.
    let f = frame(2, 1, vec![1, 2, 3, 4, 9, 9, 9], PixelFormat::BGRA);
    let mut buffer = vec![0xdead_beef_u32];
    assert!(render_frame(&mut buffer, false, &f));
    assert_eq!(buffer, vec![0x0403_0201, 0]);

    let mut longer = vec![5u32, 6, 7];
    assert!(render_frame(&mut longer, false, &f));
    assert_eq!(longer, vec![0x0403_0201, 6]);
}

#[test]
fn other_formats_are_not_drawn() {
    let f = frame(2, 2, vec![1; 16], PixelFormat::RGBA);
    let mut buffer = vec![3u32; 6];
    assert!(!render_frame(&mut buffer, false, &f));
    assert_eq!(buffer, vec![3u32; 6]);
    // A recreated window still gives the buffer the frame's size.
    assert!(!render_frame(&mut buffer, true, &f));
    assert_eq!(buffer, vec![3u32; 4]);
    let mut small = vec![8u32];
    assert!(!render_frame(&mut small, true, &f));
    assert_eq!(small, vec![8, 0, 0, 0]);
}

#[test]
fn window_is_recreated_only_on_a_size_change() {
    let f = frame(800, 600, vec![], PixelFormat::BGRA);
    assert!(!needs_window_resize(800, 600, &f));
    assert!(needs_window_resize(800, 601, &f));
    assert!(needs_window_resize(1024, 600, &f));
}

#[test]
fn toggle_key_flips_capture_and_tells_clients() {
    let mut display = DisplayState::new();
    assert!(display.capture_enabled);
    assert_eq!(display.toggle_capture(), ServerMessage::ToggleCapture { enabled: false });
    assert!(!display.capture_enabled);
    assert_eq!(display.toggle_capture(), ServerMessage::ToggleCapture { enabled: true });
    assert_eq!(display, DisplayState::new());
}
