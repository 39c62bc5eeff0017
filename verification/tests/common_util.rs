use cleverest::common::error::CleverestError;
use cleverest::common::network::{configure_server, generate_self_signed_cert, DEFAULT_PORT};
use cleverest::common::protocol::{FrameData, PixelFormat};
use cleverest::common::util::{bytes_to_image, current_timestamp, image_to_bytes, timestamp_from_elapsed};
use std::time::Duration;

fn frame(width: u32, height: u32, data: Vec<u8>, format: PixelFormat) -> FrameData {
    FrameData { width, height, timestamp: 0, data, format, compressed: false, key_frame: true }
}

#[test]
fn rgba_frame_survives_image_round_trip() {
    let data: Vec<u8> = (0..24).collect();
    let img = bytes_to_image(&frame(3, 2, data.clone(), PixelFormat::RGBA)).unwrap();
    let (bytes, w, h, format) = image_to_bytes(&img).unwrap();
    assert_eq!((bytes.clone(), w, h, format), (data, 3, 2, PixelFormat::RGBA));
    // The parts make the same image again.
    let again = bytes_to_image(&frame(w, h, bytes, format)).unwrap();
    assert_eq!(again, img);
}

#[test]
fn any_image_gives_four_bytes_per_pixel() {
    let gray = image::DynamicImage::ImageLuma8(image::GrayImage::from_raw(2, 2, vec![1, 2, 3, 4]).unwrap());
    let (bytes, w, h, format) = image_to_bytes(&gray).unwrap();
    assert_eq!((w, h, format), (2, 2, PixelFormat::RGBA));
    assert_eq!(bytes, vec![1, 1, 1, 255, 2, 2, 2, 255, 3, 3, 3, 255, 4, 4, 4, 255]);
    let back = bytes_to_image(&frame(w, h, bytes, format)).unwrap();
    assert_eq!(back, image::DynamicImage::ImageRgba8(gray.to_rgba8()));
}

#[test]
fn extra_bytes_are_dropped_by_the_round_trip() {
    let data: Vec<u8> = (0..10).collect();
    let img = bytes_to_image(&frame(2, 1, data, PixelFormat::RGBA)).unwrap();
    let (bytes, w, h, _) = image_to_bytes(&img).unwrap();
    assert_eq!((bytes, w, h), ((0..8).collect::<Vec<u8>>(), 2, 1));
}

#[test]
fn too_few_bytes_make_no_image() {
    match bytes_to_image(&frame(2, 2, vec![0; 15], PixelFormat::RGBA)) {
        Err(CleverestError::Unknown(m)) => assert_eq!(m, "Failed to create image from raw data"),
        other => panic!("unexpected: {:?}", other),
    }
}

#[test]
fn only_rgba_frames_make_images() {
    for (format, name) in [(PixelFormat::RGB, "RGB"), (PixelFormat::BGR, "BGR"), (PixelFormat::BGRA, "BGRA")] {
        match bytes_to_image(&frame(1, 1, vec![0; 4], format)) {
            Err(CleverestError::Unknown(m)) => assert_eq!(m, format!("Unsupported pixel format: {}", name)),
            other => panic!("unexpected: {:?}", other),
        }
    }
}

#[test]
fn timestamps_are_whole_milliseconds() {
    assert_eq!(timestamp_from_elapsed(Some(Duration::from_micros(1_234_567))), Some(1234));
    assert_eq!(timestamp_from_elapsed(Some(Duration::from_secs(0))), Some(0));
    assert_eq!(timestamp_from_elapsed(None), None);
    let now = current_timestamp().unwrap();
    // 2020-01-01 in milliseconds since the epoch.
    assert!(now > 1_577_836_800_000);
}

#[test]
fn no_self_signed_certificate_is_made() {
    match generate_self_signed_cert() {
        Err(CleverestError::Config(m)) => {
            assert_eq!(m, "Not implemented: Use proper certificates in production")
        }
        _ => panic!("expected a configuration error"),
    }
}

#[test]
fn server_config_needs_a_usable_key() {
    let bad = configure_server(vec![rustls::Certificate(vec![1, 2, 3])], rustls::PrivateKey(vec![0; 8]));
    match bad {
        Err(CleverestError::Config(m)) => {
            assert_eq!(m, "Failed to configure server: unexpected error: invalid private key")
        }
        _ => panic!("expected a configuration error"),
    }
    let cert = rcgen::generate_simple_self_signed(vec!["localhost".to_string()]).unwrap();
    let chain = vec![rustls::Certificate(cert.serialize_der().unwrap())];
    let key = rustls::PrivateKey(cert.serialize_private_key_der());
    assert!(configure_server(chain, key).is_ok());
}

#[test]
fn default_port() {
    assert_eq!(DEFAULT_PORT, 14389);
}

#[test]
fn alpn_protocol_is_the_application_name() {
    assert_eq!(&cleverest::common::network::ALPN_PROTOCOL, b"cleverest");
}
