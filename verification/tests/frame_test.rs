//! Framing: round trips, the oversize guard, and the WebSocket payload
//! classification.

use cable::error::Error;
use cable::network::frame::{body_len_ok, encode_frame, encode_frame_header, parse_frame,
    parse_frame_header};
use cable::network::ws::read::{WsPayload, extract_frame};

#[test]
fn frame_round_trip() {
    let body: Vec<u8> = vec![0x01, 0x02, 0x03];
    let frame = encode_frame(101, body.as_slice());
    assert_eq!(frame.len(), 11);
    assert_eq!(&frame[..8], &[101, 0, 0, 0, 3, 0, 0, 0]);
    let (proto_id, body_len) = parse_frame_header(frame.as_slice());
    assert_eq!(proto_id, 101);
    assert_eq!(body_len, 3);
    let (pid2, body2) = parse_frame(frame.as_slice()).unwrap();
    assert_eq!(pid2, 101);
    assert_eq!(body2, body);
}

#[test]
fn frame_header_big_values() {
    let h = encode_frame_header(0xdead_beef, 0x0012_3456);
    let (p, l) = parse_frame_header(h.as_slice());
    assert_eq!(p, 0xdead_beef);
    assert_eq!(l, 0x0012_3456);
}

#[test]
fn oversize_body_rejected_on_header_alone() {
    // A header claiming 10 MiB is refused before any body byte is read.
    assert!(!body_len_ok(10 * 1024 * 1024));
    assert!(!body_len_ok(10 * 1024 * 1024 - 8));
    assert!(body_len_ok(10 * 1024 * 1024 - 9));
    let h = encode_frame_header(101, 10 * 1024 * 1024);
    let r = cable::network::tcp::read::check_frame_header(h.as_slice());
    assert!(r.is_err());
    let ok = cable::network::tcp::read::check_frame_header(
        encode_frame(101, &[9u8]).as_slice(),
    );
    assert_eq!(ok.unwrap(), (101, 1));
}

#[test]
fn ws_payload_classification() {
    let frame = encode_frame(7, &[1, 2]);
    match extract_frame(WsPayload::Binary(frame)) {
        Ok(Some((pid, body))) => {
            assert_eq!(pid, 7);
            assert_eq!(body, vec![1, 2]);
        }
        other => panic!("binary frame should parse: {:?}", other.is_ok()),
    }
    // Control and text frames carry no data.
    assert!(matches!(extract_frame(WsPayload::Ping), Ok(None)));
    assert!(matches!(extract_frame(WsPayload::Pong), Ok(None)));
    assert!(matches!(extract_frame(WsPayload::Text("hi".to_string())), Ok(None)));
    assert!(matches!(extract_frame(WsPayload::Fragment), Ok(None)));
    // Close terminates.
    assert!(extract_frame(WsPayload::Close).is_err());
    // A binary frame whose claimed length disagrees with the buffer fails.
    let mut bad = encode_frame(7, &[1, 2]);
    bad.push(0xff);
    assert!(extract_frame(WsPayload::Binary(bad)).is_err());
    // A short binary frame fails.
    assert!(extract_frame(WsPayload::Binary(vec![1, 2, 3])).is_err());
}

#[test]
fn frame_errors_are_messages() {
    match parse_frame(&[0u8; 4]) {
        Err(Error::Message(m)) => assert!(m.len() > 0),
        _ => panic!("short buffer must yield a Message error"),
    }
}
