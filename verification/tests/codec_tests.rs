//! Tests of the wire framing.

use tree_sitter_lsp_experiment::codec::decode_frame;
use tree_sitter_lsp_experiment::codec::encode_frame;
use tree_sitter_lsp_experiment::codec::DecodeStep;
use tree_sitter_lsp_experiment::codec::FrameError;

#[test]
fn encode_known_frame() {
    let frame = encode_frame(b"hello");
    assert_eq!(frame, b"Content-Length: 5\r\n\r\nhello".to_vec());
}

#[test]
fn encode_empty_frame() {
    let frame = encode_frame(b"");
    assert_eq!(frame, b"Content-Length: 0\r\n\r\n".to_vec());
}

#[test]
fn round_trip_framing() {
    // Encoding a payload of length L and decoding the frame recovers
    // exactly L bytes, equal to the original.
    let payload = b"{\"jsonrpc\":\"2.0\",\"id\":1,\"method\":\"initialize\",\"params\":{}}";
    let frame = encode_frame(payload);
    match decode_frame(&frame, false) {
        DecodeStep::Done { payload: decoded, consumed } => {
            assert_eq!(decoded.len(), payload.len());
            assert_eq!(decoded, payload.to_vec());
            assert_eq!(consumed, frame.len());
        }
        _ => panic!("expected a decoded frame"),
    }
}

#[test]
fn round_trip_framing_at_eof() {
    let payload = b"abc";
    let frame = encode_frame(payload);
    match decode_frame(&frame, true) {
        DecodeStep::Done { payload: decoded, consumed } => {
            assert_eq!(decoded, payload.to_vec());
            assert_eq!(consumed, frame.len());
        }
        _ => panic!("expected a decoded frame"),
    }
}

#[test]
fn decode_two_frames_in_sequence() {
    let mut stream = encode_frame(b"first");
    stream.extend_from_slice(&encode_frame(b"second"));
    let first_consumed = match decode_frame(&stream, false) {
        DecodeStep::Done { payload, consumed } => {
            assert_eq!(payload, b"first".to_vec());
            consumed
        }
        _ => panic!("expected a decoded frame"),
    };
    match decode_frame(&stream[first_consumed..], true) {
        DecodeStep::Done { payload, consumed } => {
            assert_eq!(payload, b"second".to_vec());
            assert_eq!(first_consumed + consumed, stream.len());
        }
        _ => panic!("expected a decoded frame"),
    }
}

#[test]
fn scenario_truncated_payload() {
    // A header claiming 500 payload bytes over a stream that closes after
    // 10 bytes is a transport-level error, never a short payload.
    let mut bytes = b"Content-Length: 500\r\n\r\n".to_vec();
    bytes.extend_from_slice(b"0123456789");
    match decode_frame(&bytes, true) {
        DecodeStep::Failed(e) => assert_eq!(e, FrameError::Truncated),
        _ => panic!("expected a truncation failure"),
    }
    // While the stream is still open the same bytes simply need more data.
    match decode_frame(&bytes, false) {
        DecodeStep::NeedMore => {}
        _ => panic!("expected to need more bytes"),
    }
}

#[test]
fn decode_incomplete_header() {
    let bytes = b"Content-Length: 5\r\n";
    match decode_frame(bytes, false) {
        DecodeStep::NeedMore => {}
        _ => panic!("expected to need more bytes"),
    }
    match decode_frame(bytes, true) {
        DecodeStep::Failed(e) => assert_eq!(e, FrameError::UnterminatedHeader),
        _ => panic!("expected an unterminated-header failure"),
    }
}

#[test]
fn decode_missing_length() {
    let bytes = b"Content-Type: text\r\n\r\nhello";
    match decode_frame(bytes, true) {
        DecodeStep::Failed(e) => assert_eq!(e, FrameError::MissingLength),
        _ => panic!("expected a missing-length failure"),
    }
}

#[test]
fn decode_bad_length() {
    let bytes = b"Content-Length: 5x\r\n\r\nhello";
    match decode_frame(bytes, true) {
        DecodeStep::Failed(e) => assert_eq!(e, FrameError::BadLength),
        _ => panic!("expected a bad-length failure"),
    }
}

#[test]
fn decode_skips_other_headers() {
    let bytes = b"Content-Type: application/json\r\nContent-Length: 2\r\n\r\nok";
    match decode_frame(bytes, true) {
        DecodeStep::Done { payload, consumed } => {
            assert_eq!(payload, b"ok".to_vec());
            assert_eq!(consumed, bytes.len());
        }
        _ => panic!("expected a decoded frame"),
    }
}
