//! The variable-length integer codec and the packet framing, exercised on
//! concrete values.

use ckb_script_ipc::error::{IpcError, ProtocolErrorCode};
use ckb_script_ipc::packet::{Packet, RequestPacket, ResponsePacket};
use ckb_script_ipc::vlq::{vlq_decode, vlq_encode};

#[test]
fn test_vlq_encode() {
    assert_eq!(vlq_encode(0), vec![0]);
    assert_eq!(vlq_encode(127), vec![127]);
    assert_eq!(vlq_encode(128), vec![128, 1]);
    assert_eq!(vlq_encode(16384), vec![128, 128, 1]);
    assert_eq!(
        vlq_encode(u64::MAX),
        vec![255, 255, 255, 255, 255, 255, 255, 255, 255, 1]
    );
}

#[test]
fn test_vlq_decode() {
    assert_eq!(vlq_decode(&[0]).unwrap(), 0);
    assert_eq!(vlq_decode(&[127]).unwrap(), 127);
    assert_eq!(vlq_decode(&[128, 1]).unwrap(), 128);
    assert_eq!(vlq_decode(&[128, 128, 1]).unwrap(), 16384);
    assert_eq!(
        vlq_decode(&[255, 255, 255, 255, 255, 255, 255, 255, 255, 1]).unwrap(),
        u64::MAX
    );
}

#[test]
fn test_vlq_encode_decode_roundtrip() {
    let test_values = vec![0, 1, 127, 128, 16383, 16384, u64::MAX / 2, u64::MAX];
    for value in test_values {
        let encoded = vlq_encode(value);
        let decoded = vlq_decode(&encoded).unwrap();
        assert_eq!(decoded, value, "Roundtrip failed for value: {}", value);
    }
}

#[test]
fn test_vlq_decode_errors() {
    assert!(matches!(
        vlq_decode(&[128, 128, 128, 128, 128, 128, 128, 128, 128, 128]),
        Err(IpcError::DecodeVlqOverflow)
    ));
    assert!(matches!(
        vlq_decode(&[128]),
        Err(IpcError::IncompleteVlqSeq)
    ));
}

#[test]
fn test_vlq_minimal_length() {
    assert_eq!(vlq_encode(0).len(), 1);
    assert_eq!(vlq_encode(127).len(), 1);
    assert_eq!(vlq_encode(128).len(), 2);
    assert_eq!(vlq_encode(16383).len(), 2);
    assert_eq!(vlq_encode(16384).len(), 3);
    assert_eq!(vlq_encode(u64::MAX).len(), 10);
}

#[test]
fn test_vlq_decode_ignores_trailing_bytes() {
    assert_eq!(vlq_decode(&[5, 200, 201]).unwrap(), 5);
    assert_eq!(vlq_decode(&[128, 1, 77]).unwrap(), 128);
}

#[test]
fn test_request_packet_roundtrip() {
    let payload = vec![1u8, 2, 3, 250, 0, 255];
    let packet = RequestPacket::new(payload.clone());
    assert_eq!(packet.version(), 0);
    assert_eq!(packet.method_id(), 0);
    let bytes = packet.serialize();
    // version 0, method id 0, length 6, then the payload verbatim
    assert_eq!(&bytes[..3], &[0, 0, 6]);
    assert_eq!(&bytes[3..], &payload[..]);
    let mut stream: &[u8] = &bytes;
    let back = RequestPacket::read_from(&mut stream).unwrap();
    assert_eq!(back.version(), 0);
    assert_eq!(back.method_id(), 0);
    assert_eq!(back.payload(), &payload[..]);
    assert!(stream.is_empty());
}

#[test]
fn test_response_packet_roundtrip() {
    let payload = vec![9u8; 300];
    let packet = ResponsePacket::new(23, payload.clone());
    let bytes = packet.serialize();
    // version 0, error code 23, then a two-byte length of 300
    assert_eq!(&bytes[..4], &[0, 23, 172, 2]);
    let mut stream: &[u8] = &bytes;
    let back = ResponsePacket::read_from(&mut stream).unwrap();
    assert_eq!(back.version(), 0);
    assert_eq!(back.error_code(), 23);
    assert_eq!(back.payload(), &payload[..]);
    assert!(stream.is_empty());
}

#[test]
fn test_packet_read_from_truncated_stream() {
    let packet = RequestPacket::new(vec![1, 2, 3, 4]);
    let bytes = packet.serialize();
    let mut stream: &[u8] = &bytes[..bytes.len() - 1];
    assert!(matches!(
        RequestPacket::read_from(&mut stream),
        Err(IpcError::ReadExactError)
    ));
}

#[test]
fn test_packet_payload_hex() {
    let packet = RequestPacket::new(vec![0xab, 0x01, 0xef]);
    assert_eq!(packet.payload_hex(), "ab01ef");
    let packet = ResponsePacket::new(0, vec![]);
    assert_eq!(packet.payload_hex(), "");
}

#[test]
fn test_error_code_wire_values() {
    assert_eq!(ProtocolErrorCode::Success.value(), 0);
    assert_eq!(ProtocolErrorCode::IndexOutOfBound.value(), 1);
    assert_eq!(ProtocolErrorCode::OtherEndClosed.value(), 7);
    assert_eq!(ProtocolErrorCode::MaxFdsCreated.value(), 9);
    assert_eq!(ProtocolErrorCode::UnknownError.value(), 20);
    assert_eq!(ProtocolErrorCode::DecodeVlqOverflow.value(), 24);
    assert_eq!(ProtocolErrorCode::GeneralIoError.value(), 28);
    assert!(matches!(
        ProtocolErrorCode::from_value(7),
        ProtocolErrorCode::OtherEndClosed
    ));
    assert!(matches!(
        ProtocolErrorCode::from_value(1000),
        ProtocolErrorCode::UnknownError
    ));
    let e = IpcError::IncompleteVlqSeq;
    assert_eq!(e.protocol_code().value(), 23);
}
