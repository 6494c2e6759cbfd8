use rsrpc::codec::{decode, decode_header, encode, payload_text, FrameError, PacketType};

#[test]
fn encode_writes_header_then_payload() {
    let b = encode(PacketType::Frame, "ab".to_string());
    assert_eq!(b, vec![1, 0, 0, 0, 2, 0, 0, 0, b'a', b'b']);
}

#[test]
fn encode_counts_bytes_not_chars() {
    let b = encode(PacketType::Ping, "é".to_string());
    assert_eq!(&b[0..8], &[3, 0, 0, 0, 2, 0, 0, 0]);
    assert_eq!(b.len(), 10);
}

#[test]
fn frame_round_trip_every_op() {
    for op in [PacketType::Handshake, PacketType::Frame, PacketType::Close, PacketType::Ping, PacketType::Pong] {
        let payload = "{\"v\":1,\"client_id\":\"999\"}".to_string();
        let b = encode(op, payload.clone());
        let (back_op, back) = decode(&b).unwrap();
        assert_eq!(back_op, op);
        assert_eq!(payload_text(back), Some(payload));
    }
}

#[test]
fn frame_round_trip_empty_payload() {
    let b = encode(PacketType::Close, String::new());
    assert_eq!(b.len(), 8);
    let (op, p) = decode(&b).unwrap();
    assert_eq!(op, PacketType::Close);
    assert!(p.is_empty());
}

#[test]
fn decode_short_header() {
    assert_eq!(decode(&vec![1, 0, 0]).unwrap_err(), FrameError::ShortRead);
    assert_eq!(decode_header(&vec![0, 0, 0, 0, 5, 0, 0]).unwrap_err(), FrameError::ShortRead);
}

#[test]
fn decode_short_payload() {
    let mut b = encode(PacketType::Frame, "hello".to_string());
    b.pop();
    assert_eq!(decode(&b).unwrap_err(), FrameError::ShortRead);
}

#[test]
fn decode_ignores_trailing_bytes() {
    let mut b = encode(PacketType::Pong, "x".to_string());
    b.push(7);
    let (op, p) = decode(&b).unwrap();
    assert_eq!(op, PacketType::Pong);
    assert_eq!(p, vec![b'x']);
}

#[test]
fn unknown_opcode_reads_as_frame() {
    assert_eq!(PacketType::from_u32(7), PacketType::Frame);
    assert_eq!(PacketType::from_u32(0), PacketType::Handshake);
    assert_eq!(PacketType::from_u32(4), PacketType::Pong);
    let (op, len) = decode_header(&vec![9, 0, 0, 0, 0, 1, 0, 0]).unwrap();
    assert_eq!(op, PacketType::Frame);
    assert_eq!(len, 256);
}

#[test]
fn payload_text_rejects_invalid_utf8() {
    assert_eq!(payload_text(vec![0xff, 0xfe]), None);
    assert_eq!(payload_text(vec![b'o', b'k']), Some("ok".to_string()));
}
