use alvr_transport::handshake::{
    decode_handshake_packet, encode_handshake_packet, HandshakeBroadcaster, HandshakeClassification,
    HandshakeListener, CONTROL_PORT, HANDSHAKE_PACKET_SIZE_BYTES,
};

const LOCAL_ID: u64 = 0x0123456789abcdef;

#[test]
fn constants_match_the_wire_format() {
    assert_eq!(HANDSHAKE_PACKET_SIZE_BYTES, 24);
    assert_eq!(CONTROL_PORT, 9943);
}

#[test]
fn encoded_packet_has_the_exact_layout() {
    let packet = encode_handshake_packet(&b"ALVR".to_vec(), LOCAL_ID);
    assert_eq!(packet.len(), 24);
    assert_eq!(&packet[0..4], b"ALVR");
    assert_eq!(&packet[4..16], &[0u8; 12]);
    assert_eq!(
        &packet[16..24],
        &[0xef, 0xcd, 0xab, 0x89, 0x67, 0x45, 0x23, 0x01]
    );
}

#[test]
fn encode_then_decode_recovers_name_and_id() {
    let packet = encode_handshake_packet(&b"ALVR".to_vec(), LOCAL_ID);
    let (name, id) = decode_handshake_packet(&packet).unwrap();
    assert_eq!(name, b"ALVR".to_vec());
    assert_eq!(id, LOCAL_ID);
}

#[test]
fn decode_refuses_any_other_size() {
    assert!(decode_handshake_packet(&vec![0u8; 23]).is_none());
    assert!(decode_handshake_packet(&vec![0u8; 25]).is_none());
    assert!(decode_handshake_packet(&Vec::new()).is_none());
}

#[test]
fn broadcaster_packet_is_fixed_across_calls() {
    let broadcaster = HandshakeBroadcaster::new(LOCAL_ID);
    let expected = encode_handshake_packet(&b"ALVR".to_vec(), LOCAL_ID);
    let first = broadcaster.packet().clone();
    for _ in 0..10 {
        assert_eq!(broadcaster.packet(), &first);
    }
    assert_eq!(first, expected);
}

#[test]
fn matching_packet_is_classified_compatible() {
    let listener = HandshakeListener::new(LOCAL_ID);
    let packet = encode_handshake_packet(&b"ALVR".to_vec(), LOCAL_ID);
    assert_eq!(listener.classify(&packet), HandshakeClassification::Compatible);
}

#[test]
fn different_protocol_id_is_classified_wrong_version_with_both_ids() {
    let listener = HandshakeListener::new(LOCAL_ID);
    let packet = encode_handshake_packet(&b"ALVR".to_vec(), 42);
    assert_eq!(
        listener.classify(&packet),
        HandshakeClassification::WrongVersion { expected: LOCAL_ID, received: 42 }
    );
}

#[test]
fn first_legacy_signature_is_recognized() {
    // Four null bytes, the 64-bit little-endian value 4, then the marker.
    let mut packet = vec![0u8; 4];
    packet.extend_from_slice(&[4, 0, 0, 0, 0, 0, 0, 0]);
    packet.extend_from_slice(b"ALVR");
    let listener = HandshakeListener::new(LOCAL_ID);
    assert_eq!(listener.classify(&packet), HandshakeClassification::LegacyV14ToV18);
    // The signature is a prefix: trailing bytes do not matter.
    packet.extend_from_slice(&[7u8; 8]);
    assert_eq!(listener.classify(&packet), HandshakeClassification::LegacyV14ToV18);
}

#[test]
fn second_legacy_signature_is_recognized() {
    let mut packet = vec![1u8];
    packet.extend_from_slice(b"ALVR");
    let listener = HandshakeListener::new(LOCAL_ID);
    assert_eq!(listener.classify(&packet), HandshakeClassification::LegacyV11OrOlder);
    packet.extend_from_slice(&[0u8; 19]);
    assert_eq!(listener.classify(&packet), HandshakeClassification::LegacyV11OrOlder);
}

#[test]
fn unrelated_bytes_are_classified_noise() {
    let listener = HandshakeListener::new(LOCAL_ID);
    assert_eq!(listener.classify(&Vec::new()), HandshakeClassification::Noise);
    assert_eq!(listener.classify(&vec![9u8; 24]), HandshakeClassification::Noise);
    assert_eq!(listener.classify(&b"GET / HTTP/1.1".to_vec()), HandshakeClassification::Noise);
    // Right size, wrong name field.
    let mut packet = vec![0x41u8; 24];
    packet[1] = 0x42;
    assert_eq!(listener.classify(&packet), HandshakeClassification::Noise);
    // The first legacy signature with the wrong middle value is noise.
    let mut almost = vec![0u8; 4];
    almost.extend_from_slice(&[5, 0, 0, 0, 0, 0, 0, 0]);
    almost.extend_from_slice(b"ALVR");
    assert_eq!(listener.classify(&almost), HandshakeClassification::Noise);
}
