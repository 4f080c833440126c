use alvr_transport::packets::{
    BatteryPacket, ButtonValue, ClientControlPacket, ClientListAction, ClientRequestPacket,
    GpuVendor, Haptics, Input, LegacyInput, MotionData, PathSegment, PeerAddress,
    ServerControlPacket, ServerHandshakePacket, StreamConfigResponse, TimeSpan, TimeSyncPacket,
    UVec2, AUDIO, EVENT, HAPTICS, INPUT, REQUEST, VIDEO,
};
use alvr_transport::version::SemVer;
use std::collections::HashMap;

#[test]
fn stream_ids_are_distinct_and_stable() {
    assert_eq!(EVENT, 0);
    assert_eq!(REQUEST, 1);
    assert_eq!(INPUT, 2);
    assert_eq!(HAPTICS, 3);
    assert_eq!(AUDIO, 4);
    assert_eq!(VIDEO, 5);
}

#[test]
fn handshake_response_carries_the_server_version() {
    let packet = ServerHandshakePacket::IncompatibleVersions {
        server_version: SemVer { major: 16, minor: 0, patch: 0, pre: Vec::new(), build: Vec::new() },
    };
    match packet {
        ServerHandshakePacket::IncompatibleVersions { server_version } => {
            assert_eq!(server_version.major, 16);
        }
        ServerHandshakePacket::ClientUntrusted => panic!("wrong variant"),
    }
}

#[test]
fn control_packets_keep_their_payloads() {
    let battery = BatteryPacket { device_id: 3, gauge_value: 0x3f000000, is_plugged: true };
    let packet = ClientControlPacket::Battery(battery);
    assert!(matches!(
        packet,
        ClientControlPacket::Battery(BatteryPacket { device_id: 3, .. })
    ));
    let reserved = ServerControlPacket::Reserved(String::from("future"));
    assert!(matches!(reserved, ServerControlPacket::Reserved(ref s) if s == "future"));
    let sync = ServerControlPacket::TimeSync(TimeSyncPacket::default());
    assert!(matches!(sync, ServerControlPacket::TimeSync(t) if t.server_time == 0));
}

#[test]
fn input_holds_motion_samples_keyed_by_device_id() {
    let mut button_values = HashMap::new();
    button_values.insert(11u64, ButtonValue::Binary(true));
    button_values.insert(12u64, ButtonValue::Scalar(0x3f800000));
    let input = Input {
        target_timestamp: TimeSpan { secs: 1, nanos: 500_000_000 },
        device_motions: vec![(7, MotionData::default())],
        left_hand_tracking: None,
        right_hand_tracking: None,
        button_values,
        legacy: LegacyInput::default(),
    };
    assert_eq!(input.device_motions[0].0, 7);
    assert!(matches!(input.button_values[&11], ButtonValue::Binary(true)));
    assert_eq!(input.legacy.controllers.len(), 2);
    assert_eq!(input.legacy.controllers[0].bone_rotations.len(), 19);
}

#[test]
fn haptics_and_responses_hold_plain_values() {
    let pulse = Haptics {
        path: 99,
        duration: TimeSpan { secs: 0, nanos: 20_000_000 },
        frequency: 0x42c80000,
        amplitude: 0x3f000000,
    };
    assert_eq!(pulse.path, 99);
    let response = StreamConfigResponse::Success {
        view_size: UVec2 { x: 1920, y: 1080 },
        fps: 0x42900000,
        game_audio_sample_rate: 48000,
    };
    assert!(matches!(
        response,
        StreamConfigResponse::Success { view_size: UVec2 { x: 1920, y: 1080 }, .. }
    ));
    assert_eq!(ClientRequestPacket::Session, ClientRequestPacket::Session);
    assert_ne!(GpuVendor::Nvidia, GpuVendor::Amd);
}

#[test]
fn client_list_actions_carry_peer_addresses() {
    let action = ClientListAction::TrustAndMaybeAddIp(Some(PeerAddress::V4(0xc0a80101)));
    assert!(matches!(
        action,
        ClientListAction::TrustAndMaybeAddIp(Some(PeerAddress::V4(0xc0a80101)))
    ));
    let removal = ClientListAction::RemoveIpOrEntry(None);
    assert!(matches!(removal, ClientListAction::RemoveIpOrEntry(None)));
    let segment = PathSegment::Index(4);
    assert!(matches!(segment, PathSegment::Index(4)));
}
