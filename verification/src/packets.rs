//! Catalog of the message shapes carried over the stream transport. The
//! framing layer treats every payload as an opaque byte blob tagged by a
//! stream id; these are the shapes those blobs decode to.
//!
//! Scalar quantities that are fractional on the wire (refresh rates, field
//! of view angles, battery gauge, haptic frequency and amplitude, poses)
//! are carried here as their 32-bit IEEE 754 bit patterns, so that every
//! shape is made of plain integer values.

use vstd::prelude::*;
use crate::version::SemVer;

verus! {

/// Stream id of free-form event notifications either side may send.
pub const EVENT: u16 = 0;

/// Stream id of client-to-server requests that block the client until
/// answered.
pub const REQUEST: u16 = 1;

/// Stream id of tracking and button input.
pub const INPUT: u16 = 2;

/// Stream id of haptic feedback.
pub const HAPTICS: u16 = 3;

/// Stream id of audio.
pub const AUDIO: u16 = 4;

/// Stream id of video.
pub const VIDEO: u16 = 5;

/// A pair of unsigned extents, such as a view size in pixels.
#[derive(Clone, Copy, Debug, Default, PartialEq, Eq, Structural)]
pub struct UVec2 {
    pub x: u32,
    pub y: u32,
}

/// A planar vector; each component is an IEEE 754 bit pattern.
#[derive(Clone, Copy, Debug, Default, PartialEq, Eq, Structural)]
pub struct Vec2 {
    pub x: u32,
    pub y: u32,
}

/// A spatial vector; each component is an IEEE 754 bit pattern.
#[derive(Clone, Copy, Debug, Default, PartialEq, Eq, Structural)]
pub struct Vec3 {
    pub x: u32,
    pub y: u32,
    pub z: u32,
}

/// A rotation quaternion; each component is an IEEE 754 bit pattern.
#[derive(Clone, Copy, Debug, Default, PartialEq, Eq, Structural)]
pub struct Quat {
    pub x: u32,
    pub y: u32,
    pub z: u32,
    pub w: u32,
}

/// A per-eye field of view; each angle is an IEEE 754 bit pattern.
#[derive(Clone, Copy, Debug, Default, PartialEq, Eq, Structural)]
pub struct Fov {
    pub left: u32,
    pub right: u32,
    pub top: u32,
    pub bottom: u32,
}

/// A span of time as whole seconds and a nanosecond remainder.
#[derive(Clone, Copy, Debug, Default, PartialEq, Eq, Structural)]
pub struct TimeSpan {
    pub secs: u64,
    pub nanos: u32,
}

/// A peer's network address, as plain octet values.
#[derive(Clone, Copy, Debug, PartialEq, Eq, Structural)]
pub enum PeerAddress {
    /// The four octets, most significant first.
    V4(u32),
    /// The sixteen octets, most significant first.
    V6(u128),
}

/// The server's answer to a handshake. Not essential to the protocol, so
/// changes to it are not breaking.
#[derive(Clone, Debug)]
pub enum ServerHandshakePacket {
    ClientUntrusted,
    IncompatibleVersions { server_version: SemVer },
}

/// What a headset can display and play back.
#[derive(Clone, Debug)]
pub struct HeadsetInfoPacket {
    pub recommended_eye_width: u32,
    pub recommended_eye_height: u32,
    pub available_refresh_rates: Vec<u32>,
    pub preferred_refresh_rate: u32,
    /// Carries features added in a minor release that would otherwise
    /// break the packet schema.
    pub reserved: String,
}

/// Asks the server to configure video and audio within this client's
/// limits.
#[derive(Clone, Debug)]
pub struct StreamCapabilitiesRequest {
    pub recommended_view_size: UVec2,
    pub max_view_size: UVec2,
    pub available_refresh_rates: Vec<u32>,
    pub preferred_refresh_rate: u32,
}

/// The server's answer to a stream capabilities request.
#[derive(Clone, Copy, Debug, PartialEq, Eq, Structural)]
pub enum StreamConfigResponse {
    Success { view_size: UVec2, fps: u32, game_audio_sample_rate: u32 },
}

/// The server's answer to a connection request.
#[derive(Clone, Copy, Debug)]
pub struct ClientConnectionResponse {}

/// The configuration the server settled on for this client.
#[derive(Clone, Debug)]
pub struct ClientConfigPacket {
    pub eye_resolution_width: u32,
    pub eye_resolution_height: u32,
    pub fps: u32,
    pub game_audio_sample_rate: u32,
    pub reserved: String,
    pub server_version: Option<SemVer>,
}

/// Control-plane messages from server to client. The reserved variants are
/// carried through unchanged by peers that do not understand them.
#[derive(Clone, Debug)]
pub enum ServerControlPacket {
    StartStream,
    Restarting,
    KeepAlive,
    /// Retained for older peers; not extended further.
    TimeSync(TimeSyncPacket),
    Reserved(String),
    ReservedBuffer(Vec<u8>),
}

/// The pair of per-eye views. The head-to-eye transform is always a
/// translation along the x axis, whose length is the interpupillary
/// distance in metres (an IEEE 754 bit pattern).
#[derive(Clone, Copy, Debug, PartialEq, Eq)]
pub struct ViewsConfig {
    pub ipd_m: u32,
    pub fov: [Fov; 2],
}

/// A battery level report; the gauge value is an IEEE 754 bit pattern in
/// the range zero to one.
#[derive(Clone, Copy, Debug, PartialEq, Eq, Structural)]
pub struct BatteryPacket {
    pub device_id: u64,
    pub gauge_value: u32,
    pub is_plugged: bool,
}

/// Control-plane messages from client to server. The reserved variants are
/// carried through unchanged by peers that do not understand them.
#[derive(Clone, Debug)]
pub enum ClientControlPacket {
    PlayspaceSync(Vec2),
    RequestIdr,
    KeepAlive,
    StreamReady,
    ViewsConfig(ViewsConfig),
    Battery(BatteryPacket),
    /// Retained for older peers; not extended further.
    TimeSync(TimeSyncPacket),
    /// Retained for older peers; not extended further.
    VideoErrorReport,
    Reserved(String),
    ReservedBuffer(Vec<u8>),
}

/// The audio devices available on one side.
#[derive(Clone, Debug)]
pub struct AudioDevicesList {
    pub output: Vec<String>,
    pub input: Vec<String>,
}

/// The vendor of the machine's graphics hardware.
#[derive(Clone, Copy, Debug, PartialEq, Eq, Structural)]
pub enum GpuVendor {
    Nvidia,
    Amd,
    Other,
}

/// One step of a path into a structured value.
#[derive(Clone, Debug)]
pub enum PathSegment {
    Name(String),
    Index(usize),
}

/// An edit of the server's client list.
#[derive(Clone, Debug)]
pub enum ClientListAction {
    AddIfMissing { display_name: String },
    TrustAndMaybeAddIp(Option<PeerAddress>),
    RemoveIpOrEntry(Option<PeerAddress>),
}

/// A client-to-server request.
#[derive(Clone, Copy, Debug, PartialEq, Eq, Structural)]
pub enum ClientRequestPacket {
    Session,
}

/// A server-to-client answer. No regular answers are defined yet; the
/// reserved variant is carried through unchanged by peers that do not
/// understand it.
#[derive(Clone, Debug)]
pub enum ServerResponsePacket {
    Reserved(String),
}

/// Header of one video frame. Retained for older peers; not extended
/// further.
#[derive(Clone, Copy, Debug, PartialEq, Eq, Structural)]
pub struct VideoFrameHeaderPacket {
    pub packet_counter: u32,
    pub tracking_frame_index: u64,
    pub video_frame_index: u64,
    pub sent_time: u64,
    pub frame_byte_size: u32,
    pub fec_index: u32,
    pub fec_percentage: u16,
}

/// A time synchronisation exchange; `fps` is an IEEE 754 bit pattern.
/// Retained for older peers; not extended further.
#[derive(Clone, Copy, Debug, Default, PartialEq, Eq, Structural)]
pub struct TimeSyncPacket {
    pub mode: u32,
    pub server_time: u64,
    pub client_time: u64,
    pub packets_lost_total: u64,
    pub packets_lost_in_second: u64,
    pub average_send_latency: u32,
    pub average_transport_latency: u32,
    pub average_decode_latency: u64,
    pub idle_time: u32,
    pub fec_failure: u32,
    pub fec_failure_in_second: u64,
    pub fec_failure_total: u64,
    pub fps: u32,
    pub server_total_latency: u32,
    pub tracking_recv_frame_index: u64,
}

/// The state of one button: pressed or not, or a scalar position carried
/// as an IEEE 754 bit pattern.
#[derive(Clone, Copy, Debug, PartialEq, Eq, Structural)]
pub enum ButtonValue {
    Binary(bool),
    Scalar(u32),
}

/// One motion sample of a tracked device.
#[derive(Clone, Copy, Debug, Default, PartialEq, Eq, Structural)]
pub struct MotionData {
    pub orientation: Quat,
    pub position: Vec3,
    pub linear_velocity: Vec3,
    pub angular_velocity: Vec3,
}

/// A skeletal hand pose.
#[derive(Clone, Debug)]
pub struct HandTrackingInput {
    pub target_ray_motion: MotionData,
    pub skeleton_motion: Vec<MotionData>,
}

/// One controller's state in the older input layout; scalar values are
/// IEEE 754 bit patterns.
#[derive(Clone, Copy, Debug, Default, PartialEq, Eq)]
pub struct LegacyController {
    pub enabled: bool,
    pub is_hand: bool,
    pub buttons: u64,
    pub trackpad_position: Vec2,
    pub trigger_value: u32,
    pub grip_value: u32,
    pub bone_rotations: [Quat; 19],
    pub bone_positions_base: [Vec3; 19],
    pub hand_finger_confidence: u32,
}

/// The older input layout, kept for older peers.
#[derive(Clone, Copy, Debug, Default, PartialEq, Eq)]
pub struct LegacyInput {
    pub mounted: u8,
    pub controllers: [LegacyController; 2],
}

/// One tick of device input: motion samples keyed by numeric device id,
/// optional hand tracking, button states keyed by path id, and the older
/// layout alongside.
#[derive(Debug)]
pub struct Input {
    pub target_timestamp: TimeSpan,
    pub device_motions: Vec<(u64, MotionData)>,
    pub left_hand_tracking: Option<HandTrackingInput>,
    pub right_hand_tracking: Option<HandTrackingInput>,
    pub button_values: std::collections::HashMap<u64, ButtonValue>,
    pub legacy: LegacyInput,
}

/// One haptic pulse, keyed by path id; frequency and amplitude are IEEE
/// 754 bit patterns.
#[derive(Clone, Copy, Debug, PartialEq, Eq, Structural)]
pub struct Haptics {
    pub path: u64,
    pub duration: TimeSpan,
    pub frequency: u32,
    pub amplitude: u32,
}

} // verus!
