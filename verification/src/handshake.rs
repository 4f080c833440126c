//! Discovery handshake: the fixed 24-byte datagram a client broadcasts and
//! the classification a server applies to every datagram it receives.
//!
//! Wire format: bytes 0..16 hold the ASCII application name, null-padded;
//! bytes 16..24 hold the protocol identity, little-endian. Two older
//! generations of the datagram are still recognized by their byte prefixes
//! so that an operator can tell an outdated client from network noise.

use vstd::prelude::*;
use vstd::bytes::{spec_u64_to_le_bytes, spec_u64_from_le_bytes, u64_to_le_bytes, u64_from_le_bytes};
use vstd::bytes::lemma_auto_spec_u64_to_from_le_bytes;
use vstd::slice::slice_subrange;

verus! {

/// Size of the current-generation handshake datagram.
pub const HANDSHAKE_PACKET_SIZE_BYTES: usize = 24;

/// Well-known port the handshake datagrams are sent to and received on.
pub const CONTROL_PORT: u16 = 9943;

/// ASCII bytes of the application name carried in every handshake datagram.
pub open spec fn app_name_bytes() -> Seq<u8> {
    seq![65u8, 76u8, 86u8, 82u8]
}

/// `name` null-padded to the 16-byte name field.
pub open spec fn padded_name(name: Seq<u8>) -> Seq<u8>
    recommends
        name.len() <= 16,
{
    name + Seq::new((16 - name.len()) as nat, |i: int| 0u8)
}

/// The full 24-byte datagram for `name` and `protocol_id`.
pub open spec fn spec_handshake_packet(name: Seq<u8>, protocol_id: u64) -> Seq<u8>
    recommends
        name.len() <= 16,
{
    padded_name(name) + spec_u64_to_le_bytes(protocol_id)
}

/// `s` with its trailing null bytes removed.
pub open spec fn trim_trailing_zeros(s: Seq<u8>) -> Seq<u8>
    decreases s.len(),
{
    if s.len() > 0 && s.last() == 0 {
        trim_trailing_zeros(s.drop_last())
    } else {
        s
    }
}

/// The application name as a byte vector.
pub fn app_name() -> (name: Vec<u8>)
    ensures
        name@ == app_name_bytes(),
{
    let mut name: Vec<u8> = Vec::new();
    name.push(65);
    name.push(76);
    name.push(86);
    name.push(82);
    proof {
        assert(name@ =~= app_name_bytes());
    }
    name
}

/// Builds the 24-byte handshake datagram: the name null-padded to 16 bytes,
/// then the protocol identity in little-endian.
pub fn encode_handshake_packet(name: &Vec<u8>, protocol_id: u64) -> (packet: Vec<u8>)
    requires
        name@.len() <= 16,
    ensures
        packet@ == spec_handshake_packet(name@, protocol_id),
        packet@.len() == 24,
{
    proof {
        lemma_auto_spec_u64_to_from_le_bytes();
    }
    let mut packet: Vec<u8> = Vec::new();
    let mut i: usize = 0;
    while i < name.len()
        invariant
            i <= name@.len(),
            packet@ == name@.take(i as int),
        decreases name@.len() - i,
    {
        packet.push(name[i]);
        proof {
            assert(name@.take(i + 1) =~= name@.take(i as int).push(name@[i as int]));
        }
        i = i + 1;
    }
    proof {
        assert(name@.take(name@.len() as int) =~= name@);
    }
    while i < 16
        invariant
            name@.len() <= i <= 16,
            packet@ == name@ + Seq::new((i - name@.len()) as nat, |j: int| 0u8),
        decreases 16 - i,
    {
        packet.push(0);
        proof {
            assert(name@ + Seq::new((i + 1 - name@.len()) as nat, |j: int| 0u8) =~= (name@
                + Seq::new((i - name@.len()) as nat, |j: int| 0u8)).push(0u8));
        }
        i = i + 1;
    }
    let mut id_bytes = u64_to_le_bytes(protocol_id);
    packet.append(&mut id_bytes);
    proof {
        assert(packet@ =~= spec_handshake_packet(name@, protocol_id));
    }
    packet
}

/// Reads a handshake datagram back: `Some` exactly when the datagram has the
/// current 24-byte layout, carrying the name with its null padding removed
/// and the little-endian protocol identity.
pub fn decode_handshake_packet(packet: &Vec<u8>) -> (r: Option<(Vec<u8>, u64)>)
    ensures
        match r {
            Some((name, protocol_id)) => {
                &&& packet@.len() == 24
                &&& name@ == trim_trailing_zeros(packet@.subrange(0, 16))
                &&& protocol_id == spec_u64_from_le_bytes(packet@.subrange(16, 24))
            },
            None => packet@.len() != 24,
        },
{
    if packet.len() != 24 {
        return None;
    }
    let mut end: usize = 16;
    while end > 0 && packet[end - 1] == 0
        invariant
            end <= 16,
            packet@.len() == 24,
            trim_trailing_zeros(packet@.subrange(0, 16)) == trim_trailing_zeros(
                packet@.subrange(0, end as int),
            ),
        decreases end,
    {
        proof {
            assert(packet@.subrange(0, end as int).last() == 0);
            assert(packet@.subrange(0, end as int).drop_last() =~= packet@.subrange(
                0,
                end - 1,
            ));
        }
        end = end - 1;
    }
    let mut name: Vec<u8> = Vec::new();
    let mut i: usize = 0;
    while i < end
        invariant
            i <= end <= 16,
            packet@.len() == 24,
            name@ == packet@.subrange(0, end as int).take(i as int),
        decreases end - i,
    {
        name.push(packet[i]);
        proof {
            assert(packet@.subrange(0, end as int).take(i + 1) =~= packet@.subrange(
                0,
                end as int,
            ).take(i as int).push(packet@[i as int]));
        }
        i = i + 1;
    }
    proof {
        assert(packet@.subrange(0, end as int).take(end as int) =~= packet@.subrange(
            0,
            end as int,
        ));
        if end > 0 {
            assert(packet@.subrange(0, end as int).last() != 0);
        }
        assert(trim_trailing_zeros(packet@.subrange(0, end as int)) == packet@.subrange(
            0,
            end as int,
        ));
    }
    let protocol_id = u64_from_le_bytes(slice_subrange(packet.as_slice(), 16, 24));
    Some((name, protocol_id))
}

/// What the server concludes from one received datagram.
#[derive(Clone, Copy, Debug, PartialEq, Eq, Structural)]
pub enum HandshakeClassification {
    /// Current layout, matching name, matching protocol identity: the sender
    /// is a compatible client and connection setup should proceed.
    Compatible,
    /// Current layout and matching name, but the sender's protocol identity
    /// differs from the local one; both identities are carried for display.
    WrongVersion { expected: u64, received: u64 },
    /// The newer of the two recognized legacy layouts: a 4-byte zero field,
    /// an 8-byte little-endian value equal to 4, then the ASCII marker.
    /// Sent by clients of versions 14 through 18.
    LegacyV14ToV18,
    /// The older recognized legacy layout: a single 0x01 byte followed by
    /// the ASCII marker. Sent by clients of version 11 and before.
    LegacyV11OrOlder,
    /// None of the known layouts: unrelated network noise, to be dropped
    /// silently.
    Noise,
}

/// `n` null bytes.
pub open spec fn zero_bytes(n: nat) -> Seq<u8> {
    Seq::new(n, |i: int| 0u8)
}

/// The datagram has the current 24-byte layout with the expected name field.
pub open spec fn is_current_format(p: Seq<u8>) -> bool {
    p.len() == 24 && p.subrange(0, 16) == padded_name(app_name_bytes())
}

/// The protocol identity carried by a current-layout datagram.
pub open spec fn packet_protocol_id(p: Seq<u8>) -> u64
    recommends
        p.len() == 24,
{
    spec_u64_from_le_bytes(p.subrange(16, 24))
}

/// The datagram starts with the newer legacy signature: four null bytes, an
/// 8-byte little-endian value equal to 4, then the ASCII marker.
pub open spec fn is_legacy_v14_signature(p: Seq<u8>) -> bool {
    &&& p.len() >= 16
    &&& p.subrange(0, 4) == zero_bytes(4)
    &&& spec_u64_from_le_bytes(p.subrange(4, 12)) == 4
    &&& p.subrange(12, 16) == app_name_bytes()
}

/// The datagram starts with the older legacy signature: a single 0x01 byte
/// followed by the ASCII marker.
pub open spec fn is_legacy_v11_signature(p: Seq<u8>) -> bool {
    &&& p.len() >= 5
    &&& p[0] == 1
    &&& p.subrange(1, 5) == app_name_bytes()
}

/// The classification of one received datagram, as a function of its bytes
/// and the local protocol identity alone.
pub open spec fn spec_classify(p: Seq<u8>, local_id: u64) -> HandshakeClassification {
    if is_current_format(p) {
        if packet_protocol_id(p) == local_id {
            HandshakeClassification::Compatible
        } else {
            HandshakeClassification::WrongVersion {
                expected: local_id,
                received: packet_protocol_id(p),
            }
        }
    } else if is_legacy_v14_signature(p) {
        HandshakeClassification::LegacyV14ToV18
    } else if is_legacy_v11_signature(p) {
        HandshakeClassification::LegacyV11OrOlder
    } else {
        HandshakeClassification::Noise
    }
}

/// Compares `packet[start .. start + pattern.len()]` with `pattern`.
fn range_matches(packet: &Vec<u8>, start: usize, pattern: &Vec<u8>) -> (r: bool)
    requires
        start + pattern@.len() <= packet@.len(),
    ensures
        r <==> packet@.subrange(start as int, start + pattern@.len()) == pattern@,
{
    let packet_len = packet.len();
    let mut i: usize = 0;
    while i < pattern.len()
        invariant
            i <= pattern@.len(),
            start + pattern@.len() <= packet@.len(),
            packet@.len() == packet_len,
            forall|j: int| 0 <= j < i ==> packet@[start + j] == pattern@[j],
        decreases pattern@.len() - i,
    {
        if packet[start + i] != pattern[i] {
            proof {
                assert(packet@.subrange(start as int, start + pattern@.len())[i as int]
                    != pattern@[i as int]);
            }
            return false;
        }
        i = i + 1;
    }
    proof {
        assert(packet@.subrange(start as int, start + pattern@.len()) =~= pattern@);
    }
    true
}

/// The state a server needs to classify datagrams: the expected name field
/// and the local protocol identity. Classification is a pure function of
/// each datagram's bytes; the listener holds no other state.
pub struct HandshakeListener {
    expected_name: Vec<u8>,
    protocol_id: u64,
}

impl HandshakeListener {
    /// The expected name field is the null-padded application name.
    pub closed spec fn wf(self) -> bool {
        self.expected_name@ == padded_name(app_name_bytes())
    }

    /// The protocol identity of the local build.
    pub closed spec fn local_protocol_id(self) -> u64 {
        self.protocol_id
    }

    /// Precomputes the expected 16-byte name field for `protocol_id`.
    pub fn new(protocol_id: u64) -> (listener: Self)
        ensures
            listener.wf(),
            listener.local_protocol_id() == protocol_id,
    {
        let name = app_name();
        let mut expected_name = encode_handshake_packet(&name, 0);
        expected_name.truncate(16);
        proof {
            assert(expected_name@ =~= padded_name(app_name_bytes()));
        }
        HandshakeListener { expected_name, protocol_id }
    }

    /// Classifies one received datagram. A current-layout datagram with the
    /// expected name field is compatible or wrong-version according to its
    /// protocol identity; otherwise the two legacy signatures are tried in
    /// turn; anything else is noise.
    pub fn classify(&self, packet: &Vec<u8>) -> (c: HandshakeClassification)
        requires
            self.wf(),
        ensures
            c == spec_classify(packet@, self.local_protocol_id()),
    {
        proof {
            lemma_auto_spec_u64_to_from_le_bytes();
        }
        if packet.len() == 24 && range_matches(packet, 0, &self.expected_name) {
            let received = u64_from_le_bytes(slice_subrange(packet.as_slice(), 16, 24));
            if received == self.protocol_id {
                HandshakeClassification::Compatible
            } else {
                HandshakeClassification::WrongVersion {
                    expected: self.protocol_id,
                    received,
                }
            }
        } else if packet.len() >= 16 && packet[0] == 0 && packet[1] == 0 && packet[2] == 0
            && packet[3] == 0 && u64_from_le_bytes(slice_subrange(packet.as_slice(), 4, 12)) == 4
            && packet[12] == 65 && packet[13] == 76 && packet[14] == 86 && packet[15] == 82 {
            proof {
                assert(packet@.subrange(0, 4) =~= zero_bytes(4));
                assert(packet@.subrange(12, 16) =~= app_name_bytes());
            }
            HandshakeClassification::LegacyV14ToV18
        } else if packet.len() >= 5 && packet[0] == 1 && packet[1] == 65 && packet[2] == 76
            && packet[3] == 86 && packet[4] == 82 {
            proof {
                assert(packet@.subrange(1, 5) =~= app_name_bytes());
            }
            HandshakeClassification::LegacyV11OrOlder
        } else {
            proof {
                if packet@.len() >= 16 && packet@.subrange(0, 4) == zero_bytes(4) {
                    assert(packet@[0] == packet@.subrange(0, 4)[0]);
                    assert(packet@[1] == packet@.subrange(0, 4)[1]);
                    assert(packet@[2] == packet@.subrange(0, 4)[2]);
                    assert(packet@[3] == packet@.subrange(0, 4)[3]);
                }
                if packet@.len() >= 16 && packet@.subrange(12, 16) == app_name_bytes() {
                    assert(packet@[12] == packet@.subrange(12, 16)[0]);
                    assert(packet@[13] == packet@.subrange(12, 16)[1]);
                    assert(packet@[14] == packet@.subrange(12, 16)[2]);
                    assert(packet@[15] == packet@.subrange(12, 16)[3]);
                }
                if packet@.len() >= 5 && packet@.subrange(1, 5) == app_name_bytes() {
                    assert(packet@[1] == packet@.subrange(1, 5)[0]);
                    assert(packet@[2] == packet@.subrange(1, 5)[1]);
                    assert(packet@[3] == packet@.subrange(1, 5)[2]);
                    assert(packet@[4] == packet@.subrange(1, 5)[3]);
                }
            }
            HandshakeClassification::Noise
        }
    }
}

/// A datagram built by `encode_handshake_packet` with the application name
/// classifies as compatible exactly when its protocol identity matches the
/// local one; otherwise it classifies as wrong-version, carrying the local
/// identity as expected and the datagram's as received.
pub proof fn lemma_classify_own_datagram(id: u64, local_id: u64)
    ensures
        spec_classify(spec_handshake_packet(app_name_bytes(), id), local_id) == (if id == local_id {
            HandshakeClassification::Compatible
        } else {
            HandshakeClassification::WrongVersion { expected: local_id, received: id }
        }),
{
    lemma_auto_spec_u64_to_from_le_bytes();
    let packet = spec_handshake_packet(app_name_bytes(), id);
    assert(packet.subrange(0, 16) =~= padded_name(app_name_bytes()));
    assert(packet.subrange(16, 24) =~= spec_u64_to_le_bytes(id));
    assert(is_current_format(packet));
}

/// The three recognized layouts are told apart by the first byte alone
/// (the name's first letter, a null byte, 0x01), so no datagram matches
/// more than one of them and the order the listener tries them in does not
/// matter.
pub proof fn lemma_signatures_are_mutually_exclusive(p: Seq<u8>)
    ensures
        is_current_format(p) ==> !is_legacy_v14_signature(p) && !is_legacy_v11_signature(p),
        is_legacy_v14_signature(p) ==> !is_legacy_v11_signature(p),
{
    if p.len() >= 5 {
        if is_current_format(p) {
            assert(p[0] == padded_name(app_name_bytes())[0]);
        }
        if is_legacy_v14_signature(p) {
            assert(p[0] == p.subrange(0, 4)[0]);
        }
        if is_legacy_v11_signature(p) {
            assert(p[0] == 1);
        }
    }
}

/// The fixed datagram a client broadcasts: built once from the local
/// application name and protocol identity, then reused unchanged for every
/// broadcast.
pub struct HandshakeBroadcaster {
    packet: Vec<u8>,
}

impl HandshakeBroadcaster {
    /// The datagram this broadcaster was built with.
    pub closed spec fn datagram(self) -> Seq<u8> {
        self.packet@
    }

    /// Builds the fixed handshake datagram for `protocol_id`.
    pub fn new(protocol_id: u64) -> (b: Self)
        ensures
            b.datagram() == spec_handshake_packet(app_name_bytes(), protocol_id),
    {
        let name = app_name();
        let packet = encode_handshake_packet(&name, protocol_id);
        HandshakeBroadcaster { packet }
    }

    /// The bytes to send. Takes `&self` and always yields the same fixed
    /// datagram: broadcasting any number of times changes no state beyond
    /// the datagrams put on the wire.
    pub fn packet(&self) -> (p: &Vec<u8>)
        ensures
            p@ == self.datagram(),
    {
        &self.packet
    }
}

/// Trimming the padding of a null-padded name gives the name back, provided
/// the name itself carries no null byte.
pub proof fn lemma_trim_padded_name(name: Seq<u8>)
    requires
        name.len() <= 16,
        forall|i: int| 0 <= i < name.len() ==> name[i] != 0,
    ensures
        trim_trailing_zeros(padded_name(name)) == name,
{
    lemma_trim_appended_zeros(name, (16 - name.len()) as nat);
}

proof fn lemma_trim_appended_zeros(name: Seq<u8>, k: nat)
    requires
        forall|i: int| 0 <= i < name.len() ==> name[i] != 0,
    ensures
        trim_trailing_zeros(name + Seq::new(k, |i: int| 0u8)) == name,
    decreases k,
{
    let padded = name + Seq::new(k, |i: int| 0u8);
    if k == 0 {
        assert(padded =~= name);
        if name.len() > 0 {
            assert(name.last() != 0);
        }
    } else {
        assert(padded.last() == 0);
        assert(padded.drop_last() =~= name + Seq::new((k - 1) as nat, |i: int| 0u8));
        lemma_trim_appended_zeros(name, (k - 1) as nat);
    }
}

/// Encoding a handshake datagram and decoding it on the receiving side
/// recovers the identical application name and protocol identity, for any
/// name of at most 16 bytes that carries no null byte.
pub proof fn lemma_handshake_round_trip(name: Seq<u8>, protocol_id: u64)
    requires
        name.len() <= 16,
        forall|i: int| 0 <= i < name.len() ==> name[i] != 0,
    ensures
        trim_trailing_zeros(spec_handshake_packet(name, protocol_id).subrange(0, 16)) == name,
        spec_u64_from_le_bytes(spec_handshake_packet(name, protocol_id).subrange(16, 24))
            == protocol_id,
{
    lemma_auto_spec_u64_to_from_le_bytes();
    let packet = spec_handshake_packet(name, protocol_id);
    assert(packet.subrange(0, 16) =~= padded_name(name));
    assert(packet.subrange(16, 24) =~= spec_u64_to_le_bytes(protocol_id));
    lemma_trim_padded_name(name);
}

} // verus!
