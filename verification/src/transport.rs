//! Length-delimited stream transport: the 9-byte frame header codec, the
//! retry decision taken after every underlying read or write, the per-half
//! validity state and the receiver's per-stream buffer pool.
//!
//! The underlying connection is a blocking byte stream shared by one sender
//! and one receiver; the socket calls live outside this crate. The caller
//! performs one read or write at a time, reports what happened, and this
//! module decides whether the operation is complete, must be retried, was
//! cancelled, or failed.

use vstd::prelude::*;
use vstd::bytes::{spec_u64_to_le_bytes, spec_u64_from_le_bytes, u64_to_le_bytes, u64_from_le_bytes};
use vstd::bytes::lemma_auto_spec_u64_to_from_le_bytes;
use vstd::slice::{slice_subrange, slice_to_vec};

verus! {

broadcast use vstd::std_specs::hash::group_hash_axioms;

/// Size of the frame header: one stream id byte and a 64-bit length.
pub const FRAME_HEADER_SIZE_BYTES: usize = 9;

/// The 9-byte header of a frame: the stream id, then the payload length in
/// little-endian.
pub open spec fn frame_header(stream_id: u8, length: u64) -> Seq<u8> {
    seq![stream_id] + spec_u64_to_le_bytes(length)
}

/// A whole frame on the wire: the header followed directly by the payload,
/// with no padding and no checksum.
pub open spec fn frame_bytes(stream_id: u8, payload: Seq<u8>) -> Seq<u8>
    recommends
        payload.len() <= u64::MAX,
{
    frame_header(stream_id, payload.len() as u64) + payload
}

/// What a sequence of wire bytes decodes to: `Some` exactly when the bytes
/// hold a header whose declared length matches the bytes that follow it.
pub open spec fn spec_decode_frame(wire: Seq<u8>) -> Option<(u8, Seq<u8>)> {
    if wire.len() >= 9 && spec_u64_from_le_bytes(wire.subrange(1, 9)) == wire.len() - 9 {
        Some((wire[0], wire.subrange(9, wire.len() as int)))
    } else {
        None
    }
}

/// Builds the 9-byte frame header for `stream_id` and `length`.
pub fn encode_frame_header(stream_id: u8, length: u64) -> (header: Vec<u8>)
    ensures
        header@ == frame_header(stream_id, length),
        header@.len() == 9,
{
    proof {
        lemma_auto_spec_u64_to_from_le_bytes();
    }
    let mut header: Vec<u8> = Vec::new();
    header.push(stream_id);
    let mut length_bytes = u64_to_le_bytes(length);
    header.append(&mut length_bytes);
    proof {
        assert(header@ =~= frame_header(stream_id, length));
    }
    header
}

/// Reads a 9-byte frame header back: the stream id and the declared payload
/// length.
pub fn decode_frame_header(header: &[u8]) -> (r: (u8, u64))
    requires
        header@.len() == 9,
    ensures
        r.0 == header@[0],
        r.1 == spec_u64_from_le_bytes(header@.subrange(1, 9)),
{
    let stream_id = header[0];
    let length = u64_from_le_bytes(slice_subrange(header, 1, 9));
    (stream_id, length)
}

/// Decodes a whole frame held in `wire`: `Some` exactly when `wire` is one
/// complete frame, carrying its stream id and a copy of its payload.
pub fn decode_frame(wire: &[u8]) -> (r: Option<(u8, Vec<u8>)>)
    ensures
        match r {
            Some((stream_id, payload)) => spec_decode_frame(wire@) == Some(
                (stream_id, payload@),
            ),
            None => spec_decode_frame(wire@) is None,
        },
{
    if wire.len() < 9 {
        return None;
    }
    let (stream_id, length) = decode_frame_header(slice_subrange(wire, 0, 9));
    proof {
        assert(wire@.subrange(0, 9).subrange(1, 9) =~= wire@.subrange(1, 9));
    }
    if length != (wire.len() - 9) as u64 {
        return None;
    }
    let payload = slice_to_vec(slice_subrange(wire, 9, wire.len()));
    Some((stream_id, payload))
}

/// A frame decodes back to the stream id and payload it was built from, for
/// any payload whose length fits the 64-bit length field.
pub proof fn lemma_frame_round_trip(stream_id: u8, payload: Seq<u8>)
    requires
        payload.len() <= u64::MAX,
    ensures
        spec_decode_frame(frame_bytes(stream_id, payload)) == Some((stream_id, payload)),
{
    lemma_auto_spec_u64_to_from_le_bytes();
    let wire = frame_bytes(stream_id, payload);
    assert(wire.subrange(1, 9) =~= spec_u64_to_le_bytes(payload.len() as u64));
    assert(wire.subrange(9, wire.len() as int) =~= payload);
}

/// What one underlying read or write call produced, as the caller reports
/// it: some bytes were moved, a transient condition (would-block or an
/// interrupted system call) occurred, or a non-transient error occurred.
#[derive(Clone, Copy, Debug, PartialEq, Eq, Structural)]
pub enum IoEvent {
    Transferred(usize),
    Transient,
    Failed,
}

/// What the retry loop does next.
#[derive(Clone, Copy, Debug, PartialEq, Eq, Structural)]
pub enum IoDecision {
    /// The cancellation flag was cleared: stop retrying and report
    /// non-completion; the half must be marked invalid.
    Cancelled,
    /// All bytes of the operation have been moved.
    Complete,
    /// Call again; the payload is the number of bytes moved so far.
    Continue(usize),
    /// A non-transient error: surface it to the caller.
    Fail,
}

/// The decision after one underlying call, as a function of the bytes moved
/// so far, the size of the whole operation, the call's outcome and the
/// cancellation flag as read after the call. Cancellation wins over every
/// outcome; transient conditions retry without progress; a non-transient
/// error is surfaced.
pub open spec fn spec_transfer_step(
    done: usize,
    total: usize,
    event: IoEvent,
    running: bool,
) -> IoDecision {
    if !running {
        IoDecision::Cancelled
    } else {
        match event {
            IoEvent::Transferred(n) => if done + n == total {
                IoDecision::Complete
            } else {
                IoDecision::Continue((done + n) as usize)
            },
            IoEvent::Transient => IoDecision::Continue(done),
            IoEvent::Failed => IoDecision::Fail,
        }
    }
}

/// Takes the retry decision after one underlying call. `done` bytes of a
/// `total`-byte operation had been moved before the call; `event` is what
/// the call produced; `running` is the cancellation flag read after the
/// call.
pub fn transfer_step(done: usize, total: usize, event: &IoEvent, running: bool) -> (d: IoDecision)
    requires
        done <= total,
        event matches IoEvent::Transferred(n) ==> n <= total - done,
    ensures
        d == spec_transfer_step(done, total, *event, running),
{
    if !running {
        return IoDecision::Cancelled;
    }
    match event {
        IoEvent::Transferred(n) => {
            if done + *n == total {
                IoDecision::Complete
            } else {
                IoDecision::Continue(done + *n)
            }
        },
        IoEvent::Transient => IoDecision::Continue(done),
        IoEvent::Failed => IoDecision::Fail,
    }
}

/// `s` brought to length `len`: truncated if longer, extended with null
/// bytes if shorter.
pub open spec fn resized(s: Seq<u8>, len: nat) -> Seq<u8> {
    if len <= s.len() {
        s.take(len as int)
    } else {
        s + Seq::new((len - s.len()) as nat, |i: int| 0u8)
    }
}

/// Brings `buffer` to length `length`, filling with null bytes when it
/// grows. The backing storage is reused; it is reallocated only when the
/// capacity is insufficient.
fn resize_zeroed(buffer: &mut Vec<u8>, length: usize)
    ensures
        final(buffer)@ == resized(old(buffer)@, length as nat),
        final(buffer)@.len() == length,
{
    if length <= buffer.len() {
        buffer.truncate(length);
    } else {
        let mut i = buffer.len();
        while i < length
            invariant
                old(buffer)@.len() <= i <= length,
                buffer@ == old(buffer)@ + Seq::new((i - old(buffer)@.len()) as nat, |j: int| 0u8),
            decreases length - i,
        {
            buffer.push(0);
            proof {
                assert(old(buffer)@ + Seq::new(
                    (i + 1 - old(buffer)@.len()) as nat,
                    |j: int| 0u8,
                ) =~= (old(buffer)@ + Seq::new((i - old(buffer)@.len()) as nat, |j: int| 0u8)).push(
                    0u8,
                ));
            }
            i = i + 1;
        }
    }
}

/// The sending half's state: the stream cursor is in a known position until
/// a send is interrupted mid-operation; from then on the framing alignment
/// of the byte stream can no longer be trusted, so the half refuses all
/// further sends.
pub struct FrameSender {
    valid: bool,
}

impl FrameSender {
    /// The half has never been interrupted mid-operation.
    pub closed spec fn valid(self) -> bool {
        self.valid
    }

    /// A fresh sending half, valid until interrupted.
    pub fn new() -> (s: Self)
        ensures
            s.valid(),
    {
        FrameSender { valid: true }
    }

    /// Whether sends are still accepted.
    pub fn is_valid(&self) -> (v: bool)
        ensures
            v == self.valid(),
    {
        self.valid
    }

    /// Starts one send: yields the frame header to put on the wire before
    /// the payload, or nothing when the half is invalid, in which case no
    /// bytes must be written at all.
    pub fn begin_send(&self, stream_id: u8, payload_len: u64) -> (r: Option<Vec<u8>>)
        ensures
            match r {
                Some(header) => self.valid() && header@ == frame_header(stream_id, payload_len),
                None => !self.valid(),
            },
    {
        if !self.valid {
            return None;
        }
        Some(encode_frame_header(stream_id, payload_len))
    }

    /// Records a cooperative interruption mid-send: the half is permanently
    /// invalid, and every later `begin_send` yields nothing.
    pub fn mark_interrupted(&mut self)
        ensures
            !final(self).valid(),
    {
        self.valid = false;
    }
}

/// The receiving half's state: the same validity rule as the sender, and
/// the per-stream pool of reusable receive buffers. The pool is keyed by
/// stream id on the expectation that frames of one stream are similar in
/// size; buffers move out to the caller on receive and come back only when
/// the caller returns them.
pub struct FrameReceiver {
    valid: bool,
    buffers: std::collections::HashMap<u8, std::collections::VecDeque<Vec<u8>>>,
}

impl FrameReceiver {
    /// The half has never been interrupted mid-operation.
    pub closed spec fn valid(self) -> bool {
        self.valid
    }

    /// The pooled buffers for `stream_id`, oldest first.
    pub closed spec fn queue(self, stream_id: u8) -> Seq<Seq<u8>> {
        if self.buffers@.contains_key(stream_id) {
            self.buffers@[stream_id]@.map_values(|b: Vec<u8>| b@)
        } else {
            Seq::empty()
        }
    }

    /// A fresh receiving half: valid, with an empty pool.
    pub fn new() -> (r: Self)
        ensures
            r.valid(),
            forall|stream_id: u8| r.queue(stream_id) == Seq::<Seq<u8>>::empty(),
    {
        FrameReceiver { valid: true, buffers: std::collections::HashMap::new() }
    }

    /// Whether receives are still accepted.
    pub fn is_valid(&self) -> (v: bool)
        ensures
            v == self.valid(),
    {
        self.valid
    }

    /// Returns a buffer to the pool of `stream_id` for later reuse. Pure
    /// bookkeeping: no constraint on the buffer's size or content.
    pub fn push_buffer(&mut self, stream_id: u8, buffer: Vec<u8>)
        ensures
            final(self).valid() == old(self).valid(),
            final(self).queue(stream_id) == old(self).queue(stream_id).push(buffer@),
            forall|other: u8|
                other != stream_id ==> final(self).queue(other) == old(self).queue(other),
    {
        let mut queue = match self.buffers.remove(&stream_id) {
            Some(q) => q,
            None => std::collections::VecDeque::new(),
        };
        queue.push_back(buffer);
        proof {
            assert(queue@.map_values(|b: Vec<u8>| b@) =~= old(self).queue(stream_id).push(
                buffer@,
            ));
        }
        self.buffers.insert(stream_id, queue);
    }

    /// Takes the buffer the next payload of `stream_id` will be read into:
    /// the oldest pooled buffer, or a fresh null-filled one when the pool
    /// for that stream is empty, brought to length `length` either way. A
    /// pooled buffer's storage is reused; it is reallocated only when its
    /// capacity falls short of `length`.
    pub fn take_buffer(&mut self, stream_id: u8, length: usize) -> (buffer: Vec<u8>)
        ensures
            final(self).valid() == old(self).valid(),
            buffer@.len() == length,
            forall|other: u8|
                other != stream_id ==> final(self).queue(other) == old(self).queue(other),
            old(self).queue(stream_id).len() > 0 ==> {
                &&& final(self).queue(stream_id) == old(self).queue(stream_id).drop_first()
                &&& buffer@ == resized(old(self).queue(stream_id)[0], length as nat)
            },
            old(self).queue(stream_id).len() == 0 ==> {
                &&& final(self).queue(stream_id) == old(self).queue(stream_id)
                &&& buffer@ == Seq::new(length as nat, |i: int| 0u8)
            },
    {
        let mut queue = match self.buffers.remove(&stream_id) {
            Some(q) => q,
            None => std::collections::VecDeque::new(),
        };
        let popped = queue.pop_front();
        proof {
            if old(self).queue(stream_id).len() > 0 {
                assert(queue@.map_values(|b: Vec<u8>| b@) =~= old(self).queue(
                    stream_id,
                ).drop_first());
            } else {
                assert(queue@.map_values(|b: Vec<u8>| b@) =~= old(self).queue(stream_id));
            }
        }
        self.buffers.insert(stream_id, queue);
        let mut buffer = match popped {
            Some(b) => b,
            None => Vec::new(),
        };
        resize_zeroed(&mut buffer, length);
        proof {
            if old(self).queue(stream_id).len() == 0 {
                assert(buffer@ =~= Seq::new(length as nat, |i: int| 0u8));
            }
        }
        buffer
    }

    /// Records a cooperative interruption mid-receive: the half is
    /// permanently invalid; the pool is left as it was.
    pub fn mark_interrupted(&mut self)
        ensures
            !final(self).valid(),
            forall|stream_id: u8|
                final(self).queue(stream_id) == old(self).queue(stream_id),
    {
        self.valid = false;
    }
}

} // verus!
