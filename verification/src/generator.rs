//! Synthetic frame payloads and the timestamp header used for latency probing.

use vstd::prelude::*;

use crate::buffers::{bytes_content, bytes_from_vec};
use crate::clock::unix_micros_now;
use crate::config::PayloadType;

verus! {

/// Number of bytes that the timestamp header occupies at the front of a probe frame.
pub const TIMESTAMP_LEN: usize = 8;

/// The eight bytes of `v` in big-endian order (most significant byte first).
pub open spec fn be_bytes(v: u64) -> Seq<u8> {
    seq![
        (v >> 56u64) as u8,
        (v >> 48u64) as u8,
        (v >> 40u64) as u8,
        (v >> 32u64) as u8,
        (v >> 24u64) as u8,
        (v >> 16u64) as u8,
        (v >> 8u64) as u8,
        v as u8,
    ]
}

/// The value whose big-endian encoding is the first eight bytes of `s`.
pub open spec fn be_value(s: Seq<u8>) -> u64
    recommends
        s.len() >= 8,
{
    ((s[0] as u64) << 56u64) | ((s[1] as u64) << 48u64) | ((s[2] as u64) << 40u64) | ((
    s[3] as u64) << 32u64) | ((s[4] as u64) << 24u64) | ((s[5] as u64) << 16u64) | ((
    s[6] as u64) << 8u64) | (s[7] as u64)
}

/// The timestamp that a frame carries: the big-endian value of its first eight
/// bytes, or nothing when the frame is shorter than that.
pub open spec fn frame_timestamp(frame: Seq<u8>) -> Option<u64> {
    if frame.len() < 8 {
        None
    } else {
        Some(be_value(frame))
    }
}

/// Payload of frame number `counter` of `size` bytes filled in the `Random` way.
pub open spec fn random_payload(size: nat, counter: u64) -> Seq<u8> {
    Seq::new(size, |i: int| ((counter + i) % 256) as u8)
}

/// Payload of frame number `counter` of `size` bytes filled in the `Sequential` way.
pub open spec fn sequential_payload(size: nat, counter: u64) -> Seq<u8> {
    Seq::new(size, |i: int| if i < 8 { be_bytes(counter)[i] } else { 0u8 })
}

/// Payload of `size` bytes that all hold `byte`.
pub open spec fn fixed_payload(size: nat, byte: u8) -> Seq<u8> {
    Seq::new(size, |i: int| byte)
}

/// The payload of frame number `counter` for the given size and fill.
pub open spec fn payload(size: nat, payload_type: PayloadType, counter: u64) -> Seq<u8> {
    match payload_type {
        PayloadType::Random => random_payload(size, counter),
        PayloadType::Sequential => sequential_payload(size, counter),
        PayloadType::Fixed(b) => fixed_payload(size, b),
    }
}

/// A probe frame: at least eight bytes long, the timestamp `now_us` in big-endian
/// order in the first eight bytes and the low byte of the frame number in all others.
pub open spec fn timestamped_frame(size: nat, counter: u64, now_us: u64) -> Seq<u8> {
    let len: nat = if size < 8 { 8 } else { size };
    Seq::new(len, |i: int| if i < 8 { be_bytes(now_us)[i] } else { (counter % 256) as u8 })
}

/// Decoding the big-endian encoding of a value gives the value back.
pub proof fn lemma_be_roundtrip(v: u64)
    ensures
        be_value(be_bytes(v)) == v,
{
    let b0 = (v >> 56u64) as u8;
    let b1 = (v >> 48u64) as u8;
    let b2 = (v >> 40u64) as u8;
    let b3 = (v >> 32u64) as u8;
    let b4 = (v >> 24u64) as u8;
    let b5 = (v >> 16u64) as u8;
    let b6 = (v >> 8u64) as u8;
    let b7 = v as u8;
    assert(((b0 as u64) << 56u64) | ((b1 as u64) << 48u64) | ((b2 as u64) << 40u64) | ((
    b3 as u64) << 32u64) | ((b4 as u64) << 24u64) | ((b5 as u64) << 16u64) | ((b6 as u64)
        << 8u64) | (b7 as u64) == v) by (bit_vector)
        requires
            b0 == (v >> 56u64) as u8,
            b1 == (v >> 48u64) as u8,
            b2 == (v >> 40u64) as u8,
            b3 == (v >> 32u64) as u8,
            b4 == (v >> 24u64) as u8,
            b5 == (v >> 16u64) as u8,
            b6 == (v >> 8u64) as u8,
            b7 == v as u8,
    ;
}

/// A probe frame carries the timestamp it was built with: reading the timestamp
/// of `timestamped_frame(size, counter, now_us)` gives `now_us`, whatever the size.
pub proof fn lemma_timestamp_roundtrip(size: nat, counter: u64, now_us: u64)
    ensures
        frame_timestamp(timestamped_frame(size, counter, now_us)) == Some(now_us),
{
    let f = timestamped_frame(size, counter, now_us);
    lemma_be_roundtrip(now_us);
    assert(f.subrange(0, 8) =~= be_bytes(now_us));
    assert(be_value(f) == be_value(be_bytes(now_us)));
}

/// A `Random` frame numbered `counter` of `size` bytes holds, at position `i`,
/// the byte `(counter + i) mod 256`.
pub proof fn lemma_random_payload(size: nat, counter: u64)
    ensures
        payload(size, PayloadType::Random, counter).len() == size,
        forall|i: int|
            0 <= i < size ==> #[trigger] payload(size, PayloadType::Random, counter)[i] == ((
            counter + i) % 256) as u8,
{
}

/// A `Sequential` frame numbered `counter` of `size` bytes holds the frame
/// number in big-endian order in its first `min(size, 8)` bytes and zeros after.
pub proof fn lemma_sequential_payload(size: nat, counter: u64)
    ensures
        payload(size, PayloadType::Sequential, counter).len() == size,
        forall|i: int|
            0 <= i < size && i < 8 ==> #[trigger] payload(
                size,
                PayloadType::Sequential,
                counter,
            )[i] == be_bytes(counter)[i],
        forall|i: int|
            8 <= i < size ==> #[trigger] payload(size, PayloadType::Sequential, counter)[i]
                == 0u8,
{
}

/// A `Fixed(byte)` frame holds `byte` in each of its `size` positions, the same
/// frame whatever its number.
pub proof fn lemma_fixed_payload(size: nat, byte: u8, counter1: u64, counter2: u64)
    ensures
        payload(size, PayloadType::Fixed(byte), counter1).len() == size,
        forall|i: int|
            0 <= i < size ==> #[trigger] payload(size, PayloadType::Fixed(byte), counter1)[i]
                == byte,
        payload(size, PayloadType::Fixed(byte), counter1) == payload(
            size,
            PayloadType::Fixed(byte),
            counter2,
        ),
{
    assert(payload(size, PayloadType::Fixed(byte), counter1) =~= payload(
        size,
        PayloadType::Fixed(byte),
        counter2,
    ));
}

/// A probe frame made at size `size` is `probe_frame_size(size)` bytes long,
/// carries its timestamp in the first eight bytes and the low byte of its frame
/// number in every other byte.
pub proof fn lemma_timestamped_frame(size: nat, counter: u64, now_us: u64)
    ensures
        timestamped_frame(size, counter, now_us).len() == if size < 8 {
            8
        } else {
            size
        },
        frame_timestamp(timestamped_frame(size, counter, now_us)) == Some(now_us),
        forall|i: int|
            8 <= i < timestamped_frame(size, counter, now_us).len() ==> #[trigger] timestamped_frame(
                size,
                counter,
                now_us,
            )[i] == (counter % 256) as u8,
{
    lemma_timestamp_roundtrip(size, counter, now_us);
}

/// A sequential frame of at least eight bytes carries its own frame number as
/// its timestamp header.
pub proof fn lemma_sequential_carries_counter(size: nat, counter: u64)
    requires
        size >= 8,
    ensures
        frame_timestamp(sequential_payload(size, counter)) == Some(counter),
{
    let f = sequential_payload(size, counter);
    lemma_be_roundtrip(counter);
    assert(be_value(f) == be_value(be_bytes(counter)));
}

/// The frame size the probe works with for a frame size option of
/// `frame_size`: at least the eight bytes of the timestamp header.
pub fn probe_frame_size(frame_size: usize) -> (s: usize)
    ensures
        s == if frame_size < TIMESTAMP_LEN {
            TIMESTAMP_LEN
        } else {
            frame_size
        },
{
    if frame_size < TIMESTAMP_LEN {
        TIMESTAMP_LEN
    } else {
        frame_size
    }
}

/// Appends the big-endian encoding of `v` to `buf`.
fn push_be_u64(buf: &mut Vec<u8>, v: u64)
    ensures
        final(buf)@ == old(buf)@ + be_bytes(v),
{
    buf.push((v >> 56u64) as u8);
    buf.push((v >> 48u64) as u8);
    buf.push((v >> 40u64) as u8);
    buf.push((v >> 32u64) as u8);
    buf.push((v >> 24u64) as u8);
    buf.push((v >> 16u64) as u8);
    buf.push((v >> 8u64) as u8);
    buf.push(v as u8);
    assert(final(buf)@ =~= old(buf)@ + be_bytes(v));
}

/// Extract the microsecond timestamp written by `generate_with_timestamp`.
/// Returns `None` if the frame is shorter than 8 bytes.
pub fn read_timestamp_us(frame: &[u8]) -> (ts: Option<u64>)
    ensures
        ts == frame_timestamp(frame@),
{
    if frame.len() < TIMESTAMP_LEN {
        return None;
    }
    let ts = ((frame[0] as u64) << 56u64) | ((frame[1] as u64) << 48u64) | ((frame[2] as u64)
        << 40u64) | ((frame[3] as u64) << 32u64) | ((frame[4] as u64) << 24u64) | ((
    frame[5] as u64) << 16u64) | ((frame[6] as u64) << 8u64) | (frame[7] as u64);
    Some(ts)
}

/// Produces the frames of one synthetic track: every call yields the next frame
/// in the configured size and fill, and advances the frame number.
pub struct FrameGenerator {
    size: usize,
    payload_type: PayloadType,
    counter: u64,
}

impl FrameGenerator {
    /// Size in bytes of the frames that `generate` produces.
    pub closed spec fn frame_size(&self) -> usize {
        self.size
    }

    /// The configured fill.
    pub closed spec fn fill(&self) -> PayloadType {
        self.payload_type
    }

    /// Number of frames produced so far (the number of the next frame).
    pub closed spec fn count(&self) -> u64 {
        self.counter
    }

    pub fn new(size: usize, payload_type: PayloadType) -> (g: Self)
        ensures
            g.frame_size() == size,
            g.fill() == payload_type,
            g.count() == 0,
    {
        Self { size, payload_type, counter: 0 }
    }

    /// Number of frames produced so far.
    pub fn frames_generated(&self) -> (n: u64)
        ensures
            n == self.count(),
    {
        self.counter
    }

    /// The payload of the next frame, as a vector.
    fn next_payload(&self) -> (buf: Vec<u8>)
        ensures
            buf@ == payload(self.size as nat, self.payload_type, self.counter),
    {
        let mut buf: Vec<u8> = Vec::new();
        match self.payload_type {
            PayloadType::Random => {
                let mut cur: u8 = (self.counter % 256) as u8;
                let mut i: usize = 0;
                while i < self.size
                    invariant
                        i <= self.size,
                        buf@.len() == i,
                        cur as int == (self.counter + i) % 256,
                        forall|j: int|
                            0 <= j < i ==> buf@[j] == ((self.counter + j) % 256) as u8,
                    decreases self.size - i,
                {
                    buf.push(cur);
                    cur = cur.wrapping_add(1);
                    i = i + 1;
                }
                assert(buf@ =~= random_payload(self.size as nat, self.counter));
            },
            PayloadType::Sequential => {
                let mut header: Vec<u8> = Vec::new();
                push_be_u64(&mut header, self.counter);
                let mut i: usize = 0;
                while i < self.size
                    invariant
                        i <= self.size,
                        header@ == Seq::<u8>::empty() + be_bytes(self.counter),
                        buf@.len() == i,
                        forall|j: int|
                            0 <= j < i ==> buf@[j] == (if j < 8 {
                                be_bytes(self.counter)[j]
                            } else {
                                0u8
                            }),
                    decreases self.size - i,
                {
                    if i < TIMESTAMP_LEN {
                        buf.push(header[i]);
                    } else {
                        buf.push(0u8);
                    }
                    i = i + 1;
                }
                assert(buf@ =~= sequential_payload(self.size as nat, self.counter));
            },
            PayloadType::Fixed(byte) => {
                let mut i: usize = 0;
                while i < self.size
                    invariant
                        i <= self.size,
                        buf@.len() == i,
                        forall|j: int| 0 <= j < i ==> buf@[j] == byte,
                    decreases self.size - i,
                {
                    buf.push(byte);
                    i = i + 1;
                }
                assert(buf@ =~= fixed_payload(self.size as nat, byte));
            },
        }
        buf
    }

    /// Produces the next frame and advances the frame number.
    pub fn generate(&mut self) -> (frame: bytes::Bytes)
        requires
            old(self).count() < u64::MAX,
        ensures
            bytes_content(frame) == payload(
                old(self).frame_size() as nat,
                old(self).fill(),
                old(self).count(),
            ),
            final(self).count() == old(self).count() + 1,
            final(self).frame_size() == old(self).frame_size(),
            final(self).fill() == old(self).fill(),
    {
        let buf = self.next_payload();
        self.counter = self.counter + 1;
        bytes_from_vec(buf)
    }

    /// Produces the next probe frame with the timestamp `now_us` (microseconds
    /// since the Unix epoch) in its first eight bytes, padded to at least eight
    /// bytes, and advances the frame number.
    pub fn generate_with_timestamp_at(&mut self, now_us: u64) -> (frame: bytes::Bytes)
        requires
            old(self).count() < u64::MAX,
        ensures
            bytes_content(frame) == timestamped_frame(
                old(self).frame_size() as nat,
                old(self).count(),
                now_us,
            ),
            final(self).count() == old(self).count() + 1,
            final(self).frame_size() == old(self).frame_size(),
            final(self).fill() == old(self).fill(),
    {
        let actual_size: usize = if self.size < TIMESTAMP_LEN {
            TIMESTAMP_LEN
        } else {
            self.size
        };
        let mut buf: Vec<u8> = Vec::new();
        push_be_u64(&mut buf, now_us);
        let fill: u8 = (self.counter % 256) as u8;
        let mut i: usize = TIMESTAMP_LEN;
        while i < actual_size
            invariant
                TIMESTAMP_LEN <= i <= actual_size,
                buf@.len() == i,
                forall|j: int| 0 <= j < 8 ==> buf@[j] == be_bytes(now_us)[j],
                forall|j: int| 8 <= j < i ==> buf@[j] == fill,
            decreases actual_size - i,
        {
            buf.push(fill);
            i = i + 1;
        }
        assert(buf@ =~= timestamped_frame(self.size as nat, self.counter, now_us));
        self.counter = self.counter + 1;
        bytes_from_vec(buf)
    }

    /// Generate a frame with a u64 microsecond timestamp in the first 8 bytes.
    /// `size` must be at least 8; smaller sizes are padded to 8.
    /// The timestamp is the system clock's reading at the call.
    pub fn generate_with_timestamp(&mut self) -> (frame: bytes::Bytes)
        requires
            old(self).count() < u64::MAX,
        ensures
            exists|now_us: u64|
                bytes_content(frame) == #[trigger] timestamped_frame(
                    old(self).frame_size() as nat,
                    old(self).count(),
                    now_us,
                ),
            final(self).count() == old(self).count() + 1,
            final(self).frame_size() == old(self).frame_size(),
            final(self).fill() == old(self).fill(),
    {
        let now_us = unix_micros_now();
        self.generate_with_timestamp_at(now_us)
    }
}

} // verus!
