//! What a subscriber decides about each group and frame it receives on a track:
//! sequence gaps and reuse, frame size mismatches, and latency samples.

use vstd::prelude::*;
use vstd::string::*;

use crate::generator::{
    frame_timestamp, lemma_timestamp_roundtrip, payload, read_timestamp_us, timestamped_frame,
};
use crate::config::PayloadType;
use crate::metrics::{SubscribeIncrements, SubscribeMetrics};

verus! {

/// What receiving one group means for the counters.
#[derive(Clone, Copy, Debug, PartialEq, Eq, Structural)]
pub struct GroupVerdict {
    /// The group's sequence number did not grow past the previous group's.
    pub reused: bool,
    /// Number of groups skipped between the previous group and this one.
    pub dropped: u64,
}

/// What receiving one frame means for the counters and the latency histogram.
#[derive(Clone, Copy, Debug, PartialEq, Eq, Structural)]
pub struct FrameVerdict {
    /// The frame's length in bytes.
    pub len: u64,
    /// Validation is on, a size is expected, and the frame has another size.
    pub size_mismatch: bool,
    /// The one-way latency that the frame's timestamp shows, when measured.
    pub latency_us: Option<u64>,
}

/// The verdict on a group numbered `seq` after a group numbered `last` (if any).
/// Only with validation on are reuse and gaps looked for.
pub open spec fn group_verdict(validate: bool, last: Option<u64>, seq: u64) -> GroupVerdict {
    match last {
        Some(prev) if validate => {
            if seq <= prev {
                GroupVerdict { reused: true, dropped: 0 }
            } else {
                GroupVerdict { reused: false, dropped: (seq - prev - 1) as u64 }
            }
        },
        _ => GroupVerdict { reused: false, dropped: 0 },
    }
}

/// The verdict on a frame with content `frame` received at `now_us`.
pub open spec fn frame_verdict(
    validate: bool,
    expected_size: usize,
    measure_latency: bool,
    frame: Seq<u8>,
    now_us: u64,
) -> FrameVerdict {
    FrameVerdict {
        len: frame.len() as u64,
        size_mismatch: validate && expected_size > 0 && frame.len() != expected_size,
        latency_us: match frame_timestamp(frame) {
            Some(sent) if measure_latency && now_us >= sent => Some((now_us - sent) as u64),
            _ => None,
        },
    }
}

/// Total of the groups reported skipped when groups numbered `seqs` arrive in
/// that order after a group numbered `last` (if any).
pub open spec fn dropped_total(validate: bool, last: Option<u64>, seqs: Seq<u64>) -> int
    decreases seqs.len(),
{
    if seqs.len() == 0 {
        0
    } else {
        group_verdict(validate, last, seqs[0]).dropped + dropped_total(
            validate,
            Some(seqs[0]),
            seqs.drop_first(),
        )
    }
}

/// Number of groups reported as reused when groups numbered `seqs` arrive in
/// that order after a group numbered `last` (if any).
pub open spec fn reused_total(validate: bool, last: Option<u64>, seqs: Seq<u64>) -> int
    decreases seqs.len(),
{
    if seqs.len() == 0 {
        0
    } else {
        (if group_verdict(validate, last, seqs[0]).reused {
            1int
        } else {
            0int
        }) + reused_total(validate, Some(seqs[0]), seqs.drop_first())
    }
}

/// `seqs` grows strictly from each element to the next.
pub open spec fn strictly_increasing(seqs: Seq<u64>) -> bool {
    forall|i: int, j: int| 0 <= i < j < seqs.len() ==> seqs[i] < seqs[j]
}

proof fn lemma_gap_accounting_after(prev: u64, seqs: Seq<u64>)
    requires
        seqs.len() >= 1,
        strictly_increasing(seqs),
        prev < seqs[0],
    ensures
        dropped_total(true, Some(prev), seqs) == seqs.last() - prev - seqs.len(),
        reused_total(true, Some(prev), seqs) == 0,
    decreases seqs.len(),
{
    let rest = seqs.drop_first();
    if rest.len() >= 1 {
        lemma_gap_accounting_after(seqs[0], rest);
        assert(rest.last() == seqs.last());
    } else {
        assert(dropped_total(true, Some(seqs[0]), rest) == 0);
        assert(reused_total(true, Some(seqs[0]), rest) == 0);
    }
}

/// Every group of a validated track is accounted for: when groups arrive with
/// strictly increasing sequence numbers, none is reported reused, and the
/// groups received plus the groups reported skipped cover exactly the range
/// from the first sequence number to the last.
pub proof fn lemma_gap_accounting(seqs: Seq<u64>)
    requires
        seqs.len() >= 1,
        strictly_increasing(seqs),
    ensures
        seqs.len() + dropped_total(true, None, seqs) == seqs.last() - seqs[0] + 1,
        reused_total(true, None, seqs) == 0,
{
    let rest = seqs.drop_first();
    if rest.len() >= 1 {
        lemma_gap_accounting_after(seqs[0], rest);
        assert(rest.last() == seqs.last());
    } else {
        assert(dropped_total(true, Some(seqs[0]), rest) == 0);
        assert(reused_total(true, Some(seqs[0]), rest) == 0);
    }
}

/// Without validation nothing is reported skipped or reused, whatever order
/// the groups arrive in.
pub proof fn lemma_no_validation_no_reports(last: Option<u64>, seqs: Seq<u64>)
    ensures
        dropped_total(false, last, seqs) == 0,
        reused_total(false, last, seqs) == 0,
    decreases seqs.len(),
{
    if seqs.len() > 0 {
        lemma_no_validation_no_reports(Some(seqs[0]), seqs.drop_first());
    }
}

/// The probe measures one-way latency: a subscriber that measures latency and
/// receives, at `now_us`, a probe frame stamped `sent_us <= now_us` takes the
/// sample `now_us - sent_us`, whatever the frame's size and number.
pub proof fn lemma_probe_latency(
    validate: bool,
    expected_size: usize,
    size: nat,
    counter: u64,
    sent_us: u64,
    now_us: u64,
)
    requires
        sent_us <= now_us,
    ensures
        frame_verdict(
            validate,
            expected_size,
            true,
            timestamped_frame(size, counter, sent_us),
            now_us,
        ).latency_us == Some((now_us - sent_us) as u64),
{
    lemma_timestamp_roundtrip(size, counter, sent_us);
}

/// A frame that arrives stamped later than the receiving clock reads gives no
/// latency sample.
pub proof fn lemma_no_sample_from_the_future(
    validate: bool,
    expected_size: usize,
    size: nat,
    counter: u64,
    sent_us: u64,
    now_us: u64,
)
    requires
        now_us < sent_us,
    ensures
        frame_verdict(
            validate,
            expected_size,
            true,
            timestamped_frame(size, counter, sent_us),
            now_us,
        ).latency_us == None::<u64>,
{
    lemma_timestamp_roundtrip(size, counter, sent_us);
}

/// A subscriber validating against the frame size that the publisher was given
/// reports no size mismatch on the publisher's synthetic frames.
pub proof fn lemma_published_frames_pass_size_check(
    size: usize,
    fill: PayloadType,
    counter: u64,
    measure_latency: bool,
    now_us: u64,
)
    ensures
        !frame_verdict(true, size, measure_latency, payload(size as nat, fill, counter), now_us)
            .size_mismatch,
{
}

/// Probe frames made at a size of at least eight bytes are exactly that size,
/// so a validating subscriber expecting that size reports no mismatch.
pub proof fn lemma_probe_frames_pass_size_check(
    size: usize,
    counter: u64,
    sent_us: u64,
    measure_latency: bool,
    now_us: u64,
)
    requires
        size >= 8,
    ensures
        !frame_verdict(
            true,
            size,
            measure_latency,
            timestamped_frame(size as nat, counter, sent_us),
            now_us,
        ).size_mismatch,
{
}

/// With validation on, a group whose sequence number does not exceed the
/// previous group's is reported as reused, and nothing is reported skipped.
pub proof fn lemma_reuse_is_reported(prev: u64, seq: u64)
    requires
        seq <= prev,
    ensures
        group_verdict(true, Some(prev), seq).reused,
        group_verdict(true, Some(prev), seq).dropped == 0,
{
}

/// With validation on, a group whose sequence number exceeds the previous
/// group's is not reported as reused, and exactly the numbers strictly between
/// the two are reported skipped.
pub proof fn lemma_gap_is_reported(prev: u64, seq: u64)
    requires
        prev < seq,
    ensures
        !group_verdict(true, Some(prev), seq).reused,
        group_verdict(true, Some(prev), seq).dropped as int == seq - prev - 1,
{
}

/// The first group of a track, and every group without validation, is
/// neither reused nor preceded by skipped groups.
pub proof fn lemma_unvalidated_groups_unreported(validate: bool, last: Option<u64>, seq: u64)
    requires
        !validate || last is None,
    ensures
        group_verdict(validate, last, seq) == (GroupVerdict { reused: false, dropped: 0 }),
{
}

/// A frame's verdict records its length, flags a size mismatch exactly when
/// validation is on, a size is expected and the length differs from it (longer
/// or shorter), and yields a latency sample exactly when latency is measured,
/// the frame holds a timestamp, and the timestamp is not later than the clock;
/// the sample is then the clock reading minus the timestamp.
pub proof fn lemma_frame_verdict(
    validate: bool,
    expected_size: usize,
    measure_latency: bool,
    frame: Seq<u8>,
    now_us: u64,
)
    requires
        frame.len() <= u64::MAX,
    ensures
        ({
            let v = frame_verdict(validate, expected_size, measure_latency, frame, now_us);
            &&& v.len as int == frame.len()
            &&& v.size_mismatch <==> (validate && expected_size > 0 && frame.len() != expected_size)
            &&& v.latency_us is Some <==> (measure_latency && frame.len() >= 8 && frame_timestamp(
                frame,
            )->0 <= now_us)
            &&& v.latency_us is Some ==> v.latency_us->0 + frame_timestamp(frame)->0 == now_us
        }),
{
}

/// What a group verdict adds to the counters: one group; one error when the
/// group was reused; otherwise the skipped groups, which are never counted as
/// errors.
pub proof fn lemma_group_increments(v: GroupVerdict)
    ensures
        group_increments(v).groups_total == 1,
        group_increments(v).frames_total == 0,
        group_increments(v).bytes_total == 0,
        v.reused ==> group_increments(v).errors_total == 1 && group_increments(v).groups_dropped
            == 0,
        !v.reused ==> group_increments(v).errors_total == 0 && group_increments(v).groups_dropped
            == v.dropped,
{
}

/// What a frame verdict adds to the counters: one frame, its length in bytes,
/// one error exactly when its size did not match, and no group.
pub proof fn lemma_frame_increments(v: FrameVerdict)
    ensures
        frame_increments(v).frames_total == 1,
        frame_increments(v).bytes_total == v.len,
        frame_increments(v).errors_total == (if v.size_mismatch {
            1u64
        } else {
            0u64
        }),
        frame_increments(v).groups_total == 0,
        frame_increments(v).groups_dropped == 0,
{
}

/// The per-track state of a subscriber: the options that govern validation and
/// latency measurement, and the sequence number of the last group received.
pub struct TrackMonitor {
    validate: bool,
    expected_frame_size: usize,
    measure_latency: bool,
    last_seq: Option<u64>,
}

impl TrackMonitor {
    pub closed spec fn validates(&self) -> bool {
        self.validate
    }

    pub closed spec fn expected_size(&self) -> usize {
        self.expected_frame_size
    }

    pub closed spec fn measures_latency(&self) -> bool {
        self.measure_latency
    }

    /// The sequence number of the last group received, if any.
    pub closed spec fn last_sequence(&self) -> Option<u64> {
        self.last_seq
    }

    /// A monitor for a track on which no group has arrived yet. With `validate`,
    /// sequence reuse and gaps are reported and, when `expected_frame_size` is
    /// not zero, frames of any other size; with `measure_latency`, the
    /// timestamp header of each frame yields a latency sample.
    pub fn new(validate: bool, expected_frame_size: usize, measure_latency: bool) -> (m: Self)
        ensures
            m.validates() == validate,
            m.expected_size() == expected_frame_size,
            m.measures_latency() == measure_latency,
            m.last_sequence() == None::<u64>,
    {
        TrackMonitor { validate, expected_frame_size, measure_latency, last_seq: None }
    }

    /// The sequence number of the last group received, if any.
    pub fn last_seq(&self) -> (s: Option<u64>)
        ensures
            s == self.last_sequence(),
    {
        self.last_seq
    }

    /// Takes in a group numbered `seq`.
    pub fn on_group(&mut self, seq: u64) -> (v: GroupVerdict)
        ensures
            v == group_verdict(old(self).validates(), old(self).last_sequence(), seq),
            final(self).last_sequence() == Some(seq),
            final(self).validates() == old(self).validates(),
            final(self).expected_size() == old(self).expected_size(),
            final(self).measures_latency() == old(self).measures_latency(),
    {
        let mut v = GroupVerdict { reused: false, dropped: 0 };
        if self.validate {
            if let Some(prev) = self.last_seq {
                if seq <= prev {
                    v = GroupVerdict { reused: true, dropped: 0 };
                } else {
                    v = GroupVerdict { reused: false, dropped: seq - prev - 1 };
                }
            }
        }
        self.last_seq = Some(seq);
        v
    }

    /// Takes in a frame `frame` received when the clock read `now_us`.
    pub fn on_frame(&self, frame: &[u8], now_us: u64) -> (v: FrameVerdict)
        ensures
            v == frame_verdict(
                self.validates(),
                self.expected_size(),
                self.measures_latency(),
                frame@,
                now_us,
            ),
    {
        let mut latency_us: Option<u64> = None;
        if self.measure_latency {
            if let Some(sent_us) = read_timestamp_us(frame) {
                if now_us >= sent_us {
                    latency_us = Some(now_us - sent_us);
                }
            }
        }
        let size_mismatch = self.validate && self.expected_frame_size > 0 && frame.len()
            != self.expected_frame_size;
        FrameVerdict { len: frame.len() as u64, size_mismatch, latency_us }
    }
}

/// An announcement of `announced` (an active broadcast when `active`) is the
/// one a subscriber waiting for `target` takes: an active broadcast at exactly
/// that path. Other paths and withdrawals are passed over.
pub fn is_target_announcement(announced: &str, target: &str, active: bool) -> (r: bool)
    ensures
        r == (active && announced@ == target@),
{
    if !active {
        return false;
    }
    let n = announced.unicode_len();
    if n != target.unicode_len() {
        return false;
    }
    let mut i: usize = 0;
    while i < n
        invariant
            n == announced@.len(),
            n == target@.len(),
            i <= n,
            forall|j: int| 0 <= j < i ==> announced@[j] == target@[j],
        decreases n - i,
    {
        if announced.get_char(i) != target.get_char(i) {
            return false;
        }
        i = i + 1;
    }
    assert(announced@ =~= target@);
    true
}

/// What a group verdict adds to the counters: one group, one error when the
/// sequence number was reused, otherwise the groups skipped.
pub open spec fn group_increments(v: GroupVerdict) -> SubscribeIncrements {
    SubscribeIncrements {
        groups_total: 1,
        frames_total: 0,
        bytes_total: 0,
        errors_total: if v.reused {
            1
        } else {
            0
        },
        groups_dropped: if v.reused {
            0
        } else {
            v.dropped
        },
    }
}

/// What a frame verdict adds to the counters: one frame, its bytes, and one
/// error when its size did not match.
pub open spec fn frame_increments(v: FrameVerdict) -> SubscribeIncrements {
    SubscribeIncrements {
        groups_total: 0,
        frames_total: 1,
        bytes_total: v.len,
        errors_total: if v.size_mismatch {
            1
        } else {
            0
        },
        groups_dropped: 0,
    }
}

impl GroupVerdict {
    /// What this verdict adds to the counters.
    pub fn increments(&self) -> (inc: SubscribeIncrements)
        ensures
            inc == group_increments(*self),
    {
        if self.reused {
            SubscribeIncrements {
                groups_total: 1,
                frames_total: 0,
                bytes_total: 0,
                errors_total: 1,
                groups_dropped: 0,
            }
        } else {
            SubscribeIncrements {
                groups_total: 1,
                frames_total: 0,
                bytes_total: 0,
                errors_total: 0,
                groups_dropped: self.dropped,
            }
        }
    }
}

impl FrameVerdict {
    /// What this verdict adds to the counters.
    pub fn increments(&self) -> (inc: SubscribeIncrements)
        ensures
            inc == frame_increments(*self),
    {
        SubscribeIncrements {
            groups_total: 0,
            frames_total: 1,
            bytes_total: self.len,
            errors_total: if self.size_mismatch {
                1
            } else {
                0
            },
            groups_dropped: 0,
        }
    }
}

impl SubscribeMetrics {
    /// Counts a group received, with what its verdict reports.
    pub fn add_group(&self, v: &GroupVerdict) {
        self.apply(&v.increments());
    }

    /// Counts a frame received, with what its verdict reports.
    pub fn add_frame(&self, v: &FrameVerdict) {
        self.apply(&v.increments());
    }
}

} // verus!
