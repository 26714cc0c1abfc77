//! Counters shared by the tasks of a run, their snapshots, and the latency histogram.

use std::sync::atomic::{AtomicU64, Ordering};

use vstd::multiset::Multiset;
use vstd::prelude::*;

use crate::histogram::{
    histogram_len, histogram_max, histogram_max_of, histogram_mean, histogram_mean_of,
    histogram_min, histogram_min_of, histogram_new, histogram_percentile,
    histogram_percentile_of, histogram_record, precision, recorded, SampleHistogram,
};

verus! {

// ---------------------------------------------------------------------------
// Publish metrics
// ---------------------------------------------------------------------------

/// Totals of a publishing run, updated concurrently by the track tasks.
pub struct PublishMetrics {
    pub groups_total: AtomicU64,
    pub frames_total: AtomicU64,
    pub bytes_total: AtomicU64,
    pub errors_total: AtomicU64,
}

impl Default for PublishMetrics {
    fn default() -> Self {
        PublishMetrics {
            groups_total: AtomicU64::new(0),
            frames_total: AtomicU64::new(0),
            bytes_total: AtomicU64::new(0),
            errors_total: AtomicU64::new(0),
        }
    }
}

impl PublishMetrics {
    /// Reads every counter once. Other tasks may update the counters at any
    /// time, so the values read are not stated.
    pub fn snapshot(&self) -> PublishSnapshot {
        PublishSnapshot {
            groups_total: self.groups_total.load(Ordering::Relaxed),
            frames_total: self.frames_total.load(Ordering::Relaxed),
            bytes_total: self.bytes_total.load(Ordering::Relaxed),
            errors_total: self.errors_total.load(Ordering::Relaxed),
        }
    }

    /// Counts one frame of `len` bytes written.
    pub fn add_frame(&self, len: u64) {
        self.frames_total.fetch_add(1, Ordering::Relaxed);
        self.bytes_total.fetch_add(len, Ordering::Relaxed);
    }

    /// Counts one group closed.
    pub fn add_group(&self) {
        self.groups_total.fetch_add(1, Ordering::Relaxed);
    }

    /// Counts one error.
    pub fn add_error(&self) {
        self.errors_total.fetch_add(1, Ordering::Relaxed);
    }
}

/// The publishing totals read at one moment.
#[derive(Clone, Copy, Debug, Default, PartialEq, Eq, Structural)]
pub struct PublishSnapshot {
    pub groups_total: u64,
    pub frames_total: u64,
    pub bytes_total: u64,
    pub errors_total: u64,
}

// ---------------------------------------------------------------------------
// Subscribe metrics
// ---------------------------------------------------------------------------

/// Totals of a subscribing run, updated concurrently by the track tasks.
pub struct SubscribeMetrics {
    pub groups_total: AtomicU64,
    pub frames_total: AtomicU64,
    pub bytes_total: AtomicU64,
    pub errors_total: AtomicU64,
    pub groups_dropped: AtomicU64,
}

impl Default for SubscribeMetrics {
    fn default() -> Self {
        SubscribeMetrics {
            groups_total: AtomicU64::new(0),
            frames_total: AtomicU64::new(0),
            bytes_total: AtomicU64::new(0),
            errors_total: AtomicU64::new(0),
            groups_dropped: AtomicU64::new(0),
        }
    }
}

impl SubscribeMetrics {
    /// Reads every counter once. Other tasks may update the counters at any
    /// time, so the values read are not stated.
    pub fn snapshot(&self) -> SubscribeSnapshot {
        SubscribeSnapshot {
            groups_total: self.groups_total.load(Ordering::Relaxed),
            frames_total: self.frames_total.load(Ordering::Relaxed),
            bytes_total: self.bytes_total.load(Ordering::Relaxed),
            errors_total: self.errors_total.load(Ordering::Relaxed),
            groups_dropped: self.groups_dropped.load(Ordering::Relaxed),
        }
    }

    /// Counts one error.
    pub fn add_error(&self) {
        self.errors_total.fetch_add(1, Ordering::Relaxed);
    }

    /// Adds each increment to its counter.
    pub fn apply(&self, inc: &SubscribeIncrements) {
        if inc.groups_total > 0 {
            self.groups_total.fetch_add(inc.groups_total, Ordering::Relaxed);
        }
        if inc.frames_total > 0 {
            self.frames_total.fetch_add(inc.frames_total, Ordering::Relaxed);
        }
        if inc.bytes_total > 0 {
            self.bytes_total.fetch_add(inc.bytes_total, Ordering::Relaxed);
        }
        if inc.errors_total > 0 {
            self.errors_total.fetch_add(inc.errors_total, Ordering::Relaxed);
        }
        if inc.groups_dropped > 0 {
            self.groups_dropped.fetch_add(inc.groups_dropped, Ordering::Relaxed);
        }
    }
}

/// How much each subscribing counter grows for one event.
#[derive(Clone, Copy, Debug, Default, PartialEq, Eq, Structural)]
pub struct SubscribeIncrements {
    pub groups_total: u64,
    pub frames_total: u64,
    pub bytes_total: u64,
    pub errors_total: u64,
    pub groups_dropped: u64,
}

/// The subscribing totals read at one moment.
#[derive(Clone, Copy, Debug, Default, PartialEq, Eq, Structural)]
pub struct SubscribeSnapshot {
    pub groups_total: u64,
    pub frames_total: u64,
    pub bytes_total: u64,
    pub errors_total: u64,
    pub groups_dropped: u64,
}

// ---------------------------------------------------------------------------
// Latency histogram (microseconds)
// ---------------------------------------------------------------------------

/// Significant decimal digits that the latency histogram keeps.
pub const LATENCY_SIGFIG: u8 = 3;

/// Why a latency histogram could not be built.
#[derive(Clone, Copy, Debug, PartialEq, Eq, Structural)]
pub enum LatencyError {
    /// The histogram library refused the configuration.
    HistogramInit,
}

/// One-way latency samples in microseconds.
pub struct LatencyHistogram {
    inner: SampleHistogram,
}

/// The summary of a latency histogram at `sigfig` significant digits holding
/// `samples`, which is not empty.
pub open spec fn latency_summary(samples: Multiset<u64>, sigfig: u8) -> LatencySnapshot {
    LatencySnapshot {
        count: if samples.len() > u64::MAX as nat {
            u64::MAX
        } else {
            samples.len() as u64
        },
        min_us: histogram_min(samples, sigfig),
        max_us: histogram_max(samples, sigfig),
        mean_us: histogram_mean(samples, sigfig),
        p50_us: histogram_percentile(samples, sigfig, 50),
        p90_us: histogram_percentile(samples, sigfig, 90),
        p99_us: histogram_percentile(samples, sigfig, 99),
    }
}

/// Once a sample is recorded the histogram is reported: the summary of any
/// samples plus one more counts at least one sample.
pub proof fn lemma_recorded_sample_is_reported(samples: Multiset<u64>, sigfig: u8, us: u64)
    ensures
        samples.insert(us).len() > 0,
        latency_summary(samples.insert(us), sigfig).count >= 1,
{
}

impl LatencyHistogram {
    /// The samples recorded so far, with multiplicity.
    pub closed spec fn samples(&self) -> Multiset<u64> {
        recorded(self.inner)
    }

    /// The number of significant digits the histogram keeps.
    pub closed spec fn sigfig(&self) -> u8 {
        precision(self.inner)
    }

    /// An empty histogram at `LATENCY_SIGFIG` (three) significant digits.
    pub fn new() -> (r: Result<Self, LatencyError>)
        ensures
            r is Ok,
            r matches Ok(h) ==> h.samples() == Multiset::<u64>::empty() && h.sigfig()
                == LATENCY_SIGFIG,
    {
        match histogram_new(LATENCY_SIGFIG) {
            Ok(inner) => Ok(LatencyHistogram { inner }),
            Err(_) => Err(LatencyError::HistogramInit),
        }
    }

    /// Records one sample of `us` microseconds.
    pub fn record(&mut self, us: u64)
        ensures
            final(self).samples() == old(self).samples().insert(us),
            final(self).sigfig() == old(self).sigfig(),
    {
        histogram_record(&mut self.inner, us);
    }

    /// The summary of the samples so far, or `None` when there are none.
    pub fn snapshot(&self) -> (s: Option<LatencySnapshot>)
        ensures
            s == (if self.samples().len() == 0 {
                None
            } else {
                Some(latency_summary(self.samples(), self.sigfig()))
            }),
            s is Some && self.samples().len() <= u64::MAX ==> s->0.min_us <= s->0.p50_us
                <= s->0.p90_us <= s->0.p99_us <= s->0.max_us,
    {
        let count = histogram_len(&self.inner);
        if count == 0 {
            return None;
        }
        Some(
            LatencySnapshot {
                count,
                min_us: histogram_min_of(&self.inner),
                max_us: histogram_max_of(&self.inner),
                mean_us: histogram_mean_of(&self.inner),
                p50_us: histogram_percentile_of(&self.inner, 50),
                p90_us: histogram_percentile_of(&self.inner, 90),
                p99_us: histogram_percentile_of(&self.inner, 99),
            },
        )
    }
}

/// Summary statistics of the latency samples, in microseconds.
#[derive(Clone, Copy, Debug, PartialEq, Eq, Structural)]
pub struct LatencySnapshot {
    pub count: u64,
    pub min_us: u64,
    pub max_us: u64,
    pub mean_us: u64,
    pub p50_us: u64,
    pub p90_us: u64,
    pub p99_us: u64,
}

} // verus!
