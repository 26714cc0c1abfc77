//! The `hdrhistogram` calls that the latency histogram makes.

use vstd::multiset::Multiset;
use vstd::prelude::*;

verus! {

/// Holds an `hdrhistogram::Histogram<u64>`, a histogram of `u64` samples kept
/// at a fixed number of significant decimal digits. The histogram type's
/// parameter is bounded by the crate's `Counter` trait, so the type is held in
/// a private field and reached only through the functions below.
#[verifier::external_body]
pub struct SampleHistogram {
    inner: hdrhistogram::Histogram<u64>,
}

/// Declares `hdrhistogram::CreationError`, the reason a histogram could not be built.
#[verifier::external_type_specification]
#[verifier::external_body]
pub struct ExCreationError(hdrhistogram::CreationError);

/// The samples recorded into a histogram, counted with multiplicity.
pub uninterp spec fn recorded(h: SampleHistogram) -> Multiset<u64>;

/// The number of significant decimal digits a histogram was made with (the
/// `sigfig` given to `Histogram::new`); it fixes the width of the buckets that
/// samples are counted in.
pub uninterp spec fn precision(h: SampleHistogram) -> u8;

/// What `Histogram::min` reports for a histogram made by `Histogram::new(sigfig)`
/// that holds these samples.
pub uninterp spec fn histogram_min(samples: Multiset<u64>, sigfig: u8) -> u64;

/// What `Histogram::max` reports for a histogram made by `Histogram::new(sigfig)`
/// that holds these samples.
pub uninterp spec fn histogram_max(samples: Multiset<u64>, sigfig: u8) -> u64;

/// What `Histogram::mean`, cut to an integer with `as u64`, reports for a
/// histogram made by `Histogram::new(sigfig)` that holds these samples.
pub uninterp spec fn histogram_mean(samples: Multiset<u64>, sigfig: u8) -> u64;

/// What `Histogram::value_at_percentile(p)` reports for a histogram made by
/// `Histogram::new(sigfig)` that holds these samples.
pub uninterp spec fn histogram_percentile(samples: Multiset<u64>, sigfig: u8, p: u8) -> u64;

/// Calls `Histogram::<u64>::new(sigfig)`, an auto-resizing histogram with
/// lowest discernible value 1. Its source rejects only a `sigfig` above 5 (the
/// other checks are on its fixed bounds 1 and 2, which pass), so for `sigfig <= 5`
/// the call succeeds; a new histogram holds no samples and keeps `sigfig`
/// significant digits.
#[verifier::external_body]
pub(crate) fn histogram_new(sigfig: u8) -> (r: Result<
    SampleHistogram,
    hdrhistogram::CreationError,
>)
    ensures
        sigfig <= 5 ==> r is Ok,
        r matches Ok(h) ==> recorded(h) == Multiset::<u64>::empty() && precision(h) == sigfig,
{
    match hdrhistogram::Histogram::<u64>::new(sigfig) {
        Ok(inner) => Ok(SampleHistogram { inner }),
        Err(e) => Err(e),
    }
}

/// Calls `Histogram::record(value)` and drops its `Result`. The histogram
/// resizes itself to fit the value; per the source, the only `Err` comes when
/// the grown counts array's length (a `u32`) does not fit in `usize`, which
/// cannot happen, so the sample is always added. Resizing only adds buckets of
/// the same precision.
#[verifier::external_body]
pub(crate) fn histogram_record(h: &mut SampleHistogram, value: u64)
    ensures
        recorded(*final(h)) == recorded(*old(h)).insert(value),
        precision(*final(h)) == precision(*old(h)),
{
    let _ = h.inner.record(value);
}

/// Calls `Histogram::len`, the number of samples recorded. The source keeps
/// this count with a saturating addition, so it stops at `u64::MAX`.
#[verifier::external_body]
pub(crate) fn histogram_len(h: &SampleHistogram) -> (n: u64)
    ensures
        n as int == if recorded(*h).len() > u64::MAX as nat {
            u64::MAX as int
        } else {
            recorded(*h).len() as int
        },
{
    h.inner.len()
}

/// Calls `Histogram::min`.
#[verifier::external_body]
pub(crate) fn histogram_min_of(h: &SampleHistogram) -> (v: u64)
    ensures
        v == histogram_min(recorded(*h), precision(*h)),
{
    h.inner.min()
}

/// Calls `Histogram::max`.
#[verifier::external_body]
pub(crate) fn histogram_max_of(h: &SampleHistogram) -> (v: u64)
    ensures
        v == histogram_max(recorded(*h), precision(*h)),
{
    h.inner.max()
}

/// Calls `Histogram::mean` and cuts the floating-point mean to `u64` with `as`.
#[verifier::external_body]
pub(crate) fn histogram_mean_of(h: &SampleHistogram) -> (v: u64)
    ensures
        v == histogram_mean(recorded(*h), precision(*h)),
{
    h.inner.mean() as u64
}

/// Calls `Histogram::value_at_percentile` with the percentile `p` widened to a float.
///
/// Per the source, for a histogram made by `Histogram::new` holding between one
/// and `u64::MAX` samples and a percentile below 100: the target count
/// `ceil(p / 100 * len)` is at least 1, grows with `p`, and stays within the
/// sample count, so the scan stops at a bucket no earlier than the smallest
/// sample's and no later than the largest sample's. The result (the top of
/// that bucket, or its bottom for `p == 0`) therefore lies between what `min`
/// and `max` report, and no lower percentile reports more.
#[verifier::external_body]
pub(crate) fn histogram_percentile_of(h: &SampleHistogram, p: u8) -> (v: u64)
    ensures
        v == histogram_percentile(recorded(*h), precision(*h), p),
        0 < recorded(*h).len() <= u64::MAX && p < 100 ==> histogram_min(
            recorded(*h),
            precision(*h),
        ) <= v <= histogram_max(recorded(*h), precision(*h)),
        0 < recorded(*h).len() <= u64::MAX && p < 100 ==> forall|q: u8|
            q <= p ==> #[trigger] histogram_percentile(recorded(*h), precision(*h), q) <= v,
{
    h.inner.value_at_percentile(p.into())
}

} // verus!
