use moqgen_core::metrics::{LatencyHistogram, PublishMetrics, PublishSnapshot, SubscribeMetrics, SubscribeSnapshot};

#[test]
fn fresh_metrics_are_zero() {
    assert_eq!(PublishMetrics::default().snapshot(), PublishSnapshot::default());
    assert_eq!(SubscribeMetrics::default().snapshot(), SubscribeSnapshot::default());
}

#[test]
fn publish_metrics_count() {
    let m = PublishMetrics::default();
    m.add_frame(100);
    m.add_frame(28);
    m.add_group();
    m.add_error();
    assert_eq!(
        m.snapshot(),
        PublishSnapshot { groups_total: 1, frames_total: 2, bytes_total: 128, errors_total: 1 }
    );
}

#[test]
fn empty_histogram_has_no_snapshot() {
    let h = LatencyHistogram::new().unwrap();
    assert!(h.snapshot().is_none());
}

#[test]
fn histogram_summary() {
    let mut h = LatencyHistogram::new().unwrap();
    h.record(100);
    h.record(200);
    h.record(300);
    let s = h.snapshot().unwrap();
    assert_eq!(s.count, 3);
    assert_eq!(s.min_us, 100);
    assert_eq!(s.max_us, 300);
    assert_eq!(s.mean_us, 200);
    assert_eq!(s.p50_us, 200);
    assert_eq!(s.p90_us, 300);
    assert_eq!(s.p99_us, 300);
}

#[test]
fn histogram_records_extreme_values() {
    let mut h = LatencyHistogram::new().unwrap();
    h.record(0);
    h.record(u64::MAX);
    let s = h.snapshot().unwrap();
    assert_eq!(s.count, 2);
    assert_eq!(s.min_us, 0);
}

#[test]
fn single_sample_is_reported() {
    let mut h = LatencyHistogram::new().unwrap();
    h.record(42);
    let s = h.snapshot().unwrap();
    assert_eq!(s.count, 1);
    assert_eq!(s.min_us, 42);
    assert_eq!(s.max_us, 42);
    assert_eq!(s.p99_us, 42);
}

#[test]
fn histogram_statistics_are_ordered() {
    let mut h = LatencyHistogram::new().unwrap();
    let mut x: u64 = 12345;
    for _ in 0..2000 {
        x = x.wrapping_mul(6364136223846793005).wrapping_add(1442695040888963407);
        h.record(x >> 40);
    }
    h.record(0);
    h.record(u64::MAX >> 2);
    let s = h.snapshot().unwrap();
    assert_eq!(s.count, 2002);
    assert!(s.min_us <= s.p50_us);
    assert!(s.p50_us <= s.p90_us);
    assert!(s.p90_us <= s.p99_us);
    assert!(s.p99_us <= s.max_us);
}
