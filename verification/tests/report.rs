use moqgen_core::metrics::LatencySnapshot;
use moqgen_core::report::latency_text;

#[test]
fn latency_line_lists_statistics() {
    let s = LatencySnapshot {
        count: 3,
        min_us: 100,
        max_us: 300,
        mean_us: 200,
        p50_us: 200,
        p90_us: 300,
        p99_us: 310,
    };
    assert_eq!(
        latency_text(&s),
        "latency | n=3 min=100µs p50=200µs p90=300µs p99=310µs max=300µs mean=200µs"
    );
}

#[test]
fn latency_line_matches_format() {
    let s = LatencySnapshot {
        count: u64::MAX,
        min_us: 0,
        max_us: u64::MAX,
        mean_us: 9,
        p50_us: 10,
        p90_us: 99,
        p99_us: 1000,
    };
    let expected = format!(
        "latency | n={} min={}µs p50={}µs p90={}µs p99={}µs max={}µs mean={}µs",
        s.count, s.min_us, s.p50_us, s.p90_us, s.p99_us, s.max_us, s.mean_us
    );
    assert_eq!(latency_text(&s), expected);
}

#[test]
fn latency_line_without_samples() {
    let s = LatencySnapshot { count: 0, min_us: 1, max_us: 2, mean_us: 3, p50_us: 4, p90_us: 5, p99_us: 6 };
    assert_eq!(latency_text(&s), "latency | no samples yet");
}
