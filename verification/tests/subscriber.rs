use moqgen_core::config::PayloadType;
use moqgen_core::generator::FrameGenerator;
use moqgen_core::metrics::{SubscribeIncrements, SubscribeMetrics};
use moqgen_core::subscriber::{is_target_announcement, FrameVerdict, GroupVerdict, TrackMonitor};

#[test]
fn first_group_is_never_reported() {
    let mut m = TrackMonitor::new(true, 0, false);
    assert_eq!(m.on_group(5), GroupVerdict { reused: false, dropped: 0 });
}

#[test]
fn gaps_are_counted() {
    let mut m = TrackMonitor::new(true, 0, false);
    m.on_group(0);
    assert_eq!(m.on_group(1), GroupVerdict { reused: false, dropped: 0 });
    assert_eq!(m.on_group(4), GroupVerdict { reused: false, dropped: 2 });
    assert_eq!(m.on_group(u64::MAX), GroupVerdict { reused: false, dropped: u64::MAX - 5 });
}

#[test]
fn reuse_is_an_error() {
    let mut m = TrackMonitor::new(true, 0, false);
    m.on_group(10);
    assert_eq!(m.on_group(10), GroupVerdict { reused: true, dropped: 0 });
    assert_eq!(m.on_group(3), GroupVerdict { reused: true, dropped: 0 });
    // the last sequence number moves back to 3
    assert_eq!(m.on_group(5), GroupVerdict { reused: false, dropped: 1 });
    m.on_group(u64::MAX);
    assert_eq!(m.on_group(u64::MAX), GroupVerdict { reused: true, dropped: 0 });
}

#[test]
fn without_validation_nothing_is_reported() {
    let mut m = TrackMonitor::new(false, 0, false);
    m.on_group(10);
    assert_eq!(m.on_group(2), GroupVerdict { reused: false, dropped: 0 });
    assert_eq!(m.on_group(100), GroupVerdict { reused: false, dropped: 0 });
}

#[test]
fn gap_accounting_covers_the_range() {
    let seqs = [3u64, 4, 9, 10, 20];
    let mut m = TrackMonitor::new(true, 0, false);
    let mut dropped = 0;
    for s in seqs {
        let v = m.on_group(s);
        assert!(!v.reused);
        dropped += v.dropped;
    }
    assert_eq!(seqs.len() as u64 + dropped, 20 - 3 + 1);
}

#[test]
fn frame_size_mismatch_only_when_validating_with_a_size() {
    let m = TrackMonitor::new(true, 4, false);
    assert_eq!(
        m.on_frame(&[1, 2, 3], 0),
        FrameVerdict { len: 3, size_mismatch: true, latency_us: None }
    );
    assert_eq!(
        m.on_frame(&[1, 2, 3, 4], 0),
        FrameVerdict { len: 4, size_mismatch: false, latency_us: None }
    );
    let any_size = TrackMonitor::new(true, 0, false);
    assert!(!any_size.on_frame(&[1], 0).size_mismatch);
    let off = TrackMonitor::new(false, 4, false);
    assert!(!off.on_frame(&[1], 0).size_mismatch);
}

#[test]
fn latency_from_probe_frames() {
    let mut g = FrameGenerator::new(64, PayloadType::Random);
    let frame = g.generate_with_timestamp_at(1_000);
    let m = TrackMonitor::new(false, 0, true);
    assert_eq!(m.on_frame(&frame, 1_250).latency_us, Some(250));
    assert_eq!(m.on_frame(&frame, 1_000).latency_us, Some(0));
    assert_eq!(m.on_frame(&frame, 999).latency_us, None);
    assert_eq!(m.on_frame(&[1, 2, 3], 5_000).latency_us, None);
    let not_measuring = TrackMonitor::new(false, 0, false);
    assert_eq!(not_measuring.on_frame(&frame, 1_250).latency_us, None);
}

#[test]
fn generated_frames_pass_validation() {
    let mut g = FrameGenerator::new(32, PayloadType::Sequential);
    let m = TrackMonitor::new(true, 32, false);
    for _ in 0..5 {
        let f = g.generate();
        assert!(!m.on_frame(&f, 0).size_mismatch);
    }
}

#[test]
fn announcement_matching() {
    assert!(is_target_announcement("moqgen/test", "moqgen/test", true));
    assert!(!is_target_announcement("moqgen/test", "moqgen/test", false));
    assert!(!is_target_announcement("moqgen/other", "moqgen/test", true));
    assert!(!is_target_announcement("moqgen/tes", "moqgen/test", true));
    assert!(is_target_announcement("", "", true));
    assert!(is_target_announcement("ünï/ç", "ünï/ç", true));
}

#[test]
fn subscribe_metrics_apply_verdicts() {
    let metrics = SubscribeMetrics::default();
    metrics.add_group(&GroupVerdict { reused: false, dropped: 3 });
    metrics.add_group(&GroupVerdict { reused: true, dropped: 0 });
    metrics.add_frame(&FrameVerdict { len: 10, size_mismatch: false, latency_us: None });
    metrics.add_frame(&FrameVerdict { len: 5, size_mismatch: true, latency_us: Some(1) });
    metrics.add_error();
    let s = metrics.snapshot();
    assert_eq!(s.groups_total, 2);
    assert_eq!(s.groups_dropped, 3);
    assert_eq!(s.frames_total, 2);
    assert_eq!(s.bytes_total, 15);
    assert_eq!(s.errors_total, 3);
}

#[test]
fn probe_frames_pass_validation_at_probe_size() {
    let size = moqgen_core::generator::probe_frame_size(3);
    let mut g = FrameGenerator::new(size, PayloadType::Random);
    let m = TrackMonitor::new(true, size, true);
    let f = g.generate_with_timestamp_at(77);
    let v = m.on_frame(&f, 100);
    assert!(!v.size_mismatch);
    assert_eq!(v.len, 8);
    assert_eq!(v.latency_us, Some(23));
}

#[test]
fn verdict_increments() {
    assert_eq!(
        GroupVerdict { reused: false, dropped: 4 }.increments(),
        SubscribeIncrements { groups_total: 1, frames_total: 0, bytes_total: 0, errors_total: 0, groups_dropped: 4 }
    );
    assert_eq!(
        GroupVerdict { reused: true, dropped: 0 }.increments(),
        SubscribeIncrements { groups_total: 1, frames_total: 0, bytes_total: 0, errors_total: 1, groups_dropped: 0 }
    );
    assert_eq!(
        FrameVerdict { len: 9, size_mismatch: true, latency_us: None }.increments(),
        SubscribeIncrements { groups_total: 0, frames_total: 1, bytes_total: 9, errors_total: 1, groups_dropped: 0 }
    );
    assert_eq!(
        FrameVerdict { len: 0, size_mismatch: false, latency_us: Some(3) }.increments(),
        SubscribeIncrements { groups_total: 0, frames_total: 1, bytes_total: 0, errors_total: 0, groups_dropped: 0 }
    );
}

#[test]
fn monitor_remembers_last_sequence() {
    let mut m = TrackMonitor::new(true, 0, false);
    assert_eq!(m.last_seq(), None);
    m.on_group(7);
    assert_eq!(m.last_seq(), Some(7));
}

#[test]
fn clock_reads_current_time() {
    let before = std::time::SystemTime::now()
        .duration_since(std::time::UNIX_EPOCH)
        .unwrap()
        .as_micros() as u64;
    let now = moqgen_core::clock::unix_micros_now();
    let after = std::time::SystemTime::now()
        .duration_since(std::time::UNIX_EPOCH)
        .unwrap()
        .as_micros() as u64;
    assert!(before <= now && now <= after);
}
