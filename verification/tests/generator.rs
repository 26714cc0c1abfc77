use moqgen_core::config::PayloadType;
use moqgen_core::generator::{probe_frame_size, read_timestamp_us, FrameGenerator};

#[test]
fn new_generator_starts_at_frame_zero() {
    let g = FrameGenerator::new(16, PayloadType::Random);
    assert_eq!(g.frames_generated(), 0);
}

#[test]
fn random_payload_counts_from_frame_number() {
    let mut g = FrameGenerator::new(5, PayloadType::Random);
    let f0 = g.generate();
    assert_eq!(&f0[..], &[0u8, 1, 2, 3, 4][..]);
    let f1 = g.generate();
    assert_eq!(&f1[..], &[1u8, 2, 3, 4, 5][..]);
    assert_eq!(g.frames_generated(), 2);
}

#[test]
fn random_payload_wraps_at_256() {
    let mut g = FrameGenerator::new(300, PayloadType::Random);
    let f = g.generate();
    assert_eq!(f.len(), 300);
    assert_eq!(f[255], 255);
    assert_eq!(f[256], 0);
    assert_eq!(f[299], 43);
}

#[test]
fn sequential_payload_carries_frame_number_big_endian() {
    let mut g = FrameGenerator::new(12, PayloadType::Sequential);
    let mut last = g.generate();
    for _ in 0..257 {
        last = g.generate();
    }
    // frame number 257 = 0x0101
    assert_eq!(&last[..], &[0u8, 0, 0, 0, 0, 0, 1, 1, 0, 0, 0, 0][..]);
    assert_eq!(read_timestamp_us(&last), Some(257));
}

#[test]
fn sequential_payload_shorter_than_header_is_cut() {
    let mut g = FrameGenerator::new(3, PayloadType::Sequential);
    let f = g.generate();
    assert_eq!(&f[..], &[0u8, 0, 0][..]);
}

#[test]
fn fixed_payload_fills_every_byte() {
    let mut g = FrameGenerator::new(4, PayloadType::Fixed(0xAB));
    let f = g.generate();
    assert_eq!(&f[..], &[0xABu8; 4][..]);
}

#[test]
fn zero_size_frames_are_empty() {
    let mut g = FrameGenerator::new(0, PayloadType::Random);
    assert_eq!(g.generate().len(), 0);
}

#[test]
fn timestamped_frame_roundtrips_timestamp() {
    let mut g = FrameGenerator::new(16, PayloadType::Random);
    let _ = g.generate();
    let f = g.generate_with_timestamp_at(0x0102_0304_0506_0708);
    assert_eq!(
        &f[..],
        &[1u8, 2, 3, 4, 5, 6, 7, 8, 1, 1, 1, 1, 1, 1, 1, 1][..]
    );
    assert_eq!(read_timestamp_us(&f), Some(0x0102_0304_0506_0708));
}

#[test]
fn timestamped_frame_is_padded_to_header() {
    let mut g = FrameGenerator::new(2, PayloadType::Random);
    let f = g.generate_with_timestamp_at(42);
    assert_eq!(f.len(), 8);
    assert_eq!(read_timestamp_us(&f), Some(42));
}

#[test]
fn timestamp_from_clock_is_current() {
    let before = std::time::SystemTime::now()
        .duration_since(std::time::UNIX_EPOCH)
        .unwrap()
        .as_micros() as u64;
    let mut g = FrameGenerator::new(64, PayloadType::Random);
    let f = g.generate_with_timestamp();
    let after = std::time::SystemTime::now()
        .duration_since(std::time::UNIX_EPOCH)
        .unwrap()
        .as_micros() as u64;
    assert_eq!(f.len(), 64);
    let ts = read_timestamp_us(&f).unwrap();
    assert!(before <= ts && ts <= after);
    assert_eq!(g.frames_generated(), 1);
}

#[test]
fn read_timestamp_needs_eight_bytes() {
    assert_eq!(read_timestamp_us(&[1, 2, 3, 4, 5, 6, 7]), None);
    assert_eq!(read_timestamp_us(&[]), None);
    assert_eq!(read_timestamp_us(&[0, 0, 0, 0, 0, 0, 0, 9, 0xFF]), Some(9));
    assert_eq!(read_timestamp_us(&[0xFF; 8]), Some(u64::MAX));
}

#[test]
fn probe_frame_size_is_at_least_header() {
    assert_eq!(probe_frame_size(0), 8);
    assert_eq!(probe_frame_size(7), 8);
    assert_eq!(probe_frame_size(8), 8);
    assert_eq!(probe_frame_size(64), 64);
}

#[test]
fn group_numbers_frames_consecutively() {
    let mut g = FrameGenerator::new(2, PayloadType::Random);
    let frames = g.generate_group(3);
    assert_eq!(frames.len(), 3);
    assert_eq!(&frames[0][..], &[0u8, 1][..]);
    assert_eq!(&frames[1][..], &[1u8, 2][..]);
    assert_eq!(&frames[2][..], &[2u8, 3][..]);
    assert_eq!(g.frames_generated(), 3);
    assert!(g.generate_group(0).is_empty());
}

#[test]
fn fixed_frames_do_not_change_with_number() {
    let mut g = FrameGenerator::new(6, PayloadType::Fixed(3));
    let first = g.generate();
    for _ in 0..10 {
        assert_eq!(g.generate(), first);
    }
}

#[test]
fn timestamped_frames_ignore_fill() {
    let mut a = FrameGenerator::new(12, PayloadType::Fixed(9));
    let mut b = FrameGenerator::new(12, PayloadType::Sequential);
    assert_eq!(a.generate_with_timestamp_at(5), b.generate_with_timestamp_at(5));
}
