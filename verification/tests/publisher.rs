use moqgen_core::publisher::split_frames;

#[test]
fn splits_into_frame_sized_pieces() {
    let data: Vec<u8> = (0u8..10).collect();
    let frames = split_frames(&data, 4);
    assert_eq!(frames.len(), 3);
    assert_eq!(&frames[0][..], &[0u8, 1, 2, 3][..]);
    assert_eq!(&frames[1][..], &[4u8, 5, 6, 7][..]);
    assert_eq!(&frames[2][..], &[8u8, 9][..]);
}

#[test]
fn exact_multiple_has_no_short_frame() {
    let data = [7u8; 8];
    let frames = split_frames(&data, 4);
    assert_eq!(frames.len(), 2);
    assert!(frames.iter().all(|f| f.len() == 4));
}

#[test]
fn zero_frame_size_means_one_byte_frames() {
    let frames = split_frames(&[1, 2, 3], 0);
    assert_eq!(frames.len(), 3);
    assert_eq!(&frames[2][..], &[3u8][..]);
}

#[test]
fn empty_file_gives_no_frames() {
    assert!(split_frames(&[], 16).is_empty());
}

#[test]
fn large_frame_size_gives_whole_file() {
    let data = [1u8, 2, 3];
    let frames = split_frames(&data, usize::MAX);
    assert_eq!(frames.len(), 1);
    assert_eq!(&frames[0][..], &data[..]);
}

#[test]
fn matches_slice_chunks() {
    let data: Vec<u8> = (0..=255u8).cycle().take(1000).collect();
    for size in [1usize, 3, 7, 64, 999, 1000, 1001] {
        let frames = split_frames(&data, size);
        let expected: Vec<&[u8]> = data.chunks(size).collect();
        assert_eq!(frames.len(), expected.len());
        for (f, e) in frames.iter().zip(expected) {
            assert_eq!(&f[..], e);
        }
    }
}
