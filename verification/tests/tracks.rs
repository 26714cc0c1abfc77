use moqgen_core::tracks::{publisher_track_names, subscriber_track_names, track_name};

#[test]
fn track_names_are_decimal() {
    assert_eq!(track_name(0), "track-0");
    assert_eq!(track_name(7), "track-7");
    assert_eq!(track_name(10), "track-10");
    assert_eq!(track_name(1234567), "track-1234567");
    assert_eq!(track_name(usize::MAX), format!("track-{}", usize::MAX));
}

#[test]
fn publisher_creates_requested_tracks() {
    assert_eq!(publisher_track_names(3), vec!["track-0", "track-1", "track-2"]);
    assert!(publisher_track_names(0).is_empty());
}

#[test]
fn subscriber_matches_publisher_and_takes_at_least_one() {
    for n in 1..20 {
        assert_eq!(subscriber_track_names(n), publisher_track_names(n));
    }
    assert_eq!(subscriber_track_names(0), vec!["track-0"]);
}

#[test]
fn track_names_are_distinct() {
    let names = publisher_track_names(120);
    for i in 0..names.len() {
        for j in 0..i {
            assert_ne!(names[i], names[j]);
        }
    }
}
