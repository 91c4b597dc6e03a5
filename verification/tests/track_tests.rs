use aves::clip::Clip;
use aves::track::{Track, TrackError, TrackType, MAX_VOLUME};

fn from_seconds(seconds: f64) -> i64 {
    (seconds * 1_000_000_000.0) as i64
}

#[test]
fn test_track_creation() {
    let track = Track::new(1, TrackType::Video);
    assert_eq!(track.clips.len(), 0);
    assert_eq!(track.volume, MAX_VOLUME);
    assert!(!track.muted);
}

#[test]
fn track_test_add_clip() {
    let mut track = Track::new(1, TrackType::Video);

    let clip = Clip::new(
        1,
        String::from("test.mp4"),
        from_seconds(0.0),
        from_seconds(2.0),
        from_seconds(0.0),
        0,
    );

    track.add_clip(clip).unwrap();
    assert_eq!(track.clips.len(), 1);
}

#[test]
fn test_clip_at() {
    let mut track = Track::new(1, TrackType::Video);

    let clip = Clip::new(
        1,
        String::from("test.mp4"),
        from_seconds(0.0),
        from_seconds(2.0),
        from_seconds(1.0),
        0,
    );

    track.add_clip(clip).unwrap();

    assert!(track.clip_at(from_seconds(1.5)).is_some());
    assert!(track.clip_at(from_seconds(0.5)).is_none());
}

#[test]
fn test_duration() {
    let mut track = Track::new(1, TrackType::Video);

    let clip1 = Clip::new(
        1,
        String::from("test.mp4"),
        from_seconds(0.0),
        from_seconds(2.0),
        from_seconds(0.0),
        0,
    );

    let clip2 = Clip::new(
        2,
        String::from("test2.mp4"),
        from_seconds(0.0),
        from_seconds(3.0),
        from_seconds(5.0),
        0,
    );

    track.add_clip(clip1).unwrap();
    track.add_clip(clip2).unwrap();

    // Duration should be end of last clip (5 + 3 = 8 seconds)
    assert_eq!(track.duration(), from_seconds(8.0));
}

#[test]
fn track_test_overlap_validation() {
    let mut track = Track::new(1, TrackType::Video);

    let clip1 = Clip::new(
        1,
        String::from("test1.mp4"),
        from_seconds(0.0),
        from_seconds(10.0),
        from_seconds(0.0),
        0,
    );

    let clip2 = Clip::new(
        2,
        String::from("test2.mp4"),
        from_seconds(0.0),
        from_seconds(10.0),
        from_seconds(5.0), // Overlaps with clip1
        0,
    );

    let clip3 = Clip::new(
        3,
        String::from("test3.mp4"),
        from_seconds(0.0),
        from_seconds(10.0),
        from_seconds(15.0), // No overlap
        0,
    );

    // First clip should be added successfully
    assert!(track.add_clip(clip1).is_ok());

    // Second clip overlaps: rejected, reporting the existing clip it hit
    assert!(matches!(track.add_clip(clip2), Err(TrackError::Overlap { clip_id: 1 })));

    // Third clip doesn't overlap, should succeed
    assert!(track.add_clip(clip3).is_ok());

    // Track should have 2 clips (clip1 and clip3)
    assert_eq!(track.clips.len(), 2);
}

#[test]
fn test_overlap_edge_cases() {
    let mut track = Track::new(1, TrackType::Video);

    let clip1 = Clip::new(
        1,
        String::from("test1.mp4"),
        from_seconds(0.0),
        from_seconds(10.0),
        from_seconds(0.0),
        0,
    );

    // Adjacent clips (touching but not overlapping) should be allowed
    let clip2 = Clip::new(
        2,
        String::from("test2.mp4"),
        from_seconds(0.0),
        from_seconds(10.0),
        from_seconds(10.0), // Starts exactly where clip1 ends
        0,
    );

    // Clip that starts before but ends during clip1
    let clip3 = Clip::new(
        3,
        String::from("test3.mp4"),
        from_seconds(0.0),
        from_seconds(10.0),
        from_seconds(5.0), // Overlaps
        0,
    );

    track.add_clip(clip1).unwrap();

    // Adjacent clips should be allowed
    assert!(track.add_clip(clip2).is_ok());

    // Overlapping clip should be rejected
    assert!(track.add_clip(clip3).is_err());
}

#[test]
fn track_test_clips_in_range() {
    let mut track = Track::new(1, TrackType::Video);

    let clip1 = Clip::new(
        1,
        String::from("test1.mp4"),
        from_seconds(0.0),
        from_seconds(5.0),
        from_seconds(0.0),
        0,
    );

    let clip2 = Clip::new(
        2,
        String::from("test2.mp4"),
        from_seconds(0.0),
        from_seconds(5.0),
        from_seconds(10.0),
        0,
    );

    let clip3 = Clip::new(
        3,
        String::from("test3.mp4"),
        from_seconds(0.0),
        from_seconds(5.0),
        from_seconds(20.0),
        0,
    );

    track.add_clip(clip1).unwrap();
    track.add_clip(clip2).unwrap();
    track.add_clip(clip3).unwrap();

    // Range [2s, 12s] should include clip1 and clip2
    let clips = track.clips_in_range(from_seconds(2.0), from_seconds(12.0));
    assert_eq!(clips.len(), 2);
    assert!(clips.iter().any(|c| c.id == 1));
    assert!(clips.iter().any(|c| c.id == 2));
}

#[test]
fn test_sorted_order() {
    let mut track = Track::new(1, TrackType::Video);

    // Add clips in non-sorted order
    let clip1 = Clip::new(
        1,
        String::from("test1.mp4"),
        from_seconds(0.0),
        from_seconds(5.0),
        from_seconds(20.0),
        0,
    );
    let clip2 = Clip::new(
        2,
        String::from("test2.mp4"),
        from_seconds(0.0),
        from_seconds(5.0),
        from_seconds(0.0),
        0,
    );
    let clip3 = Clip::new(
        3,
        String::from("test3.mp4"),
        from_seconds(0.0),
        from_seconds(5.0),
        from_seconds(10.0),
        0,
    );

    track.add_clip(clip1).unwrap();
    track.add_clip(clip2).unwrap();
    track.add_clip(clip3).unwrap();

    // Clips should be sorted by timeline_start
    assert_eq!(track.clips[0].id, 2); // timeline_start = 0
    assert_eq!(track.clips[1].id, 3); // timeline_start = 10
    assert_eq!(track.clips[2].id, 1); // timeline_start = 20
}

#[test]
fn test_remove_clip_from_track() {
    let mut track = Track::new(1, TrackType::Audio);
    let clip = Clip::new(
        9,
        String::from("a.mp4"),
        from_seconds(0.0),
        from_seconds(1.0),
        from_seconds(0.0),
        1,
    );
    track.add_clip(clip).unwrap();

    let removed = track.remove_clip(9).unwrap();
    assert_eq!(removed.id, 9);
    assert!(track.clips.is_empty());
    assert!(track.remove_clip(9).is_none());
}

#[test]
fn test_add_clip_rejection_changes_nothing() {
    let mut track = Track::new(1, TrackType::Video);
    let clip1 = Clip::new(
        1,
        String::from("test1.mp4"),
        from_seconds(0.0),
        from_seconds(10.0),
        from_seconds(0.0),
        0,
    );
    track.add_clip(clip1).unwrap();
    let before: Vec<(u64, i64, i64)> =
        track.clips.iter().map(|c| (c.id, c.timeline_start, c.timeline_end)).collect();

    let overlapping = Clip::new(
        2,
        String::from("test2.mp4"),
        from_seconds(0.0),
        from_seconds(10.0),
        from_seconds(5.0),
        0,
    );
    assert!(track.add_clip(overlapping).is_err());

    let after: Vec<(u64, i64, i64)> =
        track.clips.iter().map(|c| (c.id, c.timeline_start, c.timeline_end)).collect();
    assert_eq!(before, after);
}

#[test]
fn test_volume_and_mute() {
    let mut track = Track::new(3, TrackType::Audio);
    track.set_volume(500);
    assert_eq!(track.volume, 500);
    track.set_volume(5000); // Clamped to unity
    assert_eq!(track.volume, MAX_VOLUME);
    track.set_muted(true);
    assert!(track.muted);
}
