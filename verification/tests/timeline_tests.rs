use aves::clip::Clip;
use aves::timeline::Timeline;

fn from_seconds(seconds: f64) -> i64 {
    (seconds * 1_000_000_000.0) as i64
}

#[test]
fn timeline_test_timeline_creation() {
    let timeline = Timeline::new();
    assert_eq!(timeline.playhead, 0);
    assert_eq!(timeline.duration, 0);
}

#[test]
fn timeline_test_add_clip() {
    let mut timeline = Timeline::new();

    let clip = Clip::new(
        1,
        String::from("test.mp4"),
        from_seconds(0.0),
        from_seconds(2.0),
        from_seconds(0.0),
        0,
    );

    timeline.add_video_clip(clip).unwrap();
    assert_eq!(timeline.video_track.clips.len(), 1);
    assert!(timeline.duration > 0);
}

#[test]
fn timeline_test_playhead_clamping() {
    let mut timeline = Timeline::new();

    let clip = Clip::new(
        1,
        String::from("test.mp4"),
        from_seconds(0.0),
        from_seconds(2.0),
        from_seconds(0.0),
        0,
    );

    timeline.add_video_clip(clip).unwrap();
    timeline.set_playhead(from_seconds(10.0));

    // Playhead should be clamped to duration
    assert!(timeline.playhead <= timeline.duration);
    assert_eq!(timeline.playhead, timeline.duration);
}

#[test]
fn timeline_test_duration_updates() {
    let mut timeline = Timeline::new();

    let clip1 = Clip::new(
        1,
        String::from("test.mp4"),
        from_seconds(0.0),
        from_seconds(2.0),
        from_seconds(0.0),
        0,
    );

    timeline.add_video_clip(clip1).unwrap();
    let duration_after_first = timeline.duration;

    let clip2 = Clip::new(
        2,
        String::from("test2.mp4"),
        from_seconds(0.0),
        from_seconds(3.0),
        from_seconds(5.0),
        0,
    );

    timeline.add_audio_clip(clip2).unwrap();

    // Duration should be updated to include longer audio clip
    assert!(timeline.duration > duration_after_first);
    assert_eq!(timeline.duration, from_seconds(8.0));
}

#[test]
fn timeline_test_overlap_validation() {
    let mut timeline = Timeline::new();

    let clip1 = Clip::new(
        1,
        String::from("test1.mp4"),
        from_seconds(0.0),
        from_seconds(10.0),
        from_seconds(0.0),
        0,
    );

    let clip2 = Clip::new(
        2,
        String::from("test2.mp4"),
        from_seconds(0.0),
        from_seconds(10.0),
        from_seconds(5.0), // Overlaps with clip1
        0,
    );

    // First clip should be added successfully
    assert!(timeline.add_video_clip(clip1).is_ok());

    // Second clip overlaps, should fail
    assert!(timeline.add_video_clip(clip2).is_err());

    // Video track should still have only 1 clip
    assert_eq!(timeline.video_track.clips.len(), 1);
}

#[test]
fn timeline_test_clips_in_range() {
    let mut timeline = Timeline::new();

    let video_clip = Clip::new(
        1,
        String::from("video.mp4"),
        from_seconds(0.0),
        from_seconds(5.0),
        from_seconds(0.0),
        0,
    );

    let audio_clip = Clip::new(
        2,
        String::from("audio.mp4"),
        from_seconds(0.0),
        from_seconds(5.0),
        from_seconds(10.0),
        0,
    );

    timeline.add_video_clip(video_clip).unwrap();
    timeline.add_audio_clip(audio_clip).unwrap();

    // Range [2s, 12s] should include video clip and audio clip
    let (video_clips, audio_clips) =
        timeline.clips_in_range(from_seconds(2.0), from_seconds(12.0));

    assert_eq!(video_clips.len(), 1);
    assert_eq!(audio_clips.len(), 1);
}

#[test]
fn test_remove_clip() {
    let mut timeline = Timeline::new();

    let clip = Clip::new(
        1,
        String::from("test.mp4"),
        from_seconds(0.0),
        from_seconds(10.0),
        from_seconds(0.0),
        0,
    );

    timeline.add_video_clip(clip).unwrap();
    assert_eq!(timeline.video_track.clips.len(), 1);
    assert!(timeline.duration > 0);

    let removed = timeline.remove_video_clip(1);
    assert!(removed.is_some());
    assert_eq!(timeline.video_track.clips.len(), 0);
    assert_eq!(timeline.duration, 0);
}

#[test]
fn test_playhead_negative() {
    let mut timeline = Timeline::new();
    timeline.set_playhead(from_seconds(-5.0));

    // Playhead should be clamped to 0
    assert_eq!(timeline.playhead, 0);
}

#[test]
fn test_duration_is_max_of_tracks() {
    let mut timeline = Timeline::new();

    let video = Clip::new(
        1,
        String::from("v.mp4"),
        from_seconds(0.0),
        from_seconds(4.0),
        from_seconds(0.0),
        0,
    );
    let audio = Clip::new(
        2,
        String::from("a.mp4"),
        from_seconds(0.0),
        from_seconds(2.0),
        from_seconds(1.0),
        1,
    );

    timeline.add_video_clip(video).unwrap();
    timeline.add_audio_clip(audio).unwrap();
    assert_eq!(timeline.duration, from_seconds(4.0));
    assert_eq!(
        timeline.duration,
        timeline.video_track.duration().max(timeline.audio_track.duration())
    );

    // Removing the longer clip re-derives the duration from the other track.
    timeline.remove_video_clip(1).unwrap();
    assert_eq!(timeline.duration, from_seconds(3.0));
    assert_eq!(
        timeline.duration,
        timeline.video_track.duration().max(timeline.audio_track.duration())
    );
}

#[test]
fn test_playhead_huge_input() {
    let mut timeline = Timeline::new();
    let clip = Clip::new(
        1,
        String::from("test.mp4"),
        from_seconds(0.0),
        from_seconds(1.0),
        from_seconds(0.0),
        0,
    );
    timeline.add_video_clip(clip).unwrap();

    timeline.set_playhead(i64::MAX);
    assert_eq!(timeline.playhead, timeline.duration);
    timeline.set_playhead(i64::MIN);
    assert_eq!(timeline.playhead, 0);
}

#[test]
fn test_clip_at_playhead() {
    let mut timeline = Timeline::new();
    let video = Clip::new(
        1,
        String::from("v.mp4"),
        from_seconds(0.0),
        from_seconds(4.0),
        from_seconds(0.0),
        0,
    );
    timeline.add_video_clip(video).unwrap();

    timeline.set_playhead(from_seconds(2.0));
    assert_eq!(timeline.video_clip_at_playhead().unwrap().id, 1);
    assert!(timeline.audio_clip_at_playhead().is_none());
}

#[test]
fn test_timeline_snapshot() {
    let mut timeline = Timeline::new();
    let clip = Clip::new(
        1,
        String::from("test.mp4"),
        from_seconds(0.0),
        from_seconds(2.0),
        from_seconds(0.0),
        0,
    );
    timeline.add_video_clip(clip).unwrap();
    timeline.set_playhead(from_seconds(1.0));

    let snapshot = timeline.clone();
    assert_eq!(snapshot.duration, timeline.duration);
    assert_eq!(snapshot.playhead, timeline.playhead);
    assert_eq!(snapshot.video_track.clips.len(), 1);

    // Editing the original does not change the snapshot.
    timeline.remove_video_clip(1).unwrap();
    assert_eq!(snapshot.video_track.clips.len(), 1);
    assert_eq!(timeline.video_track.clips.len(), 0);
}
