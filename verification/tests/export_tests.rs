use aves::clip::Clip;
use aves::export::{
    AudioChunker, ExportPipeline, ExportSettings, VideoPlan,
};
use aves::timeline::Timeline;
use aves::track::TrackError;

fn from_seconds(seconds: f64) -> i64 {
    (seconds * 1_000_000_000.0) as i64
}

#[test]
fn test_default_settings() {
    let settings = ExportSettings::default();
    assert_eq!(settings.width, 1920);
    assert_eq!(settings.height, 1080);
    assert_eq!(settings.fps, 30);
    assert_eq!(settings.video_bitrate, 5_000_000);
    assert_eq!(settings.audio_bitrate, 192_000);
    assert_eq!(settings.sample_rate, 48000);
    assert_eq!(settings.channels, 2);
}

#[test]
fn test_frame_schedule_is_drift_free() {
    let mut timeline = Timeline::new();
    let clip = Clip::new(
        1,
        String::from("v.mp4"),
        from_seconds(0.0),
        from_seconds(10.0),
        from_seconds(0.0),
        0,
    );
    timeline.add_video_clip(clip).unwrap();
    let pipeline = ExportPipeline::new(timeline, ExportSettings::default());

    assert_eq!(pipeline.frame_time(0), 0);
    assert_eq!(pipeline.frame_time(1), 33_333_333);
    assert_eq!(pipeline.frame_time(2), 66_666_666);
    // Computed from the index, not accumulated: frame 30 lands on the exact
    // second.
    assert_eq!(pipeline.frame_time(30), from_seconds(1.0));
    assert_eq!(pipeline.frame_time(300), from_seconds(10.0));
}

#[test]
fn test_samples_per_frame() {
    let timeline = Timeline::new();
    let pipeline = ExportPipeline::new(timeline, ExportSettings::default());
    assert_eq!(pipeline.samples_per_frame(), 1600);
}

// End-to-end export scenario: one 5-second video clip at timeline zero and no
// audio clip, exported at 30 fps, walks exactly 150 frames, decodes video for
// every one of them, and accumulates exactly 5 seconds of silence.
#[test]
fn test_export_five_second_video() {
    let mut timeline = Timeline::new();
    let clip = Clip::new(
        1,
        String::from("video.mp4"),
        from_seconds(0.0),
        from_seconds(5.0),
        from_seconds(0.0),
        0,
    );
    timeline.add_video_clip(clip).unwrap();
    assert_eq!(timeline.duration, from_seconds(5.0));

    let pipeline = ExportPipeline::new(timeline, ExportSettings::default());
    let total = pipeline.total_frames();
    assert_eq!(total, 150);

    let samples_per_frame = pipeline.samples_per_frame();
    let mut chunker = AudioChunker::new(samples_per_frame);
    let mut encoded_video_frames: usize = 0;
    let mut encoded_chunks: usize = 0;
    let mut silence_samples: usize = 0;

    for k in 0..total {
        let t = pipeline.frame_time(k);
        assert!(t < from_seconds(5.0));

        match pipeline.video_plan(t) {
            VideoPlan::Decode { source_path, stream_index, source_time } => {
                assert_eq!(source_path, "video.mp4");
                assert_eq!(stream_index, 0);
                assert_eq!(source_time, t); // source [0,5s) placed at timeline 0
                encoded_video_frames += 1;
            }
            VideoPlan::Black => panic!("the clip covers every frame"),
        }

        let frame_end = pipeline.frame_end(k);
        let audio = pipeline.audio_plan(t, frame_end);
        assert!(audio.silence);
        assert!(audio.segments.is_empty());
        silence_samples += samples_per_frame;
        encoded_chunks += chunker.push(samples_per_frame);
    }

    // Exactly 150 encoded video frames.
    assert_eq!(encoded_video_frames, 150);
    // Every frame produced one full chunk of silence; nothing is left over.
    assert_eq!(encoded_chunks, 150);
    assert_eq!(chunker.finish(), 0);
    // The silence sums to exactly 5 seconds at the export sample rate.
    assert_eq!(silence_samples, 5 * 48000);
}

// End-to-end scenario: two adjacent audio clips insert cleanly; a third that
// overlaps the first is rejected with a collision against the first clip's
// id.
#[test]
fn test_adjacent_audio_clips_and_collision() {
    let mut timeline = Timeline::new();

    let first = Clip::new(
        1,
        String::from("a.mp4"),
        from_seconds(0.0),
        from_seconds(3.0),
        from_seconds(0.0),
        1,
    );
    let second = Clip::new(
        2,
        String::from("b.mp4"),
        from_seconds(0.0),
        from_seconds(3.0),
        from_seconds(3.0), // Adjacent: touches the first at 3s
        1,
    );

    assert!(timeline.add_audio_clip(first).is_ok());
    assert!(timeline.add_audio_clip(second).is_ok());
    assert_eq!(timeline.audio_track.clips.len(), 2);
    assert_eq!(timeline.duration, from_seconds(6.0));

    let third = Clip::new(
        3,
        String::from("c.mp4"),
        from_seconds(0.0),
        from_seconds(2.0),
        from_seconds(2.0), // [2s, 4s): overlaps the first clip
        1,
    );
    let result = timeline.add_audio_clip(third);
    assert!(matches!(result, Err(TrackError::Overlap { clip_id: 1 })));
    assert_eq!(timeline.audio_track.clips.len(), 2);
}

#[test]
fn test_audio_plan_segments_across_boundary() {
    let mut timeline = Timeline::new();
    // Source [1s,4s) of a.mp4 placed at [0s,3s); source [0s,3s) of b.mp4 at
    // [3s,6s).
    let first = Clip::new(
        1,
        String::from("a.mp4"),
        from_seconds(1.0),
        from_seconds(4.0),
        from_seconds(0.0),
        1,
    );
    let second = Clip::new(
        2,
        String::from("b.mp4"),
        from_seconds(0.0),
        from_seconds(3.0),
        from_seconds(3.0),
        1,
    );
    timeline.add_audio_clip(first).unwrap();
    timeline.add_audio_clip(second).unwrap();

    let pipeline = ExportPipeline::new(timeline, ExportSettings::default());

    // A frame range straddling the 3s boundary draws from both clips.
    let t = from_seconds(3.0) - 10_000_000;
    let frame_end = t + 33_333_333;
    let plan = pipeline.audio_plan(t, frame_end);
    assert!(!plan.silence);
    assert_eq!(plan.segments.len(), 2);

    // First clip: the last 10ms, mapped to source time of a.mp4.
    assert_eq!(plan.segments[0].source_path, "a.mp4");
    assert_eq!(plan.segments[0].source_start, from_seconds(4.0) - 10_000_000);
    assert_eq!(plan.segments[0].source_end, from_seconds(4.0));

    // Second clip: the rest of the frame from the start of b.mp4.
    assert_eq!(plan.segments[1].source_path, "b.mp4");
    assert_eq!(plan.segments[1].source_start, 0);
    assert_eq!(plan.segments[1].source_end, frame_end - from_seconds(3.0));

    // Sample counts follow the segment durations.
    assert_eq!(pipeline.segment_samples(&plan.segments[0]), 480);
    let tail = pipeline.segment_samples(&plan.segments[1]);
    assert_eq!(tail, (23_333_333i64 * 48000 / 1_000_000_000) as usize);
}

#[test]
fn test_audio_plan_ignores_boundary_touch() {
    let mut timeline = Timeline::new();
    let clip = Clip::new(
        1,
        String::from("a.mp4"),
        from_seconds(0.0),
        from_seconds(2.0),
        from_seconds(0.0),
        1,
    );
    timeline.add_audio_clip(clip).unwrap();
    let pipeline = ExportPipeline::new(timeline, ExportSettings::default());

    // The frame range starts exactly where the clip ends: the clip is found
    // in range but contributes no samples, and the plan is not silence.
    let plan = pipeline.audio_plan(from_seconds(2.0), from_seconds(2.0) + 33_333_333);
    assert!(!plan.silence);
    assert!(plan.segments.is_empty());
}

#[test]
fn test_video_plan_black_where_no_clip() {
    let mut timeline = Timeline::new();
    let clip = Clip::new(
        1,
        String::from("v.mp4"),
        from_seconds(0.0),
        from_seconds(1.0),
        from_seconds(2.0), // placed at [2s,3s]
        0,
    );
    timeline.add_video_clip(clip).unwrap();
    let pipeline = ExportPipeline::new(timeline, ExportSettings::default());

    assert!(matches!(pipeline.video_plan(from_seconds(1.0)), VideoPlan::Black));
    assert!(matches!(pipeline.video_plan(from_seconds(2.5)), VideoPlan::Decode { .. }));
}

#[test]
fn test_chunker_carries_partial_chunks() {
    let mut chunker = AudioChunker::new(1600);

    // A partial chunk is carried, not encoded short.
    assert_eq!(chunker.push(1000), 0);
    assert_eq!(chunker.push(1000), 1); // 2000 = one chunk + 400 left
    assert_eq!(chunker.push(4000), 2); // 4400 = two chunks + 1200 left

    // The tail is padded with silence to a full chunk and flushed.
    assert_eq!(chunker.finish(), 400);

    // Nothing buffered: nothing to pad.
    assert_eq!(chunker.finish(), 0);
}

#[test]
fn test_total_frames_empty_timeline() {
    let pipeline = ExportPipeline::new(Timeline::new(), ExportSettings::default());
    assert_eq!(pipeline.total_frames(), 0);
}

#[test]
fn test_total_frames_rounds_up() {
    let mut timeline = Timeline::new();
    let clip = Clip::new(
        1,
        String::from("v.mp4"),
        0,
        from_seconds(1.0) + 1, // One nanosecond past a whole second
        0,
        0,
    );
    timeline.add_video_clip(clip).unwrap();
    let pipeline = ExportPipeline::new(timeline, ExportSettings::default());
    // 30 whole frames cover the second; the extra nanosecond needs one more.
    assert_eq!(pipeline.total_frames(), 31);
}
