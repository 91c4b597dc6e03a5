use aves::sync::SyncController;

fn from_seconds(seconds: f64) -> i64 {
    (seconds * 1_000_000_000.0) as i64
}

#[test]
fn test_new_controller_at_origin() {
    let controller = SyncController::new();
    assert_eq!(controller.current_timeline_position(), 0);
    assert_eq!(controller.master_clock(), 0);
}

#[test]
fn test_start_and_advance() {
    // After start(P), advance(d1), advance(d2) the position is P + d1 + d2.
    let mut controller = SyncController::new();
    controller.start(from_seconds(2.0));
    assert_eq!(controller.current_timeline_position(), from_seconds(2.0));

    controller.advance(250_000_000);
    controller.advance(250_000_000);
    assert_eq!(controller.current_timeline_position(), from_seconds(2.5));
}

#[test]
fn test_seek_jumps_exactly() {
    // After a seek the next read is exactly the target, whatever had elapsed.
    let mut controller = SyncController::new();
    controller.start(from_seconds(1.0));
    controller.advance(999_999_999);
    controller.seek(from_seconds(7.0));
    assert_eq!(controller.current_timeline_position(), from_seconds(7.0));

    controller.advance(1);
    assert_eq!(controller.current_timeline_position(), from_seconds(7.0) + 1);
}

#[test]
fn test_stop_resets_elapsed() {
    let mut controller = SyncController::new();
    controller.start(from_seconds(3.0));
    controller.advance(500);
    controller.stop();
    // The anchor is left in place; only the elapsed cell resets.
    assert_eq!(controller.master_clock(), 0);
    assert_eq!(controller.current_timeline_position(), from_seconds(3.0));
}

#[test]
fn test_update_clock_absolute() {
    let mut controller = SyncController::new();
    controller.start(from_seconds(1.0));
    controller.update_clock(500_000_000);
    assert_eq!(controller.current_timeline_position(), from_seconds(1.5));
    assert_eq!(controller.master_clock(), 500_000_000);
}

#[test]
fn test_video_target_and_sync_offset() {
    let mut controller = SyncController::new();
    controller.start(from_seconds(4.0));
    controller.advance(100_000_000);
    assert_eq!(controller.video_target_timestamp(), 4_100_000_000);

    // Video ahead of audio: positive offset.
    assert_eq!(controller.sync_offset(4_200_000_000), 100_000_000);
    // Video behind audio: negative offset.
    assert_eq!(controller.sync_offset(from_seconds(4.0)), -100_000_000);
}

#[test]
fn test_default_controller() {
    let controller = SyncController::default();
    assert_eq!(controller.current_timeline_position(), 0);
}
