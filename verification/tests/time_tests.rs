use aves::time::{from_micros, from_millis, format_time, to_micros, to_millis, ZERO};

fn from_seconds(seconds: f64) -> i64 {
    (seconds * 1_000_000_000.0) as i64
}

#[test]
fn test_millis_conversion() {
    let time = from_millis(1500);
    assert_eq!(time, 1_500_000_000);
    assert_eq!(to_millis(time), 1500);
}

#[test]
fn test_micros_conversion() {
    let time = from_micros(1_500_000);
    assert_eq!(time, 1_500_000_000);
    assert_eq!(to_micros(time), 1_500_000);
}

#[test]
fn test_format_time() {
    let time = from_seconds(3661.5); // 1 hour, 1 minute, 1.5 seconds
    let formatted = format_time(time);
    assert_eq!(formatted, "01:01:01.500");
}

#[test]
fn test_zero() {
    assert_eq!(ZERO, 0);
    assert_eq!(to_millis(ZERO), 0);
}

#[test]
fn test_time_arithmetic() {
    let t1 = from_seconds(1.5);
    let t2 = from_seconds(2.5);

    // Addition
    let sum = t1 + t2;
    assert_eq!(sum, from_seconds(4.0));

    // Subtraction
    let diff = t2 - t1;
    assert_eq!(diff, from_seconds(1.0));

    // Negative time (allowed for offsets)
    let neg = -from_seconds(1.0);
    assert_eq!(neg, -1_000_000_000);
}

#[test]
fn test_negative_truncation() {
    assert_eq!(to_millis(-1_500_000), -1);
    assert_eq!(to_micros(-1_500), -1);
    assert_eq!(to_millis(-999_999), 0);
}

#[test]
fn test_format_time_padding() {
    assert_eq!(format_time(0), "00:00:00.000");
    assert_eq!(format_time(59_999_000_000), "00:00:59.999");
    assert_eq!(format_time(from_seconds(3600.0)), "01:00:00.000");
    // Hours widen past two digits rather than truncate.
    assert_eq!(format_time(from_seconds(360_000.0)), "100:00:00.000");
}
