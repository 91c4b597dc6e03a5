//! Nanosecond time representation and conversions.
//!
//! Every position, duration and timestamp in the crate is a signed 64-bit
//! nanosecond count, zero at the timeline origin. Negative values are valid
//! offsets. Arithmetic is plain integer addition and subtraction.

use vstd::prelude::*;
use vstd::string::StringExecFns;

verus! {

/// Time in nanoseconds since the timeline origin.
pub type Time = i64;

/// Alias used by modules that speak of points in time rather than durations.
pub type Timestamp = Time;

pub const NANOS_PER_SECOND: i64 = 1_000_000_000;

pub const NANOS_PER_MILLI: i64 = 1_000_000;

pub const NANOS_PER_MICRO: i64 = 1_000;

/// Time zero: the timeline origin.
pub const ZERO: i64 = 0;

/// Convert milliseconds to nanoseconds.
pub fn from_millis(millis: i64) -> (r: Time)
    requires
        millis * NANOS_PER_MILLI <= i64::MAX,
        i64::MIN <= millis * NANOS_PER_MILLI,
    ensures
        r == millis * NANOS_PER_MILLI,
{
    millis * NANOS_PER_MILLI
}

/// Convert nanoseconds to milliseconds, truncating toward zero.
pub fn to_millis(nanos: Time) -> (r: i64)
    ensures
        nanos >= 0 ==> r == nanos / NANOS_PER_MILLI,
        nanos < 0 ==> r == -((-(nanos as int)) / (NANOS_PER_MILLI as int)),
{
    nanos / NANOS_PER_MILLI
}

/// Convert microseconds to nanoseconds.
pub fn from_micros(micros: i64) -> (r: Time)
    requires
        micros * NANOS_PER_MICRO <= i64::MAX,
        i64::MIN <= micros * NANOS_PER_MICRO,
    ensures
        r == micros * NANOS_PER_MICRO,
{
    micros * NANOS_PER_MICRO
}

/// Convert nanoseconds to microseconds, truncating toward zero.
pub fn to_micros(nanos: Time) -> (r: i64)
    ensures
        nanos >= 0 ==> r == nanos / NANOS_PER_MICRO,
        nanos < 0 ==> r == -((-(nanos as int)) / (NANOS_PER_MICRO as int)),
{
    nanos / NANOS_PER_MICRO
}

/// The decimal digit `d` as a character.
pub open spec fn digit_char(d: int) -> char {
    if d == 0 {
        '0'
    } else if d == 1 {
        '1'
    } else if d == 2 {
        '2'
    } else if d == 3 {
        '3'
    } else if d == 4 {
        '4'
    } else if d == 5 {
        '5'
    } else if d == 6 {
        '6'
    } else if d == 7 {
        '7'
    } else if d == 8 {
        '8'
    } else {
        '9'
    }
}

/// The decimal digits of `n`, most significant first, with no leading
/// zeros (a lone zero for zero itself).
pub open spec fn spec_decimal(n: int) -> Seq<char>
    decreases n,
{
    if n < 10 {
        seq![digit_char(n)]
    } else {
        spec_decimal(n / 10).push(digit_char(n % 10))
    }
}

/// The decimal digits of `n`, padded with zeros on the left to at least
/// two places.
pub open spec fn spec_padded2(n: int) -> Seq<char> {
    if n < 10 {
        seq!['0', digit_char(n)]
    } else {
        spec_decimal(n)
    }
}

/// The decimal digits of `n`, padded with zeros on the left to at least
/// three places.
pub open spec fn spec_padded3(n: int) -> Seq<char> {
    if n < 10 {
        seq!['0', '0', digit_char(n)]
    } else if n < 100 {
        seq!['0'] + spec_decimal(n)
    } else {
        spec_decimal(n)
    }
}

/// A non-negative time formatted as `HH:MM:SS.mmm`: hours (at least two
/// places), minutes, seconds and milliseconds.
pub open spec fn spec_format_time(nanos: int) -> Seq<char> {
    let hours = nanos / 3_600_000_000_000;
    let minutes = (nanos / 60_000_000_000) % 60;
    let seconds = (nanos / 1_000_000_000) % 60;
    let millis = (nanos / 1_000_000) % 1000;
    spec_padded2(hours) + seq![':'] + spec_padded2(minutes) + seq![':'] + spec_padded2(seconds)
        + seq!['.'] + spec_padded3(millis)
}

/// The decimal digit `d` as a one-character string slice.
fn digit_str(d: u64) -> (s: &'static str)
    requires
        d < 10,
    ensures
        s@ == seq![digit_char(d as int)],
{
    proof {
        reveal_strlit("0");
        reveal_strlit("1");
        reveal_strlit("2");
        reveal_strlit("3");
        reveal_strlit("4");
        reveal_strlit("5");
        reveal_strlit("6");
        reveal_strlit("7");
        reveal_strlit("8");
        reveal_strlit("9");
        assert("0"@ =~= seq!['0']);
        assert("1"@ =~= seq!['1']);
        assert("2"@ =~= seq!['2']);
        assert("3"@ =~= seq!['3']);
        assert("4"@ =~= seq!['4']);
        assert("5"@ =~= seq!['5']);
        assert("6"@ =~= seq!['6']);
        assert("7"@ =~= seq!['7']);
        assert("8"@ =~= seq!['8']);
        assert("9"@ =~= seq!['9']);
    }
    match d {
        0 => "0",
        1 => "1",
        2 => "2",
        3 => "3",
        4 => "4",
        5 => "5",
        6 => "6",
        7 => "7",
        8 => "8",
        _ => "9",
    }
}

/// The decimal digits of `n`, most significant first.
fn decimal_string(n: u64) -> (s: String)
    ensures
        s@ == spec_decimal(n as int),
    decreases n,
{
    if n < 10 {
        let mut s = String::new();
        s.append(digit_str(n));
        proof {
            assert(s@ =~= spec_decimal(n as int));
        }
        s
    } else {
        let mut s = decimal_string(n / 10);
        s.append(digit_str(n % 10));
        proof {
            assert(s@ =~= spec_decimal(n as int));
        }
        s
    }
}

/// The decimal digits of `n`, zero-padded to at least two places.
fn padded2_string(n: u64) -> (s: String)
    ensures
        s@ == spec_padded2(n as int),
{
    if n < 10 {
        let mut s = String::new();
        proof {
            reveal_strlit("0");
            assert("0"@ =~= seq!['0']);
        }
        s.append("0");
        s.append(digit_str(n));
        proof {
            assert(s@ =~= spec_padded2(n as int));
        }
        s
    } else {
        decimal_string(n)
    }
}

/// The decimal digits of `n`, zero-padded to at least three places.
fn padded3_string(n: u64) -> (s: String)
    ensures
        s@ == spec_padded3(n as int),
{
    if n < 100 {
        let mut s = String::new();
        proof {
            reveal_strlit("0");
            assert("0"@ =~= seq!['0']);
        }
        s.append("0");
        let tail = padded2_string(n);
        s.append(tail.as_str());
        proof {
            assert(s@ =~= spec_padded3(n as int));
        }
        s
    } else {
        decimal_string(n)
    }
}

/// Format a non-negative time as `HH:MM:SS.mmm`.
pub fn format_time(nanos: Time) -> (s: String)
    requires
        nanos >= 0,
    ensures
        s@ == spec_format_time(nanos as int),
{
    let hours: u64 = (nanos / 3_600_000_000_000) as u64;
    let minutes: u64 = ((nanos / 60_000_000_000) % 60) as u64;
    let seconds: u64 = ((nanos / NANOS_PER_SECOND) % 60) as u64;
    let millis: u64 = ((nanos / NANOS_PER_MILLI) % 1000) as u64;
    proof {
        reveal_strlit(":");
        reveal_strlit(".");
        assert(":"@ =~= seq![':']);
        assert("."@ =~= seq!['.']);
    }
    let mut s = padded2_string(hours);
    s.append(":");
    let part_minutes = padded2_string(minutes);
    s.append(part_minutes.as_str());
    s.append(":");
    let part_seconds = padded2_string(seconds);
    s.append(part_seconds.as_str());
    s.append(".");
    let part_millis = padded3_string(millis);
    s.append(part_millis.as_str());
    proof {
        assert(s@ =~= spec_format_time(nanos as int));
    }
    s
}

} // verus!
