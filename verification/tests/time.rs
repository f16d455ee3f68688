use mvlc::{Clock, FrameTiming, SystemClock, Time, TimeRange};
use std::time::Duration;

#[test]
fn conversions_from_units() {
    assert_eq!(Time::from_nanos(5).as_nanos(), 5);
    assert_eq!(Time::from_micros(3), Time(3_000));
    assert_eq!(Time::from_millis(2), Time(2_000_000));
    assert_eq!(Time::from_secs(1), Time(1_000_000_000));
    assert_eq!(Time::zero(), Time(0));
}

#[test]
fn conversions_to_units_truncate_toward_zero() {
    let t = Time(1_999_999_999);
    assert_eq!(t.as_secs(), 1);
    assert_eq!(t.as_millis(), 1_999);
    assert_eq!(t.as_micros(), 1_999_999);
    let n = Time(-1_500_000);
    assert_eq!(n.as_millis(), -1);
    assert_eq!(n.as_micros(), -1_500);
    assert_eq!(n.as_secs(), 0);
}

#[test]
fn unit_round_trips() {
    assert_eq!(Time::from_millis(-42).as_millis(), -42);
    assert_eq!(Time::from_micros(123_456).as_micros(), 123_456);
    assert_eq!(Time::from_secs(-7).as_secs(), -7);
}

#[test]
fn duration_conversions() {
    assert_eq!(Time::from_duration(Duration::from_millis(1500)), Time(1_500_000_000));
    assert_eq!(Time(2_000_000_500).as_duration(), Duration::new(2, 500));
}

#[test]
fn arithmetic() {
    let a = Time::from_millis(1500);
    let b = Time::from_millis(500);
    assert_eq!(a.add(b), Time::from_secs(2));
    assert_eq!(a.sub(b), Time::from_secs(1));
    assert_eq!(b.sub(a), Time::from_millis(-1000));
    assert_eq!(b.mul(3), Time::from_millis(1500));
    assert_eq!(a.div(3), b);
}

#[test]
fn division_truncates_toward_zero() {
    assert_eq!(Time(7).div(2), Time(3));
    assert_eq!(Time(-7).div(2), Time(-3));
    assert_eq!(Time(7).div(-2), Time(-3));
    assert_eq!(Time(-7).div(-2), Time(3));
}

#[test]
fn add_then_sub_and_mul_then_div_undo() {
    let a = Time(-123_456_789);
    let b = Time(987_654_321);
    assert_eq!(a.add(b).sub(b), a);
    assert_eq!(a.mul(-13).div(-13), a);
    assert_eq!(b.mul(7).div(7), b);
}

#[test]
fn range_holds_its_ends() {
    let r = TimeRange::new(Time::from_secs(1), Time::from_secs(3));
    assert!(r.contains(Time::from_secs(1)));
    assert!(r.contains(Time::from_secs(3)));
    assert!(r.contains(Time::from_secs(2)));
    assert!(!r.contains(Time(999_999_999)));
    assert!(!r.contains(Time(3_000_000_001)));
    assert_eq!(r.duration(), Time::from_secs(2));
}

#[test]
fn empty_range_holds_its_point() {
    let r = TimeRange::new(Time(5), Time(5));
    assert!(r.contains(Time(5)));
    assert_eq!(r.duration(), Time(0));
}

#[test]
fn frame_timing_error() {
    let mut f = FrameTiming::new(Time::from_millis(100), Time::from_millis(33));
    assert_eq!(f.presentation_error(), None);
    f.mark_presented(Time::from_millis(103));
    assert_eq!(f.presentation_error(), Some(Time::from_millis(3)));
    f.mark_presented(Time::from_millis(98));
    assert_eq!(f.presentation_error(), Some(Time::from_millis(-2)));
    assert_eq!(f.duration, Time::from_millis(33));
}

#[test]
fn system_clock_is_monotonic() {
    let clock = SystemClock::new();
    let a = clock.now();
    let b = clock.elapsed();
    assert!(a >= Time::zero());
    assert!(b >= a);
    let _default = SystemClock::default();
}

#[test]
fn operators() {
    let a = Time::from_secs(2);
    let b = Time::from_millis(500);
    assert_eq!(a + b, Time::from_millis(2500));
    assert_eq!(a - b, Time::from_millis(1500));
    let mut c = a;
    c += b;
    assert_eq!(c, Time::from_millis(2500));
    c -= a;
    assert_eq!(c, b);
}

#[test]
fn duration_round_trip_keeps_nanoseconds() {
    assert_eq!(Time::from_duration(Time(123_456_789).as_duration()), Time(123_456_789));
    assert_eq!(Time::from_duration(Duration::from_nanos(7)), Time(7));
}
