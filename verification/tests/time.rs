use chrono::TimeZone;
use r3::time::{Duration, Time};

#[test]
fn duration_constructors() {
    assert_eq!(Duration::from_millis(3).as_micros(), 3_000);
    assert_eq!(Duration::from_secs(-2).as_micros(), -2_000_000);
    assert_eq!(Duration::zero().as_micros(), 0);
    assert_eq!(Duration::max_value().as_micros(), i32::MAX);
    assert_eq!(Duration::min_value().as_micros(), i32::MIN);
    assert_eq!(Duration::default(), Duration::zero());
}

#[test]
fn duration_truncating_conversions() {
    assert_eq!(Duration::from_micros(1_999).as_millis(), 1);
    assert_eq!(Duration::from_micros(-1_999).as_millis(), -1);
    assert_eq!(Duration::from_micros(2_500_000).as_secs(), 2);
    assert_eq!(Duration::from_micros(-2_500_000).as_secs(), -2);
    assert_eq!(Duration::min_value().as_secs(), -2147);
}

#[test]
fn duration_sign() {
    assert!(Duration::from_micros(1).is_positive());
    assert!(!Duration::zero().is_positive());
    assert!(Duration::from_micros(-1).is_negative());
    assert!(!Duration::zero().is_negative());
}

#[test]
fn duration_checked_arithmetic() {
    let a = Duration::from_micros(1_000);
    assert_eq!(a.checked_mul(3), Some(Duration::from_micros(3_000)));
    assert_eq!(Duration::max_value().checked_mul(2), None);
    assert_eq!(a.checked_div(3), Some(Duration::from_micros(333)));
    assert_eq!(Duration::from_micros(-1_000).checked_div(3), Some(Duration::from_micros(-333)));
    assert_eq!(a.checked_div(0), None);
    assert_eq!(Duration::min_value().checked_div(-1), None);
    assert_eq!(Duration::from_micros(-5).checked_abs(), Some(Duration::from_micros(5)));
    assert_eq!(Duration::min_value().checked_abs(), None);
    assert_eq!(a.checked_add(a), Some(Duration::from_micros(2_000)));
    assert_eq!(Duration::max_value().checked_add(Duration::from_micros(1)), None);
    assert_eq!(a.checked_sub(Duration::from_micros(3_000)), Some(Duration::from_micros(-2_000)));
    assert_eq!(Duration::min_value().checked_sub(Duration::from_micros(1)), None);
}

#[test]
fn duration_add_then_sub_gives_back() {
    let a = Duration::from_micros(-12_345);
    let b = Duration::from_micros(67_890);
    let sum = a.checked_add(b).unwrap();
    assert_eq!(sum.checked_sub(b), Some(a));
}

#[test]
fn duration_integer_conversions() {
    assert_eq!(Duration::try_from_micros_i64(123).map(|d| d.as_micros()), Ok(123));
    assert!(Duration::try_from_micros_i64(i64::from(i32::MAX) + 1).is_err());
    assert!(Duration::try_from_micros_u128(0x8000_0000).is_err());
    assert_eq!(Duration::try_from_micros_u128(5).map(|d| d.as_micros()), Ok(5));
    assert_eq!(Duration::from_micros(7).try_into_micros_u64(), Ok(7));
    assert!(Duration::from_micros(-7).try_into_micros_u64().is_err());
    assert!(Duration::try_from_micros_opt(None).is_err());
    assert_eq!(Duration::try_from_micros_opt(Some(-9)).map(|d| d.as_micros()), Ok(-9));
}

#[test]
fn duration_core_conversions() {
    let d = Duration::from_micros(1_500_000).try_into_core_duration().unwrap();
    assert_eq!(d, core::time::Duration::from_micros(1_500_000));
    assert!(Duration::from_micros(-1).try_into_core_duration().is_err());
    assert_eq!(
        Duration::try_from_core_duration(core::time::Duration::from_nanos(123_456)),
        Ok(Duration::from_micros(123))
    );
    assert!(Duration::try_from_core_duration(core::time::Duration::from_secs(3_000)).is_err());
    let back = Duration::try_from_core_duration(d).unwrap();
    assert_eq!(back, Duration::from_micros(1_500_000));
}

#[test]
fn duration_time_delta_conversions() {
    assert_eq!(
        Duration::try_from_time_delta(chrono::TimeDelta::nanoseconds(123_456)),
        Ok(Duration::from_micros(123))
    );
    assert_eq!(
        Duration::try_from_time_delta(chrono::TimeDelta::nanoseconds(-123_456)),
        Ok(Duration::from_micros(-123))
    );
    assert!(Duration::try_from_time_delta(chrono::TimeDelta::microseconds(0x1_0000_0000)).is_err());
    assert_eq!(
        Duration::from_micros(123_456).into_time_delta(),
        chrono::TimeDelta::microseconds(123_456)
    );
    let d = Duration::from_micros(-42);
    assert_eq!(Duration::try_from_time_delta(d.into_time_delta()), Ok(d));
}

#[test]
fn time_constructors() {
    assert_eq!(Time::from_millis(3).as_micros(), 3_000);
    assert_eq!(Time::from_secs(2).as_micros(), 2_000_000);
    assert_eq!(Time::zero().as_micros(), 0);
    assert_eq!(Time::max_value().as_micros(), u64::MAX);
    assert_eq!(Time::default(), Time::zero());
    assert_eq!(Time::from_micros(1_201_250_000).as_secs(), 1201);
    assert_eq!(Time::from_micros(1_201_250_000).as_millis(), 1_201_250);
}

#[test]
fn time_duration_since() {
    let a = Time::from_micros(5_000);
    let b = Time::from_micros(2_000);
    assert_eq!(a.duration_since(b), Some(Duration::from_micros(3_000)));
    assert_eq!(b.duration_since(a), Some(Duration::from_micros(-3_000)));
    assert_eq!(Time::max_value().duration_since(Time::zero()), None);
}

#[test]
fn time_core_duration_since() {
    let a = Time::from_micros(5_000);
    let b = Time::from_micros(2_000);
    assert_eq!(a.core_duration_since(b), Some(core::time::Duration::from_micros(3_000)));
    assert_eq!(b.core_duration_since(a), None);
    assert_eq!(a.core_duration_since_origin(), core::time::Duration::from_micros(5_000));
}

#[test]
fn time_wrapping_arithmetic() {
    let t = Time::from_micros(10);
    assert_eq!(t.wrapping_add(Duration::from_micros(5)).as_micros(), 15);
    assert_eq!(t.wrapping_add(Duration::from_micros(-11)).as_micros(), u64::MAX);
    assert_eq!(t.wrapping_sub(Duration::from_micros(11)).as_micros(), u64::MAX);
    assert_eq!(Time::max_value().wrapping_add(Duration::from_micros(2)).as_micros(), 1);
    assert_eq!(Time::zero().wrapping_sub(Duration::from_micros(-3)).as_micros(), 3);
}

#[test]
fn time_wrapping_round_trip() {
    let d = Duration::from_micros(-7);
    for t in [Time::zero(), Time::from_micros(3), Time::max_value()] {
        assert_eq!(t.wrapping_add(d).wrapping_sub(d), t);
        assert_eq!(t.wrapping_sub(d).wrapping_add(d), t);
    }
    let t = Time::from_micros(1_000);
    let later = t.wrapping_add(Duration::from_micros(250));
    assert_eq!(later.duration_since(t), Some(Duration::from_micros(250)));
}

#[test]
fn time_timestamp_parts() {
    assert_eq!(Time::from_micros(123_456_789).timestamp_parts(), (123, 456_789_000));
    assert_eq!(
        Time::from_timestamp_parts(4, 123_456 / 1000).map(|t| t.as_micros()),
        Ok(4_000_123u64)
    );
    assert!(Time::from_timestamp_parts(-1, 999_999).is_err());
    assert!(Time::from_timestamp_parts(i64::MAX, 0).is_err());
    let t = Time::from_micros(987_654_321);
    let (secs, nanos) = t.timestamp_parts();
    assert_eq!(Time::from_timestamp_parts(secs, nanos / 1000), Ok(t));
}

#[test]
fn duration_operators() {
    let a = Duration::from_micros(1_500);
    let b = Duration::from_micros(-500);
    assert_eq!((a + b).as_micros(), 1_000);
    assert_eq!((a - b).as_micros(), 2_000);
    assert_eq!((a * 3).as_micros(), 4_500);
    assert_eq!((3 * a).as_micros(), 4_500);
    assert_eq!((a / 2).as_micros(), 750);
    assert_eq!((b / 3).as_micros(), -166);
}

#[test]
fn duration_sum() {
    let ds = vec![Duration::from_micros(1), Duration::from_micros(-4), Duration::from_micros(10)];
    assert_eq!(Duration::sum(&ds), Duration::from_micros(7));
    assert_eq!(Duration::sum(&Vec::new()), Duration::zero());
}

#[test]
fn time_operators_wrap() {
    let t = Time::from_micros(3);
    assert_eq!((t + Duration::from_micros(4)).as_micros(), 7);
    assert_eq!((t - Duration::from_micros(4)).as_micros(), u64::MAX);
    assert_eq!((Time::max_value() + Duration::from_micros(1)).as_micros(), 0);
}

#[test]
fn date_time_parts_round_trip() {
    let dt = chrono::Utc.timestamp_opt(4, 123_456).single().unwrap();
    assert_eq!(
        Time::from_timestamp_parts(dt.timestamp(), dt.timestamp_subsec_micros()),
        Ok(Time::from_micros(4_000_123))
    );
    let dt = chrono::Utc.timestamp_opt(4, 123_456_789).single().unwrap();
    assert_eq!(
        Time::from_timestamp_parts(dt.timestamp(), dt.timestamp_subsec_micros()),
        Ok(Time::from_micros(4_123_456))
    );
    let t = Time::from_micros(123_456_789);
    let (secs, nsecs) = t.timestamp_parts();
    let dt = chrono::Utc.timestamp_opt(secs, nsecs).single().unwrap();
    assert_eq!(dt, chrono::Utc.timestamp_opt(123, 456_789_000).single().unwrap());
    assert_eq!(Time::from_timestamp_parts(dt.timestamp(), dt.timestamp_subsec_micros()), Ok(t));
    let (secs, nsecs) = Time::max_value().timestamp_parts();
    assert!(chrono::Utc.timestamp_opt(secs, nsecs).single().is_none());
}

#[test]
fn debug_text_matches_core_duration() {
    for u in [
        0u64, 1, 9, 10, 999, 1_000, 1_001, 1_500, 12_340, 999_999, 1_000_000, 1_000_001,
        1_500_000, 2_050_000, 86_400_000_000, u64::MAX,
    ] {
        let expected = format!("{:?}", core::time::Duration::from_micros(u));
        assert_eq!(Time::from_micros(u).debug_text(), expected);
        if u <= i32::MAX as u64 {
            assert_eq!(Duration::from_micros(u as i32).debug_text(), expected);
        }
    }
    assert_eq!(Duration::from_micros(-1_500).debug_text(), "-1.5ms");
    assert_eq!(Duration::min_value().debug_text(), "-2147.483648s");
    assert_eq!(Duration::from_micros(1_500_000).debug_text(), "1.5s");
}
