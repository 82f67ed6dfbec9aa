use countdown::breakdown::{DurationBreakdown, Precision};
use countdown::digits::u64_to_string;
use countdown::span::{remaining_message, span_between, SpanError};

fn from_parts(weeks: u64, days: u64, hours: u64, minutes: u64, seconds: u64) -> DurationBreakdown {
    DurationBreakdown { weeks, days, hours, minutes, seconds }
}

#[test]
fn decimal_digits() {
    assert_eq!(u64_to_string(0), "0");
    assert_eq!(u64_to_string(7), "7");
    assert_eq!(u64_to_string(10), "10");
    assert_eq!(u64_to_string(12345), "12345");
    assert_eq!(u64_to_string(u64::MAX), "18446744073709551615");
}

#[test]
fn round_trip_recomposes_the_span() {
    for &s in &[0u64, 1, 59, 60, 61, 3599, 3600, 86399, 86400, 604799, 604800, 90061, 123456789] {
        let b = DurationBreakdown::from_seconds(s);
        assert_eq!(b.total_seconds(), s);
    }
    let b = DurationBreakdown::from_seconds(u64::MAX);
    assert_eq!(b.total_seconds(), u64::MAX);
}

#[test]
fn buckets_stay_in_range() {
    for &s in &[0u64, 59, 60, 3661, 86400, 604800, 90061, u64::MAX] {
        let b = DurationBreakdown::from_seconds(s);
        assert!(b.days <= 6);
        assert!(b.hours <= 23);
        assert!(b.minutes <= 59);
        assert!(b.seconds <= 59);
    }
}

#[test]
fn mid_size_decomposition() {
    let b = DurationBreakdown::from_seconds(15_403);
    assert_eq!(b, from_parts(0, 0, 4, 16, 43));
    let b = DurationBreakdown::from_seconds(10_000);
    assert_eq!(b.as_string(), "0 weeks, 0 days, 2 hours, 46 minutes, and 40 seconds");
}

#[test]
fn decomposition_agrees_with_the_duration_breakdown_crate() {
    for &s in &[0u64, 59, 61, 15_403, 90_061, 604_800, 123_456_789, u64::MAX] {
        let mine = DurationBreakdown::from_seconds(s);
        let theirs =
            duration_breakdown::DurationBreakdown::from(std::time::Duration::from_secs(s));
        assert_eq!(mine.weeks, theirs.weeks());
        assert_eq!(mine.days, theirs.days());
        assert_eq!(mine.hours, theirs.hours());
        assert_eq!(mine.minutes, theirs.minutes());
        assert_eq!(mine.seconds, theirs.seconds());
    }
}

#[test]
fn zero_duration_is_all_zeros() {
    let b = DurationBreakdown::from_seconds(0);
    assert_eq!(b, from_parts(0, 0, 0, 0, 0));
}

#[test]
fn full_mode_zero() {
    let b = DurationBreakdown::from_seconds(0);
    assert_eq!(b.as_string(), "0 weeks, 0 days, 0 hours, 0 minutes, and 0 seconds");
}

#[test]
fn one_of_each_unit() {
    let b = DurationBreakdown::from_seconds(90_061);
    assert_eq!(b, from_parts(0, 1, 1, 1, 1));
    assert_eq!(b.as_string(), "0 weeks, 1 day, 1 hour, 1 minute, and 1 second");
}

#[test]
fn exactly_one_week() {
    let b = DurationBreakdown::from_seconds(604_800);
    assert_eq!(b, from_parts(1, 0, 0, 0, 0));
    assert_eq!(b.as_string_hide_zeros(), "1 week");
}

#[test]
fn pluralization_singular_only_for_one() {
    let b = from_parts(2, 0, 1, 21, 18);
    assert_eq!(b.as_string(), "2 weeks, 0 days, 1 hour, 21 minutes, and 18 seconds");
}

#[test]
fn hide_zeros_omits_zero_units() {
    let b = from_parts(40, 0, 0, 16, 1);
    assert_eq!(b.as_string_hide_zeros(), "40 weeks, 16 minutes, and 1 second");
    let two = from_parts(0, 0, 2, 0, 5);
    assert_eq!(two.as_string_hide_zeros(), "2 hours, and 5 seconds");
}

#[test]
fn hide_zeros_all_zero_renders_fallback() {
    let b = DurationBreakdown::from_seconds(0);
    let rendered = b.as_string_hide_zeros();
    assert_eq!(rendered, "0 seconds");
    assert!(!rendered.contains("0 weeks"));
    assert!(!rendered.contains("0 days"));
}

#[test]
fn precision_discards_finer_units() {
    let b = from_parts(40, 2, 18, 12, 22);
    assert_eq!(b.with_precision(Precision::Weeks), from_parts(40, 0, 0, 0, 0));
    assert_eq!(b.with_precision(Precision::Hours), from_parts(40, 2, 18, 0, 0));
    assert_eq!(b.with_precision(Precision::Minutes), from_parts(40, 2, 18, 12, 0));
    assert_eq!(b.with_precision(Precision::Seconds), b);
}

#[test]
fn span_counts_whole_seconds() {
    assert_eq!(span_between(100, 250), Ok(150));
    assert_eq!(span_between(-50, 50), Ok(100));
    assert_eq!(span_between(i64::MIN, i64::MAX), Ok(u64::MAX));
}

#[test]
fn span_rejects_a_passed_target() {
    assert_eq!(span_between(251, 250), Err(SpanError::TargetPassed));
    assert_eq!(remaining_message(251, 250), Err(SpanError::TargetPassed));
}

#[test]
fn message_for_a_future_target() {
    let message = remaining_message(1000, 1000 + 90_061).unwrap();
    assert_eq!(message, "1 day, 1 hour, 1 minute, and 1 second");
    let at_target = remaining_message(1000, 1000).unwrap();
    assert_eq!(at_target, "0 seconds");
}

#[test]
fn future_date_argument_gives_a_breakdown() {
    let target = chrono::NaiveDateTime::parse_from_str("2099-01-01 00:00:00", "%Y-%m-%d %T")
        .unwrap()
        .and_utc()
        .timestamp();
    let now = target - 90_061;
    let message = remaining_message(now, target).unwrap();
    assert_eq!(message, "1 day, 1 hour, 1 minute, and 1 second");
    let earlier = target - 604_800;
    assert_eq!(remaining_message(earlier, target).unwrap(), "1 week");
}

#[test]
fn bad_date_argument_fails_to_parse() {
    let parsed = chrono::NaiveDateTime::parse_from_str("not-a-date", "%Y-%m-%d %T");
    assert!(parsed.is_err());
}
