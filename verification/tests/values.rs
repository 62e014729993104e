use store::ids::{CounterRange, DbCounter, DecimalValue, UtcTime, UTC_MAX_NANOS, UTC_MIN_NANOS};
use store::text::{any_control, bounded, contains_char, is_whitespace, not_blank, same_text};

#[test]
fn counters_fit_a_bigint() {
    assert_eq!(DbCounter::new(i64::MAX as u64).unwrap().get(), i64::MAX as u64);
    assert_eq!(DbCounter::new(i64::MAX as u64 + 1), Err(CounterRange));
    assert_eq!(DbCounter::zero().get(), 0);
}

#[test]
fn decimals_are_canonical() {
    assert_eq!(DecimalValue::new(1500, 3).parts(), (15, 1));
    assert_eq!(DecimalValue::new(0, 7).parts(), (0, 0));
    assert_eq!(DecimalValue::new(-20, 0).parts(), (-20, 0));
    assert_eq!(DecimalValue::new(10, 1), DecimalValue::new(1, 0));
    assert!(DecimalValue::new(1, 9).is_positive());
    assert!(!DecimalValue::new(-1, 9).is_nonnegative());
    assert!(DecimalValue::new(0, 9).is_nonnegative());
}

#[test]
fn instants_follow_chrono() {
    let t = UtcTime::from_timestamp_micros(-3);
    assert_eq!(t.nanos, -3_000);
    assert_eq!(UtcTime::from_timestamp_nanos(7).timestamp_nanos_opt(), Some(7));
    assert_eq!(UtcTime { nanos: i64::MAX as i128 + 1 }.timestamp_nanos_opt(), None);
    assert_eq!(UtcTime { nanos: -1 }.timestamp_subsec_nanos(), 999_999_999);
    assert!(UtcTime { nanos: 2_000 }.is_micro_precise());
    assert!(!UtcTime { nanos: 2_001 }.is_micro_precise());
    assert_eq!(UtcTime { nanos: 0 }.checked_add_seconds(60), Some(UtcTime { nanos: 60_000_000_000 }));
    assert_eq!(UtcTime { nanos: 0 }.checked_add_seconds(-60), Some(UtcTime { nanos: -60_000_000_000 }));
    assert_eq!(UtcTime { nanos: UTC_MAX_NANOS }.checked_add_seconds(1), None);
    assert_eq!(UtcTime { nanos: UTC_MIN_NANOS }.checked_add_seconds(-1), None);
    assert_eq!(UtcTime { nanos: 0 }.checked_add_seconds(9_223_372_036_854_776), None);
    assert_eq!(
        UtcTime { nanos: UTC_MAX_NANOS - 1_000_000_000 }.checked_add_seconds(1),
        Some(UtcTime { nanos: UTC_MAX_NANOS })
    );
}

#[test]
fn text_rules() {
    assert!(is_whitespace('\u{3000}'));
    assert!(!is_whitespace('x'));
    assert!(not_blank(" x "));
    assert!(!not_blank("\u{2028}\t"));
    assert!(bounded("abc", 3));
    assert!(!bounded("abcd", 3));
    assert!(!bounded("é", 1));
    assert!(contains_char("a\0", '\0'));
    assert!(same_text("a", "a"));
    assert!(!same_text("a", "b"));
    assert!(any_control("a\u{1b}b"));
    assert!(!any_control("plain"));
}
