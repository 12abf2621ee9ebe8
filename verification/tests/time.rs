use framepace::time::TimeSpan;
use framepace::time::MAX_NANOS;
use framepace::time::NANOS_PER_SEC;

#[test]
fn zero_is_empty() {
    assert_eq!(TimeSpan::zero().as_nanos(), 0);
    assert!(TimeSpan::zero().is_zero());
    assert_eq!(TimeSpan::default(), TimeSpan::zero());
    assert!(!TimeSpan::from_nanos(1).is_zero());
}

#[test]
fn constructors_count_nanoseconds() {
    assert_eq!(TimeSpan::from_nanos(7).as_nanos(), 7);
    assert_eq!(TimeSpan::from_micros(16_670).as_nanos(), 16_670_000);
    assert_eq!(TimeSpan::from_millis(5).as_nanos(), 5_000_000);
    assert_eq!(TimeSpan::from_secs(2).as_nanos(), 2_000_000_000);
    assert_eq!(TimeSpan::from_parts(1, 5).as_nanos(), 1_000_000_005);
}

#[test]
fn constructors_do_not_overflow() {
    assert_eq!(TimeSpan::from_nanos(u64::MAX).as_nanos(), 18_446_744_073_709_551_615);
    assert_eq!(TimeSpan::from_micros(u64::MAX).as_nanos(), 18_446_744_073_709_551_615_000);
    assert_eq!(TimeSpan::from_millis(u64::MAX).as_nanos(), 18_446_744_073_709_551_615_000_000);
    assert_eq!(
        TimeSpan::from_secs(u64::MAX).as_nanos(),
        18_446_744_073_709_551_615_000_000_000
    );
}

#[test]
fn max_nanos_is_the_longest_span() {
    assert_eq!(NANOS_PER_SEC, 1_000_000_000);
    assert_eq!(MAX_NANOS, u64::MAX as u128 * 1_000_000_000 + 999_999_999);
    assert_eq!(TimeSpan::from_parts(u64::MAX, 999_999_999).as_nanos(), MAX_NANOS);
}

#[test]
fn from_parts_carries_and_cuts_off() {
    assert_eq!(TimeSpan::from_parts(1, 2_500_000_000).as_nanos(), 3_500_000_000);
    assert_eq!(TimeSpan::from_parts(u64::MAX, 1_000_000_000).as_nanos(), MAX_NANOS);
    assert_eq!(TimeSpan::from_parts(u64::MAX, u32::MAX).as_nanos(), MAX_NANOS);
    assert_eq!(
        TimeSpan::from_parts(u64::MAX - 1, 1_999_999_999).as_nanos(),
        MAX_NANOS
    );
}

#[test]
fn splits_into_seconds_and_remainder() {
    let span = TimeSpan::from_parts(12, 345_678_901);
    assert_eq!(span.as_secs(), 12);
    assert_eq!(span.subsec_nanos(), 345_678_901);
    let longest = TimeSpan::from_parts(u64::MAX, 999_999_999);
    assert_eq!(longest.as_secs(), u64::MAX);
    assert_eq!(longest.subsec_nanos(), 999_999_999);
    assert_eq!(TimeSpan::from_nanos(999_999_999).as_secs(), 0);
    assert_eq!(TimeSpan::from_nanos(1_000_000_000).subsec_nanos(), 0);
}

#[test]
fn saturating_sub_stops_at_zero() {
    let long = TimeSpan::from_millis(20);
    let short = TimeSpan::from_millis(3);
    assert_eq!(long.saturating_sub(short), TimeSpan::from_millis(17));
    assert_eq!(short.saturating_sub(long), TimeSpan::zero());
    assert_eq!(long.saturating_sub(long), TimeSpan::zero());
    assert_eq!(long.saturating_sub(TimeSpan::zero()), long);
}

#[test]
fn saturating_add_stops_at_the_longest_span() {
    let a = TimeSpan::from_millis(20);
    let b = TimeSpan::from_micros(500);
    assert_eq!(a.saturating_add(b).as_nanos(), 20_500_000);
    let longest = TimeSpan::from_parts(u64::MAX, 999_999_999);
    assert_eq!(longest.saturating_add(TimeSpan::from_nanos(1)), longest);
    assert_eq!(longest.saturating_add(longest), longest);
    assert_eq!(
        TimeSpan::from_secs(u64::MAX).saturating_add(TimeSpan::from_nanos(999_999_999)),
        longest
    );
}

#[test]
fn equal_spans_compare_equal() {
    assert_eq!(TimeSpan::from_millis(1), TimeSpan::from_micros(1_000));
    assert_eq!(TimeSpan::from_secs(1), TimeSpan::from_parts(0, 1_000_000_000));
    assert_ne!(TimeSpan::from_millis(1), TimeSpan::from_micros(1_001));
}
