use rate_rs::time::{Interval, Timestamp};

#[test]
fn interval_constructors_count_nanoseconds() {
    assert_eq!(Interval::from_secs(1).as_nanos(), 1_000_000_000);
    assert_eq!(Interval::from_secs(0).as_nanos(), 0);
    assert_eq!(Interval::from_secs(u64::MAX).as_nanos(), 18_446_744_073_709_551_615_000_000_000);
    assert_eq!(Interval::from_millis(1_500).as_nanos(), 1_500_000_000);
    assert_eq!(Interval::from_millis(u64::MAX).as_nanos(), 18_446_744_073_709_551_615_000_000);
    assert_eq!(Interval::from_nanos(17).as_nanos(), 17);
    assert_eq!(Interval::from_nanos(u128::MAX).as_nanos(), u128::MAX);
}

#[test]
fn interval_as_secs_drops_the_rest() {
    assert_eq!(Interval::from_millis(1_999).as_secs(), 1);
    assert_eq!(Interval::from_millis(999).as_secs(), 0);
    assert_eq!(Interval::from_secs(60).as_secs(), 60);
    assert_eq!(Interval::from_nanos(2_000_000_000).as_secs(), 2);
}

#[test]
fn interval_is_zero_only_when_empty() {
    assert!(Interval::from_nanos(0).is_zero());
    assert!(Interval::from_secs(0).is_zero());
    assert!(!Interval::from_nanos(1).is_zero());
}

#[test]
fn interval_equality_is_by_length() {
    assert_eq!(Interval::from_secs(2), Interval::from_millis(2_000));
    assert_ne!(Interval::from_secs(2), Interval::from_millis(2_001));
}

#[test]
fn timestamp_new_keeps_its_parts() {
    let t = Timestamp::new(-3, 17);
    assert_eq!(t.secs, -3);
    assert_eq!(t.nanos, 17);
}

#[test]
fn saturating_since_counts_nanoseconds() {
    let earlier = Timestamp::new(100, 900_000_000);
    let later = Timestamp::new(102, 100_000_000);
    assert_eq!(later.saturating_since(&earlier), Interval::from_millis(1_200));
    assert_eq!(later.saturating_since(&later), Interval::from_nanos(0));
    let before_epoch = Timestamp::new(-1, 0);
    assert_eq!(Timestamp::new(1, 1).saturating_since(&before_epoch).as_nanos(), 2_000_000_001);
}

#[test]
fn saturating_since_clamps_to_zero() {
    let earlier = Timestamp::new(100, 900_000_000);
    let later = Timestamp::new(102, 100_000_000);
    assert_eq!(earlier.saturating_since(&later), Interval::from_nanos(0));
    assert_eq!(
        Timestamp::new(i64::MIN, 0).saturating_since(&Timestamp::new(i64::MAX, u32::MAX)),
        Interval::from_nanos(0)
    );
}

#[test]
fn saturating_since_spans_the_whole_range() {
    let first = Timestamp::new(i64::MIN, 0);
    let last = Timestamp::new(i64::MAX, u32::MAX);
    // (2^64 - 1) seconds and 2^32 - 1 nanoseconds
    assert_eq!(
        last.saturating_since(&first).as_nanos(),
        18_446_744_073_709_551_615_000_000_000 + 4_294_967_295
    );
}

#[test]
fn saturating_since_takes_sub_second_parts_over_a_second() {
    // a sub-second part may run over one second: the instant is the sum
    let a = Timestamp::new(10, 1_500_000_000);
    let b = Timestamp::new(11, 500_000_000);
    assert_eq!(a.saturating_since(&b), Interval::from_nanos(0));
    assert_eq!(b.saturating_since(&a), Interval::from_nanos(0));
    assert_eq!(Timestamp::new(12, 0).saturating_since(&a), Interval::from_millis(500));
}
