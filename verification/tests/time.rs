use scap::time::{Duration, SystemTime};

fn at_millis(millis: u64) -> SystemTime {
    SystemTime::unix_epoch()
        .checked_add(Duration::from_millis(millis))
        .unwrap()
}

#[test]
fn spans_agree_across_units() {
    assert_eq!(Duration::from_secs(2), Duration::from_millis(2_000));
    assert_eq!(Duration::from_millis(3), Duration::from_micros(3_000));
    assert_eq!(Duration::from_micros(1_500_000), Duration::from_nanos(1_500_000_000));
    let span = Duration::from_nanos(1_500_000_001);
    assert_eq!(span.as_secs(), 1);
    assert_eq!(span.subsec_nanos(), 500_000_001);
    assert_eq!(Duration::zero(), Duration::from_secs(0));
}

#[test]
fn sums_carry_and_saturate() {
    let sum = Duration::from_millis(1_700).saturating_add(Duration::from_millis(1_800));
    assert_eq!(sum, Duration::from_millis(3_500));
    let longest = Duration::from_secs(u64::MAX).saturating_add(Duration::from_secs(1));
    assert_eq!(longest.as_secs(), u64::MAX);
    assert_eq!(longest.subsec_nanos(), 999_999_999);
}

#[test]
fn differences_borrow_and_stop_at_zero() {
    let rest = Duration::from_millis(3_100).saturating_sub(Duration::from_millis(1_200));
    assert_eq!(rest, Duration::from_millis(1_900));
    assert_eq!(
        Duration::from_millis(5).saturating_sub(Duration::from_millis(6)),
        Duration::zero()
    );
}

#[test]
fn instants_move_both_ways_across_the_epoch() {
    let start = at_millis(1_250);
    assert_eq!(
        start.checked_sub(Duration::from_millis(1_250)).unwrap(),
        SystemTime::unix_epoch()
    );
    let before = start.checked_sub(Duration::from_millis(2_500)).unwrap();
    assert_eq!(before.since_unix_epoch(), None);
    assert_eq!(before.checked_add(Duration::from_millis(2_500)).unwrap(), start);
    assert_eq!(start.since_unix_epoch(), Some(Duration::from_millis(1_250)));
}

#[test]
fn instants_outside_the_clock_are_refused() {
    let epoch = SystemTime::unix_epoch();
    let last = epoch.checked_add(Duration::from_secs(i64::MAX as u64)).unwrap();
    assert!(last.checked_add(Duration::from_nanos(999_999_999)).is_some());
    assert!(last.checked_add(Duration::from_secs(1)).is_none());
    let first = epoch.checked_sub(Duration::from_secs(1 << 63)).unwrap();
    assert!(first.checked_sub(Duration::from_nanos(1)).is_none());
}
