use lan_discovery::clock::{stale_at, Timestamp, RETENTION_SECS};

#[test]
fn retention_window_is_thirty_seconds() {
    assert_eq!(RETENTION_SECS, 30);
}

#[test]
fn fresh_just_below_the_window() {
    let seen = Timestamp::new(100, 0);
    assert!(!stale_at(seen, Timestamp::new(110, 0)));
    assert!(!stale_at(seen, Timestamp::new(129, 999_999_999)));
}

#[test]
fn stale_from_the_window_on() {
    let seen = Timestamp::new(100, 0);
    assert!(stale_at(seen, Timestamp::new(130, 0)));
    assert!(stale_at(seen, Timestamp::new(131, 0)));
}

#[test]
fn sub_second_parts_count() {
    let seen = Timestamp::new(100, 500);
    assert!(!stale_at(seen, Timestamp::new(130, 499)));
    assert!(stale_at(seen, Timestamp::new(130, 500)));
}

#[test]
fn a_time_yet_to_come_is_not_stale() {
    assert!(!stale_at(Timestamp::new(200, 0), Timestamp::new(100, 0)));
}

#[test]
fn largest_times_do_not_overflow() {
    let last = Timestamp::new(u64::MAX, u32::MAX);
    assert!(stale_at(Timestamp::new(0, 0), last));
    assert!(!stale_at(last, Timestamp::new(0, 0)));
    assert!(!stale_at(last, last));
}

#[test]
fn epoch_seconds_of_a_timestamp() {
    assert_eq!(Timestamp::new(1_700_000_000, 999_999_999).unix_epoch_secs(), 1_700_000_000);
    assert_eq!(Timestamp::new(0, 5).unix_epoch_secs(), 0);
    assert_eq!(Timestamp::new(u64::MAX, 0).unix_epoch_secs(), -1);
}
