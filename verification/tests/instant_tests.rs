use chrono::{DateTime, Utc};
use ppslib::instant::{can_go_back_minutes, minutes_before, Instant, EARLIEST_SECS, LATEST_SECS};

#[test]
fn minutes_before_subtracts_whole_minutes() {
    let now = Instant { secs: 1_000_000, nanos: 5 };
    assert_eq!(minutes_before(now, 10), Instant { secs: 999_400, nanos: 5 });
    assert_eq!(minutes_before(now, 0), now);
    assert_eq!(minutes_before(now, -1), Instant { secs: 1_000_060, nanos: 5 });
}

#[test]
fn minutes_before_crosses_the_epoch() {
    let now = Instant { secs: 30, nanos: 999_999_999 };
    assert_eq!(minutes_before(now, 1), Instant { secs: -30, nanos: 999_999_999 });
}

#[test]
fn later_than_orders_by_second_then_fraction() {
    let a = Instant { secs: 10, nanos: 0 };
    let b = Instant { secs: 10, nanos: 1 };
    let leap = Instant { secs: 10, nanos: 1_500_000_000 };
    let c = Instant { secs: 11, nanos: 0 };
    assert!(b.later_than(&a));
    assert!(!a.later_than(&b));
    assert!(!a.later_than(&a));
    assert!(leap.later_than(&b));
    assert!(c.later_than(&leap));
}

#[test]
fn going_back_is_bounded_by_chrono() {
    let now = Instant { secs: 1_700_000_000, nanos: 0 };
    assert!(can_go_back_minutes(now, 30));
    assert!(can_go_back_minutes(now, -30));
    assert!(!can_go_back_minutes(now, i64::MAX));
    assert!(!can_go_back_minutes(now, 153_722_867_280_913));
    assert!(!can_go_back_minutes(Instant { secs: 0, nanos: 1_000_000_000 }, 1));
    assert!(can_go_back_minutes(Instant { secs: EARLIEST_SECS + 60, nanos: 0 }, 1));
    assert!(!can_go_back_minutes(Instant { secs: EARLIEST_SECS + 59, nanos: 0 }, 1));
    assert!(can_go_back_minutes(Instant { secs: LATEST_SECS - 60, nanos: 0 }, -1));
    assert!(!can_go_back_minutes(Instant { secs: LATEST_SECS - 59, nanos: 0 }, -1));
}

#[test]
fn chrono_agrees_at_the_calendar_edges() {
    let edge = minutes_before(Instant { secs: EARLIEST_SECS + 60, nanos: 7 }, 1);
    assert_eq!(edge, Instant { secs: EARLIEST_SECS, nanos: 7 });
    let top = minutes_before(Instant { secs: LATEST_SECS - 60, nanos: 999_999_999 }, -1);
    assert_eq!(top, Instant { secs: LATEST_SECS, nanos: 999_999_999 });
}

#[test]
fn calendar_bounds_are_chrono_s_own() {
    assert_eq!(DateTime::<Utc>::MIN_UTC.timestamp(), EARLIEST_SECS);
    assert_eq!(DateTime::<Utc>::MAX_UTC.timestamp(), LATEST_SECS);
    assert!(DateTime::from_timestamp(EARLIEST_SECS, 0).is_some());
    assert!(DateTime::from_timestamp(EARLIEST_SECS - 1, 999_999_999).is_none());
    assert!(DateTime::from_timestamp(-8_334_601_315_200, 0).is_none());
    assert!(DateTime::from_timestamp(LATEST_SECS, 999_999_999).is_some());
    assert!(DateTime::from_timestamp(LATEST_SECS + 1, 0).is_none());
}
