use std::collections::VecDeque;

use battesty::history::{append, evict_expired, is_expired, restore_history, snapshot};
use battesty::measurement::BatteryMeasurement;
use battesty::timestamp::Timestamp;

const HOUR: i64 = 3600;

fn at(secs: i64, percentage: u8) -> BatteryMeasurement {
    BatteryMeasurement {
        timestamp: Timestamp { secs, nanos: 0, offset: 0 },
        percentage,
        is_charging: false,
        discharge_rate: 0,
    }
}

fn store(items: &[BatteryMeasurement]) -> VecDeque<BatteryMeasurement> {
    items.iter().copied().collect()
}

fn secs_of(s: &VecDeque<BatteryMeasurement>) -> Vec<i64> {
    s.iter().map(|m| m.timestamp.secs).collect()
}

#[test]
fn append_adds_at_tail_without_validation() {
    let mut s = store(&[at(0, 50)]);
    append(&mut s, at(10, 250));
    assert_eq!(s.len(), 2);
    assert_eq!(s[1].percentage, 250);
    assert_eq!(s[1].timestamp.secs, 10);
}

#[test]
fn evict_removes_exactly_the_expired_head() {
    let now = Timestamp { secs: 200 * HOUR, nanos: 0, offset: 0 };
    let mut s = store(&[at(10 * HOUR, 1), at(31 * HOUR, 2), at(32 * HOUR, 3), at(100 * HOUR, 4), at(199 * HOUR, 5)]);
    evict_expired(&mut s, now, 168);
    assert_eq!(secs_of(&s), vec![32 * HOUR, 100 * HOUR, 199 * HOUR]);
    for m in s.iter() {
        assert!(!is_expired(m, &now, 168));
    }
}

#[test]
fn evict_one_nanosecond_before_horizon_is_expired() {
    let now = Timestamp { secs: 10 * HOUR, nanos: 0, offset: 0 };
    let just_before = BatteryMeasurement {
        timestamp: Timestamp { secs: 9 * HOUR - 1, nanos: 999_999_999, offset: 0 },
        percentage: 10,
        is_charging: false,
        discharge_rate: 0,
    };
    let mut s = store(&[just_before, at(9 * HOUR, 11)]);
    evict_expired(&mut s, now, 1);
    assert_eq!(s.len(), 1);
    assert_eq!(s[0].percentage, 11);
}

#[test]
fn evict_stops_at_first_unexpired_entry() {
    let now = Timestamp { secs: 100 * HOUR, nanos: 0, offset: 0 };
    let mut s = store(&[at(10 * HOUR, 1), at(90 * HOUR, 2), at(20 * HOUR, 3)]);
    evict_expired(&mut s, now, 50);
    assert_eq!(secs_of(&s), vec![90 * HOUR, 20 * HOUR]);
}

#[test]
fn evict_on_empty_and_fresh_store_changes_nothing() {
    let now = Timestamp { secs: 100 * HOUR, nanos: 0, offset: 0 };
    let mut empty: VecDeque<BatteryMeasurement> = VecDeque::new();
    evict_expired(&mut empty, now, 1);
    assert!(empty.is_empty());
    let mut fresh = store(&[at(99 * HOUR, 1), at(100 * HOUR, 2)]);
    evict_expired(&mut fresh, now, 1);
    assert_eq!(fresh.len(), 2);
}

#[test]
fn evict_with_zero_retention_keeps_only_now_and_later() {
    let now = Timestamp { secs: 5 * HOUR, nanos: 0, offset: 0 };
    let mut s = store(&[at(5 * HOUR - 1, 1), at(5 * HOUR, 2), at(6 * HOUR, 3)]);
    evict_expired(&mut s, now, 0);
    assert_eq!(secs_of(&s), vec![5 * HOUR, 6 * HOUR]);
}

#[test]
fn restore_without_snapshot_is_empty() {
    assert!(restore_history(None).is_empty());
}

#[test]
fn snapshot_then_restore_gives_equal_sequence() {
    let mut original = store(&[at(1, 90), at(2, 80), at(3, 70)]);
    original[1].is_charging = true;
    original[2].discharge_rate = -1234;
    let written = snapshot(&original);
    assert_eq!(written.len(), 3);
    let restored = restore_history(Some(written));
    assert_eq!(restored, original);
}
