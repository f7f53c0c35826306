//! The measurement history: an oldest-first sequence of samples with
//! append, age-based eviction from the head, and reconstruction from a
//! persisted snapshot.
use vstd::prelude::*;
use std::collections::VecDeque;
use crate::measurement::BatteryMeasurement;
use crate::timestamp::{Timestamp, NANOS_PER_SEC, SECS_PER_HOUR};

verus! {

broadcast use vstd::std_specs::vecdeque::group_vec_dequeue_axioms;

/// Nanoseconds in `hours` hours.
pub open spec fn horizon_nanos(hours: int) -> int {
    hours * 3600 * 1_000_000_000
}

/// A sample is expired when it was taken before `now` minus the retention
/// horizon.
pub open spec fn expired(m: BatteryMeasurement, now: Timestamp, hours: int) -> bool {
    m.timestamp.instant() < now.instant() - horizon_nanos(hours)
}

/// Samples stand in the order of their instants, oldest first.
pub open spec fn time_ordered(s: Seq<BatteryMeasurement>) -> bool {
    forall|i: int, j: int|
        0 <= i <= j < s.len() ==> #[trigger] s[i].timestamp.instant() <= #[trigger] s[j].timestamp.instant()
}

/// `after` is `before` without its longest prefix of expired samples.
pub open spec fn evicts_expired_prefix(
    before: Seq<BatteryMeasurement>,
    after: Seq<BatteryMeasurement>,
    now: Timestamp,
    hours: int,
) -> bool {
    exists|k: int|
        0 <= k <= before.len() && after == before.subrange(k, before.len() as int) && (forall|i: int|
            0 <= i < k ==> expired(#[trigger] before[i], now, hours)) && (k < before.len() ==> !expired(
            before[k],
            now,
            hours,
        ))
}

/// Whether `m` is older than the retention horizon of `retention_hours`
/// hours before `now`.
pub fn is_expired(m: &BatteryMeasurement, now: &Timestamp, retention_hours: u32) -> (r: bool)
    ensures
        r == expired(*m, *now, retention_hours as int),
{
    let horizon: i128 = retention_hours as i128 * SECS_PER_HOUR * NANOS_PER_SEC;
    m.timestamp.instant_nanos() < now.instant_nanos() - horizon
}

/// Adds a sample at the tail, whatever it holds.
pub fn append(measurements: &mut VecDeque<BatteryMeasurement>, m: BatteryMeasurement)
    ensures
        final(measurements)@ == old(measurements)@.push(m),
{
    measurements.push_back(m);
}

/// Removes samples from the head while the head is expired, and stops at the
/// first one that is not.
pub fn evict_expired(
    measurements: &mut VecDeque<BatteryMeasurement>,
    now: Timestamp,
    retention_hours: u32,
)
    ensures
        evicts_expired_prefix(old(measurements)@, final(measurements)@, now, retention_hours as int),
{
    let ghost before = measurements@;
    let ghost mut k: int = 0;
    while measurements.len() > 0 && is_expired(&measurements[0], &now, retention_hours)
        invariant
            0 <= k <= before.len(),
            measurements@ == before.subrange(k, before.len() as int),
            forall|i: int| 0 <= i < k ==> expired(#[trigger] before[i], now, retention_hours as int),
        decreases measurements@.len(),
    {
        measurements.pop_front();
        proof {
            k = k + 1;
        }
    }
    assert(evicts_expired_prefix(before, measurements@, now, retention_hours as int)) by {
        if k < before.len() {
            assert(measurements@[0] == before[k]);
        }
    }
}

/// On a time-ordered history, eviction keeps exactly the samples that are
/// not expired: none that remains is older than the horizon, and none that is
/// within it is removed.
pub proof fn lemma_eviction_keeps_exactly_unexpired(
    before: Seq<BatteryMeasurement>,
    after: Seq<BatteryMeasurement>,
    now: Timestamp,
    hours: int,
)
    requires
        time_ordered(before),
        evicts_expired_prefix(before, after, now, hours),
    ensures
        forall|j: int| 0 <= j < after.len() ==> !expired(#[trigger] after[j], now, hours),
        forall|i: int|
            0 <= i < before.len() && !expired(#[trigger] before[i], now, hours) ==> after.contains(
                before[i],
            ),
        time_ordered(after),
{
    let k = choose|k: int|
        0 <= k <= before.len() && after == before.subrange(k, before.len() as int) && (forall|i: int|
            0 <= i < k ==> expired(#[trigger] before[i], now, hours)) && (k < before.len() ==> !expired(
            before[k],
            now,
            hours,
        ));
    assert forall|j: int| 0 <= j < after.len() implies !expired(#[trigger] after[j], now, hours) by {
        assert(after[j] == before[k + j]);
        assert(before[k].timestamp.instant() <= before[k + j].timestamp.instant());
    }
    assert forall|i: int|
        0 <= i < before.len() && !expired(#[trigger] before[i], now, hours) implies after.contains(
        before[i],
    ) by {
        assert(i >= k);
        assert(after[i - k] == before[i]);
    }
    assert forall|i: int, j: int|
        0 <= i <= j < after.len() implies #[trigger] after[i].timestamp.instant()
        <= #[trigger] after[j].timestamp.instant() by {
        assert(after[i] == before[k + i]);
        assert(after[j] == before[k + j]);
    }
}

/// The history that a loaded snapshot gives: its samples in their order, or
/// an empty history where nothing could be loaded.
pub fn restore_history(snapshot: Option<Vec<BatteryMeasurement>>) -> (r: VecDeque<BatteryMeasurement>)
    ensures
        snapshot is None ==> r@ == Seq::<BatteryMeasurement>::empty(),
        snapshot matches Some(v) ==> r@ == v@,
{
    let mut r: VecDeque<BatteryMeasurement> = VecDeque::new();
    match snapshot {
        None => r,
        Some(v) => {
            let mut i: usize = 0;
            while i < v.len()
                invariant
                    i <= v.len(),
                    r@ == v@.subrange(0, i as int),
                decreases v.len() - i,
            {
                r.push_back(v[i]);
                i = i + 1;
                assert(r@ =~= v@.subrange(0, i as int));
            }
            assert(r@ =~= v@);
            r
        },
    }
}

/// The snapshot of a history that persistence writes out: its samples, oldest
/// first.
pub fn snapshot(measurements: &VecDeque<BatteryMeasurement>) -> (r: Vec<BatteryMeasurement>)
    ensures
        r@ == measurements@,
{
    let mut r: Vec<BatteryMeasurement> = Vec::new();
    let mut i: usize = 0;
    while i < measurements.len()
        invariant
            i <= measurements@.len(),
            r@ == measurements@.subrange(0, i as int),
        decreases measurements@.len() - i,
    {
        r.push(measurements[i]);
        i = i + 1;
        assert(r@ =~= measurements@.subrange(0, i as int));
    }
    assert(r@ =~= measurements@);
    r
}

} // verus!
