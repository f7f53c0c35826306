//! The monitor: owns the history and the settings, records samples, and
//! answers with the presentation data.
use vstd::prelude::*;
use std::collections::VecDeque;
use crate::estimator::{
    annual_degradation_tenths,
    degradation_tenths,
    discharge_rate,
    estimate_discharge_rate,
    eta_for_rate,
    eta_text,
};
use crate::history::{
    append,
    evict_expired,
    evicts_expired_prefix,
    lemma_eviction_keeps_exactly_unexpired,
    restore_history,
    time_ordered,
};
use crate::measurement::BatteryMeasurement;
use crate::report::{detail_report, detail_text};
use crate::settings::AppSettings;
use crate::timestamp::{format_minute, minute_text, Timestamp};

verus! {

broadcast use vstd::std_specs::vecdeque::group_vec_dequeue_axioms;

/// Every how many appended samples the expired ones are evicted.
pub const CLEANUP_EVERY: usize = 100;

/// The history, the settings, and the handle of the icon now shown, which
/// must be released before another replaces it.
pub struct BatteryMonitor {
    pub measurements: VecDeque<BatteryMeasurement>,
    pub settings: AppSettings,
    pub last_icon: Option<isize>,
}

/// The presentation data of one sample: percentage, time-remaining text,
/// charging flag.
pub type StatusReport = (u8, String, bool);

/// The text for the time of the first sample of `s`: its local date and
/// minute, or `N/A` where there is none.
pub open spec fn since_text(s: Seq<BatteryMeasurement>) -> Seq<char> {
    if s.len() == 0 {
        "N/A"@
    } else {
        match minute_text(s[0].timestamp.secs as int, s[0].timestamp.offset as int) {
            Some(t) => t,
            None => "N/A"@,
        }
    }
}

/// The sample recorded at `now`: its rate is that of the history before it.
pub open spec fn sample_of(
    s: Seq<BatteryMeasurement>,
    percentage: u8,
    is_charging: bool,
    now: Timestamp,
) -> BatteryMeasurement {
    BatteryMeasurement {
        timestamp: now,
        percentage,
        is_charging,
        discharge_rate: discharge_rate(s) as i32,
    }
}

/// `after` is the history `before` once the sample has been appended, and,
/// where the new length is a multiple of the cleanup period, the expired
/// samples have been evicted as of `now`.
pub open spec fn records_sample(
    before: Seq<BatteryMeasurement>,
    after: Seq<BatteryMeasurement>,
    percentage: u8,
    is_charging: bool,
    now: Timestamp,
    retention_hours: int,
) -> bool {
    let appended = before.push(sample_of(before, percentage, is_charging, now));
    if appended.len() % (CLEANUP_EVERY as nat) == 0 {
        evicts_expired_prefix(appended, after, now, retention_hours)
    } else {
        after == appended
    }
}

/// Recording a sample that is not older than the newest one keeps a
/// time-ordered history time-ordered, eviction included.
pub proof fn lemma_recording_keeps_time_order(
    before: Seq<BatteryMeasurement>,
    after: Seq<BatteryMeasurement>,
    percentage: u8,
    is_charging: bool,
    now: Timestamp,
    retention_hours: int,
)
    requires
        time_ordered(before),
        before.len() > 0 ==> before.last().timestamp.instant() <= now.instant(),
        records_sample(before, after, percentage, is_charging, now, retention_hours),
    ensures
        time_ordered(after),
{
    let appended = before.push(sample_of(before, percentage, is_charging, now));
    assert(time_ordered(appended)) by {
        assert forall|i: int, j: int|
            0 <= i <= j < appended.len() implies #[trigger] appended[i].timestamp.instant()
            <= #[trigger] appended[j].timestamp.instant() by {
            if j == before.len() && i < j {
                assert(before[i].timestamp.instant() <= before.last().timestamp.instant());
            }
        }
    }
    if appended.len() % (CLEANUP_EVERY as nat) == 0 {
        lemma_eviction_keeps_exactly_unexpired(appended, after, now, retention_hours);
    }
}

impl BatteryMonitor {
    /// A monitor over the loaded history (empty where none could be loaded)
    /// and the settings in force, showing no icon yet.
    pub fn new(history: Option<Vec<BatteryMeasurement>>, settings: AppSettings) -> (r: Self)
        ensures
            history is None ==> r.measurements@ == Seq::<BatteryMeasurement>::empty(),
            history matches Some(v) ==> r.measurements@ == v@,
            r.settings == settings,
            r.last_icon is None,
    {
        BatteryMonitor { measurements: restore_history(history), settings, last_icon: None }
    }

    /// Evicts the samples older than the retention horizon before `now`.
    pub fn cleanup_old_measurements(&mut self, now: Timestamp)
        ensures
            evicts_expired_prefix(
                old(self).measurements@,
                final(self).measurements@,
                now,
                old(self).settings.history_retention_hours as int,
            ),
            final(self).settings == old(self).settings,
            final(self).last_icon == old(self).last_icon,
    {
        evict_expired(&mut self.measurements, now, self.settings.history_retention_hours);
    }

    /// The discharge rate of the history, in hundredths of a percent per hour.
    pub fn estimate_discharge_rate(&self) -> (r: i32)
        ensures
            r as int == discharge_rate(self.measurements@),
    {
        estimate_discharge_rate(&self.measurements)
    }

    /// The time-remaining text for a sample, from the rate of the history.
    pub fn calculate_eta(&self, percentage: u8, is_charging: bool) -> (r: String)
        ensures
            r@ == eta_text(percentage as int, is_charging, discharge_rate(self.measurements@)),
    {
        let rate = estimate_discharge_rate(&self.measurements);
        eta_for_rate(percentage, is_charging, rate)
    }

    /// The annual degradation estimate, in tenths of a percent.
    pub fn calculate_annual_degradation(&self) -> (r: u32)
        ensures
            r as int == degradation_tenths(self.measurements@),
    {
        annual_degradation_tenths(&self.measurements)
    }

    /// Records a sample taken at `now`: its rate is estimated from the
    /// history before it is appended; every hundredth append evicts the
    /// expired samples; the time-remaining text comes from the history after.
    pub fn record_sample(&mut self, percentage: u8, is_charging: bool, now: Timestamp) -> (r:
        StatusReport)
        ensures
            records_sample(
                old(self).measurements@,
                final(self).measurements@,
                percentage,
                is_charging,
                now,
                old(self).settings.history_retention_hours as int,
            ),
            final(self).settings == old(self).settings,
            final(self).last_icon == old(self).last_icon,
            r.0 == percentage,
            r.1@ == eta_text(percentage as int, is_charging, discharge_rate(final(self).measurements@)),
            r.2 == is_charging,
    {
        let rate = estimate_discharge_rate(&self.measurements);
        let m = BatteryMeasurement { timestamp: now, percentage, is_charging, discharge_rate: rate };
        append(&mut self.measurements, m);
        if self.measurements.len() % CLEANUP_EVERY == 0 {
            evict_expired(&mut self.measurements, now, self.settings.history_retention_hours);
        }
        let eta = self.calculate_eta(percentage, is_charging);
        (percentage, eta, is_charging)
    }

    /// Records the host's power status, if it could be read, as a sample
    /// taken at `now`. Without a status nothing changes and there is no
    /// report.
    pub fn get_battery_status(&mut self, status: Option<(u8, bool)>, now: Timestamp) -> (r: Option<
        StatusReport,
    >)
        ensures
            status is None ==> r is None && *final(self) == *old(self),
            status matches Some((p, c)) ==> {
                &&& records_sample(
                    old(self).measurements@,
                    final(self).measurements@,
                    p,
                    c,
                    now,
                    old(self).settings.history_retention_hours as int,
                )
                &&& r matches Some(out) && out.0 == p && out.2 == c && out.1@ == eta_text(
                    p as int,
                    c,
                    discharge_rate(final(self).measurements@),
                )
            },
            final(self).settings == old(self).settings,
            final(self).last_icon == old(self).last_icon,
    {
        match status {
            None => None,
            Some((percentage, is_charging)) => Some(self.record_sample(percentage, is_charging, now)),
        }
    }

    /// The status report for a sample with `percentage` and `is_charging`;
    /// `rate_text` is the history's discharge rate in percent per hour with
    /// one decimal, which callers render from `estimate_discharge_rate`.
    pub fn get_detailed_info(&self, percentage: u8, is_charging: bool, rate_text: &str) -> (r: String)
        ensures
            r@ == detail_text(
                percentage as nat,
                is_charging,
                rate_text@,
                self.measurements@.len(),
                degradation_tenths(self.measurements@) as nat,
                since_text(self.measurements@),
            ),
    {
        let degradation = annual_degradation_tenths(&self.measurements);
        let formatted: Option<String> = if self.measurements.len() > 0 {
            let first = &self.measurements[0];
            format_minute(first.timestamp.secs, first.timestamp.offset)
        } else {
            None
        };
        proof {
            reveal_strlit("N/A");
        }
        match formatted {
            Some(t) => detail_report(
                percentage,
                is_charging,
                rate_text,
                self.measurements.len(),
                degradation,
                t.as_str(),
            ),
            None => detail_report(
                percentage,
                is_charging,
                rate_text,
                self.measurements.len(),
                degradation,
                "N/A",
            ),
        }
    }

    /// Shows `icon` in place of the current one, and hands back the handle
    /// that it replaces, which the caller must release.
    pub fn replace_icon(&mut self, icon: isize) -> (r: Option<isize>)
        ensures
            r == old(self).last_icon,
            final(self).last_icon == Some(icon),
            final(self).measurements@ == old(self).measurements@,
            final(self).settings == old(self).settings,
    {
        let previous = self.last_icon.take();
        self.last_icon = Some(icon);
        previous
    }

    /// Gives up the current icon handle, which the caller must release.
    pub fn take_icon(&mut self) -> (r: Option<isize>)
        ensures
            r == old(self).last_icon,
            final(self).last_icon is None,
            final(self).measurements@ == old(self).measurements@,
            final(self).settings == old(self).settings,
    {
        self.last_icon.take()
    }
}

} // verus!
