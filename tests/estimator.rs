use std::collections::VecDeque;

use battesty::estimator::{annual_degradation_tenths, estimate_discharge_rate, eta_for_rate, format_time};
use battesty::measurement::BatteryMeasurement;
use battesty::timestamp::Timestamp;

fn sample(secs: i64, percentage: u8, is_charging: bool) -> BatteryMeasurement {
    BatteryMeasurement {
        timestamp: Timestamp { secs, nanos: 0, offset: 0 },
        percentage,
        is_charging,
        discharge_rate: 0,
    }
}

fn history(items: &[(i64, u8, bool)]) -> VecDeque<BatteryMeasurement> {
    items.iter().map(|&(t, p, c)| sample(t, p, c)).collect()
}

#[test]
fn charging_only_window_has_zero_rate() {
    let h = history(&[(0, 80, true), (600, 60, true), (1200, 95, true), (1800, 20, true)]);
    assert_eq!(estimate_discharge_rate(&h), 0);
}

#[test]
fn fewer_than_two_samples_give_zero_rate() {
    assert_eq!(estimate_discharge_rate(&VecDeque::new()), 0);
    assert_eq!(estimate_discharge_rate(&history(&[(0, 50, false)])), 0);
}

#[test]
fn non_positive_elapsed_time_gives_zero_rate() {
    let same_time = history(&[(100, 60, false), (100, 40, false)]);
    assert_eq!(estimate_discharge_rate(&same_time), 0);
    let backwards = history(&[(200, 60, false), (100, 40, false)]);
    assert_eq!(estimate_discharge_rate(&backwards), 0);
}

#[test]
fn under_a_second_apart_does_not_count() {
    let mut h = history(&[(0, 60, false), (0, 59, false)]);
    h[0].timestamp.nanos = 500_000_000;
    h[1].timestamp = Timestamp { secs: 1, nanos: 400_000_000, offset: 0 };
    assert_eq!(estimate_discharge_rate(&h), 0);
}

#[test]
fn five_percent_per_hour_is_500() {
    let h = history(&[(0, 55, false), (3600, 50, false)]);
    assert_eq!(estimate_discharge_rate(&h), 500);
}

#[test]
fn rising_charge_while_discharging_gives_negative_rate() {
    let h = history(&[(0, 45, false), (3600, 50, false)]);
    assert_eq!(estimate_discharge_rate(&h), -500);
}

#[test]
fn rate_is_mean_of_pairs() {
    let h = history(&[(0, 60, false), (1800, 59, false), (3600, 57, false)]);
    assert_eq!(estimate_discharge_rate(&h), 300);
}

#[test]
fn rate_is_truncated_toward_zero() {
    let falling = history(&[(0, 60, false), (7, 59, false)]);
    assert_eq!(estimate_discharge_rate(&falling), 51428);
    let rising = history(&[(0, 59, false), (7, 60, false)]);
    assert_eq!(estimate_discharge_rate(&rising), -51428);
}

#[test]
fn mean_is_exact_before_truncation() {
    let falling = history(&[(0, 64, false), (2048, 1, false), (4096, 0, false)]);
    assert_eq!(estimate_discharge_rate(&falling), 5625);
    let rising = history(&[(0, 0, false), (2048, 63, false), (4096, 64, false)]);
    assert_eq!(estimate_discharge_rate(&rising), -5625);
}

#[test]
fn mean_over_many_unlike_intervals() {
    let h = history(&[
        (0, 90, false),
        (7, 89, false),
        (20, 88, false),
        (31, 87, false),
        (1_000_000_000_000, 20, false),
        (1_000_000_000_013, 19, false),
    ]);
    let exact = (360000.0 / 7.0 + 360000.0 / 13.0 + 360000.0 / 11.0 + 67.0 * 360000.0 / 999_999_999_969.0
        + 360000.0 / 13.0)
        / 5.0;
    assert_eq!(estimate_discharge_rate(&h), exact as i32);
}

#[test]
fn only_last_ten_samples_count() {
    let mut items = vec![(0, 100, false), (3600, 50, false), (7200, 40, false)];
    for i in 3..12 {
        items.push((i * 3600, (42 - i) as u8, false));
    }
    let h = history(&items);
    assert_eq!(h.len(), 12);
    assert_eq!(estimate_discharge_rate(&h), 100);
}

#[test]
fn pair_ending_in_charging_sample_is_excluded() {
    let h = history(&[(0, 60, false), (3600, 55, false), (7200, 80, true)]);
    assert_eq!(estimate_discharge_rate(&h), 500);
}

#[test]
fn eta_charging_full_is_fully_charged() {
    assert_eq!(eta_for_rate(100, true, 0), "Fully charged");
    assert_eq!(eta_for_rate(255, true, 700), "Fully charged");
}

#[test]
fn eta_charging_forty_percent_is_forty_minutes() {
    assert_eq!(eta_for_rate(40, true, 0), "40m");
}

#[test]
fn eta_charging_uses_fixed_rate() {
    assert_eq!(eta_for_rate(10, true, -300), "1h 0m");
    assert_eq!(eta_for_rate(0, true, 0), "1h 6m");
    assert_eq!(eta_for_rate(99, true, 0), "0m");
}

#[test]
fn eta_without_rate_is_calculating() {
    assert_eq!(eta_for_rate(50, false, 0), "Calculating...");
    assert_eq!(eta_for_rate(50, false, -500), "Calculating...");
}

#[test]
fn eta_at_five_percent_per_hour_from_fifty_is_ten_hours() {
    assert_eq!(eta_for_rate(50, false, 500), "10h 0m");
}

#[test]
fn eta_rounds_minutes_down() {
    assert_eq!(eta_for_rate(37, false, 123), "30h 4m");
}

#[test]
fn eta_under_a_minute() {
    assert_eq!(eta_for_rate(0, false, 500), "< 1 min");
    assert_eq!(eta_for_rate(1, false, 600_000), "< 1 min");
    assert_eq!(eta_for_rate(1, false, 6000), "1m");
}

#[test]
fn durations_render_hours_and_minutes() {
    assert_eq!(format_time(0), "0m");
    assert_eq!(format_time(59), "59m");
    assert_eq!(format_time(60), "1h 0m");
    assert_eq!(format_time(125), "2h 5m");
    assert_eq!(format_time(600), "10h 0m");
}

fn percentages(ps: &[u8]) -> VecDeque<BatteryMeasurement> {
    ps.iter().enumerate().map(|(i, &p)| sample(i as i64 * 30, p, false)).collect()
}

#[test]
fn degradation_is_zero_below_one_hundred_samples() {
    assert_eq!(annual_degradation_tenths(&percentages(&[100; 99])), 0);
    assert_eq!(annual_degradation_tenths(&VecDeque::new()), 0);
}

#[test]
fn degradation_is_two_and_a_half_with_two_full_charges() {
    let mut ps = vec![50u8; 100];
    ps[3] = 100;
    ps[97] = 100;
    assert_eq!(annual_degradation_tenths(&percentages(&ps)), 25);
}

#[test]
fn degradation_needs_two_full_charges() {
    let mut ps = vec![99u8; 150];
    ps[10] = 100;
    assert_eq!(annual_degradation_tenths(&percentages(&ps)), 0);
    assert_eq!(annual_degradation_tenths(&percentages(&[100; 100])), 25);
}
