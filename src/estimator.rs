//! Estimates over the measurement history: the discharge rate, the text of
//! the time remaining, and the annual degradation heuristic.
use vstd::prelude::*;
use vstd::arithmetic::div_mod::{lemma_div_is_ordered_by_denominator, lemma_fundamental_div_mod_converse};
use std::collections::VecDeque;
use crate::measurement::BatteryMeasurement;
use vstd::string::StringExecFns;
use crate::text::{decimal, push_decimal};
use crate::timestamp::{div_trunc, elapsed_secs, positive_elapsed_secs};
use crate::wide::{add_signed, at_least, limbs_value, lemma_value_one, mul_small, WideInt};

verus! {

broadcast use vstd::std_specs::vecdeque::group_vec_dequeue_axioms;

/// How many of the most recent samples the rate looks at.
pub const RATE_WINDOW: usize = 10;

/// The largest magnitude of `pair_change`: 255 points.
pub const MAX_PAIR_CHANGE: u64 = 91_800_000;

/// Index of the oldest sample inside the rate window of a history of `n`.
pub open spec fn window_start(n: int) -> int {
    if n > RATE_WINDOW {
        n - RATE_WINDOW
    } else {
        0
    }
}

/// The pair made of sample `j` (newer) and sample `j - 1` (older) enters the
/// rate when time moved forward by at least a second between them and the
/// newer one was not charging.
pub open spec fn pair_qualifies(s: Seq<BatteryMeasurement>, j: int) -> bool {
    elapsed_secs(s[j].timestamp, s[j - 1].timestamp) > 0 && !s[j].is_charging
}

/// Seconds between the samples of the pair ending at `j`.
pub open spec fn pair_elapsed(s: Seq<BatteryMeasurement>, j: int) -> int {
    elapsed_secs(s[j].timestamp, s[j - 1].timestamp)
}

/// The change of the pair ending at `j`, `older − newer`, times 3600
/// seconds per hour and 100 hundredths per percent: the pair's rate in
/// hundredths of a percent per hour is this over `pair_elapsed`.
pub open spec fn pair_change(s: Seq<BatteryMeasurement>, j: int) -> int {
    (s[j - 1].percentage - s[j].percentage) * 360_000
}

/// Denominator of the exact sum of the rates of the qualifying pairs ending
/// at `lo..hi`: the product of their elapsed times.
pub open spec fn rate_den(s: Seq<BatteryMeasurement>, lo: int, hi: int) -> int
    decreases hi - lo,
{
    if hi <= lo {
        1
    } else if pair_qualifies(s, hi - 1) {
        rate_den(s, lo, hi - 1) * pair_elapsed(s, hi - 1)
    } else {
        rate_den(s, lo, hi - 1)
    }
}

/// Numerator of the exact sum, in hundredths of a percent per hour, of the
/// rates of the qualifying pairs ending at `lo..hi`, over `rate_den`: each
/// pair adds `pair_change / pair_elapsed` as `n/d + c/e = (n·e + c·d)/(d·e)`.
pub open spec fn rate_num(s: Seq<BatteryMeasurement>, lo: int, hi: int) -> int
    decreases hi - lo,
{
    if hi <= lo {
        0
    } else if pair_qualifies(s, hi - 1) {
        rate_num(s, lo, hi - 1) * pair_elapsed(s, hi - 1) + pair_change(s, hi - 1) * rate_den(
            s,
            lo,
            hi - 1,
        )
    } else {
        rate_num(s, lo, hi - 1)
    }
}

/// Number of qualifying pairs ending at `lo..hi`.
pub open spec fn rate_count(s: Seq<BatteryMeasurement>, lo: int, hi: int) -> int
    decreases hi - lo,
{
    if hi <= lo {
        0
    } else {
        rate_count(s, lo, hi - 1) + if pair_qualifies(s, hi - 1) {
            1int
        } else {
            0
        }
    }
}

/// The discharge rate of a history in hundredths of a percent per hour: the
/// exact mean rate of the qualifying adjacent pairs among the last ten
/// samples, rounded toward zero once, or 0 where no pair qualifies. It is
/// positive while the charge falls.
pub open spec fn discharge_rate(s: Seq<BatteryMeasurement>) -> int {
    let lo = window_start(s.len() as int) + 1;
    let c = rate_count(s, lo, s.len() as int);
    if c == 0 {
        0
    } else {
        div_trunc(rate_num(s, lo, s.len() as int), c * rate_den(s, lo, s.len() as int))
    }
}

proof fn lemma_no_charging_pair(s: Seq<BatteryMeasurement>, lo: int, hi: int)
    requires
        forall|j: int| lo <= j < hi ==> (#[trigger] s[j]).is_charging,
    ensures
        rate_count(s, lo, hi) == 0,
    decreases hi - lo,
{
    if hi > lo {
        lemma_no_charging_pair(s, lo, hi - 1);
    }
}

/// The elapsed seconds and the change of the pair made of `newer` and
/// `older`, where it qualifies.
fn qualifying_pair(newer: &BatteryMeasurement, older: &BatteryMeasurement) -> (r: Option<(u128, i64)>)
    ensures
        r is Some <==> (elapsed_secs(newer.timestamp, older.timestamp) > 0 && !newer.is_charging),
        r matches Some((e, c)) ==> {
            &&& e as int == elapsed_secs(newer.timestamp, older.timestamp)
            &&& e < 0x1_0000_0000_0000_0000_0000
            &&& c == (older.percentage - newer.percentage) * 360_000
        },
{
    if newer.is_charging {
        return None;
    }
    match positive_elapsed_secs(&newer.timestamp, &older.timestamp) {
        None => None,
        Some(e) => Some((e, (older.percentage as i64 - newer.percentage as i64) * 360_000)),
    }
}

/// The discharge rate of `measurements`, in hundredths of a percent per hour.
pub fn estimate_discharge_rate(measurements: &VecDeque<BatteryMeasurement>) -> (r: i32)
    ensures
        r as int == discharge_rate(measurements@),
{
    let ghost s = measurements@;
    let n = measurements.len();
    let lo: usize = if n > RATE_WINDOW {
        n - RATE_WINDOW + 1
    } else {
        1
    };
    let mut num = WideInt { negative: false, magnitude: Vec::new() };
    let mut den: Vec<u32> = vec![1];
    let mut count: u64 = 0;
    let mut j: usize = lo;
    proof {
        lemma_value_one();
        assert(den@ =~= seq![1u32]);
    }
    while j < n
        invariant
            n == s.len(),
            s == measurements@,
            lo == window_start(n as int) + 1,
            lo <= j <= n || (n < lo && j == lo),
            num.value() == rate_num(s, lo as int, j as int),
            limbs_value(den@) == rate_den(s, lo as int, j as int),
            rate_den(s, lo as int, j as int) >= 1,
            count == rate_count(s, lo as int, j as int),
            0 <= count <= j - lo,
            limbs_value(num.magnitude@) <= count * MAX_PAIR_CHANGE * limbs_value(den@),
        decreases n - j,
    {
        match qualifying_pair(&measurements[j], &measurements[j - 1]) {
            Some((e, change)) => {
                let ghost d = limbs_value(den@);
                let ghost m = limbs_value(num.magnitude@);
                let scaled = WideInt { negative: num.negative, magnitude: mul_small(&num.magnitude, e) };
                let size: u128 = if change >= 0 {
                    change as u128
                } else {
                    (-change) as u128
                };
                let added = WideInt { negative: change < 0, magnitude: mul_small(&den, size) };
                proof {
                    assert(scaled.value() == num.value() * e) by (nonlinear_arith)
                        requires
                            scaled.value() == if num.negative { -(m * e) } else { m * e },
                            num.value() == if num.negative { -m } else { m as int },
                    ;
                    assert(added.value() == change * d) by (nonlinear_arith)
                        requires
                            added.value() == if change < 0 { -(d * size) } else { d * size },
                            size == if change >= 0 { change as int } else { -change },
                    ;
                    assert(m * e + d * size <= (count + 1) * MAX_PAIR_CHANGE * (d * e)) by (nonlinear_arith)
                        requires
                            m <= count * MAX_PAIR_CHANGE * d,
                            size <= MAX_PAIR_CHANGE,
                            e >= 1,
                            d >= 1,
                            count >= 0,
                    ;
                    assert(d * e >= 1) by (nonlinear_arith)
                        requires
                            d >= 1,
                            e >= 1,
                    ;
                }
                num = add_signed(scaled, added);
                den = mul_small(&den, e);
                count = count + 1;
            },
            None => {},
        }
        j = j + 1;
    }
    if count == 0 {
        return 0;
    }
    let ghost d = limbs_value(den@);
    let ghost m = limbs_value(num.magnitude@);
    let scale = mul_small(&den, count as u128);
    let mut low: u64 = 0;
    let mut high: u64 = MAX_PAIR_CHANGE + 1;
    proof {
        assert(m < high * (d * count)) by (nonlinear_arith)
            requires
                m <= count * MAX_PAIR_CHANGE * d,
                high == MAX_PAIR_CHANGE + 1,
                d >= 1,
                count >= 1,
        ;
        assert(low * (d * count) == 0);
    }
    while high - low > 1
        invariant
            low < high <= MAX_PAIR_CHANGE + 1,
            limbs_value(scale@) == d * count,
            m == limbs_value(num.magnitude@),
            low * (d * count) <= m < high * (d * count),
        decreases high - low,
    {
        let mid = low + (high - low) / 2;
        let product = mul_small(&scale, mid as u128);
        if at_least(&num.magnitude, &product) {
            low = mid;
        } else {
            high = mid;
        }
    }
    proof {
        assert(d * count >= 1) by (nonlinear_arith)
            requires
                d >= 1,
                count >= 1,
        ;
        assert(high * (d * count) == low * (d * count) + d * count) by (nonlinear_arith)
            requires
                high == low + 1,
        ;
        lemma_fundamental_div_mod_converse(m as int, d * count, low as int, m - low * (d * count));
        assert(count * d == d * count) by (nonlinear_arith);
    }
    if num.negative {
        -(low as i32)
    } else {
        low as i32
    }
}

/// A history whose rate window holds only samples taken while charging has
/// rate 0, whatever its percentages.
pub proof fn lemma_charging_window_has_zero_rate(s: Seq<BatteryMeasurement>)
    requires
        forall|j: int| window_start(s.len() as int) <= j < s.len() ==> (#[trigger] s[j]).is_charging,
    ensures
        discharge_rate(s) == 0,
{
    lemma_no_charging_pair(s, window_start(s.len() as int) + 1, s.len() as int);
}

/// Where no adjacent pair in the window qualifies (fewer than two samples,
/// no forward step of a second or more, or only charging samples as the
/// newer of a pair), the rate is 0: no pair rate is averaged and nothing is
/// divided by zero.
pub proof fn lemma_no_qualifying_pair_gives_zero_rate(s: Seq<BatteryMeasurement>)
    requires
        forall|j: int|
            window_start(s.len() as int) < j < s.len() ==> !#[trigger] pair_qualifies(s, j),
    ensures
        discharge_rate(s) == 0,
{
    lemma_none_qualify(s, window_start(s.len() as int) + 1, s.len() as int);
}

proof fn lemma_none_qualify(s: Seq<BatteryMeasurement>, lo: int, hi: int)
    requires
        forall|j: int| lo <= j < hi ==> !#[trigger] pair_qualifies(s, j),
    ensures
        rate_count(s, lo, hi) == 0,
    decreases hi - lo,
{
    if hi > lo {
        lemma_none_qualify(s, lo, hi - 1);
    }
}

/// With fewer than two samples, or where no pair of adjacent samples in the
/// window is at least a second apart, the rate is 0: no division takes place.
pub proof fn lemma_rate_without_pairs_is_zero(s: Seq<BatteryMeasurement>)
    requires
        s.len() < 2 || forall|j: int|
            window_start(s.len() as int) < j < s.len() ==> elapsed_secs(
                (#[trigger] s[j]).timestamp,
                s[j - 1].timestamp,
            ) <= 0,
    ensures
        discharge_rate(s) == 0,
{
    let lo = window_start(s.len() as int) + 1;
    lemma_no_elapsed_pair(s, lo, s.len() as int);
}

proof fn lemma_no_elapsed_pair(s: Seq<BatteryMeasurement>, lo: int, hi: int)
    requires
        lo >= 1,
        hi <= lo || forall|j: int|
            lo <= j < hi ==> elapsed_secs((#[trigger] s[j]).timestamp, s[j - 1].timestamp) <= 0,
    ensures
        rate_count(s, lo, hi) == 0,
    decreases hi - lo,
{
    if hi > lo {
        lemma_no_elapsed_pair(s, lo, hi - 1);
    }
}


/// A duration of `minutes` minutes: `"{h}h {m}m"` from an hour on, else `"{m}m"`.
pub open spec fn duration_text(minutes: nat) -> Seq<char> {
    if minutes >= 60 {
        decimal(minutes / 60) + seq!['h', ' '] + decimal(minutes % 60) + seq!['m']
    } else {
        decimal(minutes) + seq!['m']
    }
}

/// Minutes to full charge at the fixed charge rate of 1.5 points per minute.
pub open spec fn charge_minutes(percentage: int) -> int {
    (100 - percentage) * 2 / 3
}

/// Minutes to empty at `rate` hundredths of a percent per hour.
pub open spec fn discharge_minutes(percentage: int, rate: int) -> int {
    percentage * 6000 / rate
}

/// The text of the time remaining, given the current sample and the
/// discharge rate in hundredths of a percent per hour.
pub open spec fn eta_text(percentage: int, is_charging: bool, rate: int) -> Seq<char> {
    if is_charging {
        if percentage >= 100 {
            "Fully charged"@
        } else {
            duration_text(charge_minutes(percentage) as nat)
        }
    } else if rate <= 0 {
        "Calculating..."@
    } else if discharge_minutes(percentage, rate) < 1 {
        "< 1 min"@
    } else {
        duration_text(discharge_minutes(percentage, rate) as nat)
    }
}

/// Renders a duration of `minutes` minutes.
pub fn format_time(minutes: i32) -> (r: String)
    requires
        minutes >= 0,
    ensures
        r@ == duration_text(minutes as nat),
{
    let hours = (minutes / 60) as u64;
    let mins = (minutes % 60) as u64;
    let mut r = String::new();
    if hours > 0 {
        push_decimal(&mut r, hours);
        proof {
            reveal_strlit("h ");
        }
        r.append("h ");
        push_decimal(&mut r, mins);
    } else {
        push_decimal(&mut r, mins);
    }
    proof {
        reveal_strlit("m");
    }
    r.append("m");
    r
}

/// The time-remaining text for a sample with `percentage` and `is_charging`,
/// where the history's discharge rate is `rate` hundredths of a percent per
/// hour.
pub fn eta_for_rate(percentage: u8, is_charging: bool, rate: i32) -> (r: String)
    ensures
        r@ == eta_text(percentage as int, is_charging, rate as int),
{
    if is_charging {
        if percentage >= 100 {
            return String::from_str("Fully charged");
        }
        let minutes = ((100 - percentage) as i32 * 2) / 3;
        return format_time(minutes);
    }
    if rate <= 0 {
        return String::from_str("Calculating...");
    }
    let minutes = (percentage as u64 * 6000 / rate as u64) as i32;
    proof {
        lemma_div_is_ordered_by_denominator(percentage as int * 6000, 1, rate as int);
    }
    if minutes < 1 {
        return String::from_str("< 1 min");
    }
    format_time(minutes)
}

/// Number of samples at exactly 100 percent.
pub open spec fn full_charge_count(s: Seq<BatteryMeasurement>) -> nat
    decreases s.len(),
{
    if s.len() == 0 {
        0
    } else {
        full_charge_count(s.drop_last()) + if s.last().percentage == 100 {
            1nat
        } else {
            0
        }
    }
}

/// The annual degradation estimate in tenths of a percent: 25 (2.5 percent)
/// once there are at least 100 samples of which at least two are at full
/// charge, else 0.
pub open spec fn degradation_tenths(s: Seq<BatteryMeasurement>) -> int {
    if s.len() >= 100 && full_charge_count(s) >= 2 {
        25
    } else {
        0
    }
}

/// The annual degradation estimate of `measurements`, in tenths of a percent.
pub fn annual_degradation_tenths(measurements: &VecDeque<BatteryMeasurement>) -> (r: u32)
    ensures
        r as int == degradation_tenths(measurements@),
        r == 0 || r == 25,
{
    let ghost s = measurements@;
    if measurements.len() < 100 {
        return 0;
    }
    let mut full: usize = 0;
    let mut i: usize = 0;
    while i < measurements.len()
        invariant
            s == measurements@,
            i <= s.len(),
            full == full_charge_count(s.subrange(0, i as int)),
            full <= i,
        decreases s.len() - i,
    {
        if measurements[i].percentage == 100 {
            full = full + 1;
        }
        i = i + 1;
        assert(s.subrange(0, i as int).drop_last() =~= s.subrange(0, i as int - 1));
    }
    assert(s.subrange(0, i as int) =~= s);
    if full < 2 {
        0
    } else {
        25
    }
}

} // verus!
