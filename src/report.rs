//! The multi-line status report shown on demand.
use vstd::prelude::*;
use vstd::string::StringExecFns;
use crate::text::{decimal, push_decimal};

verus! {

/// `tenths` tenths written with one decimal: `"12.3"`.
pub open spec fn one_decimal(tenths: nat) -> Seq<char> {
    decimal(tenths / 10) + seq!['.'] + decimal(tenths % 10)
}

/// The report: current percentage, state, discharge rate in percent per
/// hour (`rate_text`, placed as given), number of samples, degradation
/// estimate with one decimal, and the time of the first sample (`since`).
pub open spec fn detail_text(
    percentage: nat,
    is_charging: bool,
    rate_text: Seq<char>,
    count: nat,
    degradation_tenths: nat,
    since: Seq<char>,
) -> Seq<char> {
    "Battery Status: "@ + decimal(percentage) + "%\nState: "@ + (if is_charging {
        "Charging"@
    } else {
        "Discharging"@
    }) + "\nDischarge Rate: ~"@ + rate_text + "% per hour\nMeasurements Recorded: "@
        + decimal(count) + "\nEstimated Annual Degradation: "@ + one_decimal(degradation_tenths)
        + "%\n\nMonitoring since: "@ + since
}

fn push_one_decimal(s: &mut String, tenths: u64)
    ensures
        final(s)@ == old(s)@ + one_decimal(tenths as nat),
{
    push_decimal(s, tenths / 10);
    proof {
        reveal_strlit(".");
    }
    s.append(".");
    push_decimal(s, tenths % 10);
    assert(final(s)@ =~= old(s)@ + one_decimal(tenths as nat));
}

/// Renders the report from its parts: `rate_text` the discharge rate in
/// percent per hour with one decimal, `degradation_tenths` in tenths of a
/// percent, and `since` the text of the first sample's time.
pub fn detail_report(
    percentage: u8,
    is_charging: bool,
    rate_text: &str,
    count: usize,
    degradation_tenths: u32,
    since: &str,
) -> (r: String)
    ensures
        r@ == detail_text(
            percentage as nat,
            is_charging,
            rate_text@,
            count as nat,
            degradation_tenths as nat,
            since@,
        ),
{
    let mut r = String::from_str("Battery Status: ");
    push_decimal(&mut r, percentage as u64);
    r.append("%\nState: ");
    if is_charging {
        r.append("Charging");
    } else {
        r.append("Discharging");
    }
    r.append("\nDischarge Rate: ~");
    r.append(rate_text);
    r.append("% per hour\nMeasurements Recorded: ");
    push_decimal(&mut r, count as u64);
    r.append("\nEstimated Annual Degradation: ");
    push_one_decimal(&mut r, degradation_tenths as u64);
    r.append("%\n\nMonitoring since: ");
    r.append(since);
    r
}

} // verus!
