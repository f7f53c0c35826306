//! Points in time held as plain integers, and the calendar rendering taken
//! from chrono. The clock is read by the caller.
use vstd::prelude::*;

verus! {

/// A point in time: whole seconds since the Unix epoch, the sub-second
/// part in nanoseconds, and the offset of the local zone from UTC in seconds
/// at that point.
#[derive(Clone, Copy, Debug, PartialEq, Eq, Structural)]
pub struct Timestamp {
    pub secs: i64,
    pub nanos: u32,
    pub offset: i32,
}

/// Nanoseconds in a second.
pub const NANOS_PER_SEC: i128 = 1_000_000_000;

/// Seconds in an hour.
pub const SECS_PER_HOUR: i128 = 3600;

impl Timestamp {
    /// The instant in nanoseconds since the epoch; the offset does not enter it.
    pub open spec fn instant(self) -> int {
        self.secs * 1_000_000_000 + self.nanos
    }

    /// The instant in nanoseconds since the epoch.
    pub fn instant_nanos(&self) -> (r: i128)
        ensures
            r == self.instant(),
    {
        self.secs as i128 * NANOS_PER_SEC + self.nanos as i128
    }
}

/// Integer division rounding toward zero, as Rust's `/` does on signed integers.
pub open spec fn div_trunc(a: int, b: int) -> int
    recommends
        b > 0,
{
    if a >= 0 {
        a / b
    } else {
        -((-a) / b)
    }
}

/// Whole seconds from `earlier` to `later`, rounded toward zero.
pub open spec fn elapsed_secs(later: Timestamp, earlier: Timestamp) -> int {
    div_trunc(later.instant() - earlier.instant(), 1_000_000_000)
}

/// Whole seconds from `earlier` to `later` when that is at least one second.
pub fn positive_elapsed_secs(later: &Timestamp, earlier: &Timestamp) -> (r: Option<u128>)
    ensures
        r is Some <==> elapsed_secs(*later, *earlier) > 0,
        r matches Some(e) ==> e as int == elapsed_secs(*later, *earlier),
        r matches Some(e) ==> e < 0x1_0000_0000_0000_0000_0000,
{
    let diff = later.instant_nanos() - earlier.instant_nanos();
    if diff >= NANOS_PER_SEC {
        Some(diff as u128 / NANOS_PER_SEC as u128)
    } else {
        None
    }
}

/// The local date and time, to the minute, in the form `YYYY-MM-DD HH:MM`, of
/// the whole second `secs` at UTC offset `offset`; `None` outside chrono's range.
pub uninterp spec fn minute_text(secs: int, offset: int) -> Option<Seq<char>>;

/// Relies on chrono's `DateTime::from_timestamp`, `FixedOffset::east_opt` and
/// `format("%Y-%m-%d %H:%M")`: the calendar rendering of a point in time.
#[verifier::external_body]
pub(crate) fn format_minute(secs: i64, offset: i32) -> (r: Option<String>)
    ensures
        r is Some <==> minute_text(secs as int, offset as int) is Some,
        r matches Some(s) ==> minute_text(secs as int, offset as int) == Some(s@),
{
    let zone = chrono::FixedOffset::east_opt(offset)?;
    let t = chrono::DateTime::from_timestamp(secs, 0)?;
    Some(t.with_timezone(&zone).format("%Y-%m-%d %H:%M").to_string())
}

} // verus!
