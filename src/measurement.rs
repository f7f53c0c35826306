//! One sample of the host's power state.
use vstd::prelude::*;
use crate::timestamp::Timestamp;

verus! {

/// A timestamped power-state sample. `discharge_rate` is the rate estimated
/// when the sample was taken, in hundredths of a percent per hour.
#[derive(Clone, Copy, Debug, PartialEq, Eq, Structural)]
pub struct BatteryMeasurement {
    pub timestamp: Timestamp,
    pub percentage: u8,
    pub is_charging: bool,
    pub discharge_rate: i32,
}

} // verus!
