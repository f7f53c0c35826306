//! What the tray shows for a sample: the tooltip text and the choices that
//! the battery icon is drawn from.
use vstd::prelude::*;
use vstd::string::StringExecFns;
use crate::text::{decimal, push_decimal};

verus! {

/// Fill colours, as `0x00BBGGRR`.
pub const FILL_CHARGING: u32 = 0x0000C800;

pub const FILL_URGENT: u32 = 0x000000FF;

pub const FILL_WARNING: u32 = 0x000080FF;

pub const FILL_NORMAL: u32 = 0x00FFFFFF;

/// The colour of the charge level: green while charging, red under 5
/// percent, orange under 15, white otherwise.
pub open spec fn fill_color_of(percentage: int, is_charging: bool) -> u32 {
    if is_charging {
        FILL_CHARGING
    } else if percentage < 5 {
        FILL_URGENT
    } else if percentage < 15 {
        FILL_WARNING
    } else {
        FILL_NORMAL
    }
}

/// The colour of the charge level for a sample.
pub fn fill_color(percentage: u8, is_charging: bool) -> (r: u32)
    ensures
        r == fill_color_of(percentage as int, is_charging),
{
    if is_charging {
        FILL_CHARGING
    } else if percentage < 5 {
        FILL_URGENT
    } else if percentage < 15 {
        FILL_WARNING
    } else {
        FILL_NORMAL
    }
}

/// Height in pixels of the charge level inside a body `full_height` pixels
/// tall: in proportion to the percentage, rounded down, and at least one.
pub fn fill_rows(full_height: i32, percentage: u8) -> (r: i32)
    requires
        0 <= full_height <= 1_000_000,
    ensures
        r == if full_height * percentage / 100 >= 1 {
            full_height * percentage / 100
        } else {
            1
        },
{
    assert(0 <= full_height * percentage <= 255_000_000) by (nonlinear_arith)
        requires
            0 <= full_height <= 1_000_000,
            0 <= percentage <= 255,
    ;
    let rows = full_height * percentage as i32 / 100;
    if rows >= 1 {
        rows
    } else {
        1
    }
}

/// Whether the level is drawn at all: only above 0 percent.
pub fn shows_fill(percentage: u8) -> (r: bool)
    ensures
        r == (percentage > 0),
{
    percentage > 0
}

/// Whether the charging bolt is drawn: while charging and not yet full.
pub fn shows_charging_bolt(percentage: u8, is_charging: bool) -> (r: bool)
    ensures
        r == (is_charging && percentage < 100),
{
    is_charging && percentage < 100
}

/// Whether the single warning mark is drawn: discharging, above 0 and
/// under 15 percent.
pub fn shows_warning(percentage: u8, is_charging: bool) -> (r: bool)
    ensures
        r == (!is_charging && 0 < percentage < 15),
{
    !is_charging && percentage > 0 && percentage < 15
}

/// Whether the double urgent mark is drawn: discharging under 5 percent.
pub fn shows_urgent(percentage: u8, is_charging: bool) -> (r: bool)
    ensures
        r == (!is_charging && percentage < 5),
{
    !is_charging && percentage < 5
}

/// The tooltip: `"{percentage}% · {eta}"`.
pub open spec fn tooltip_of(percentage: nat, eta: Seq<char>) -> Seq<char> {
    decimal(percentage) + "% · "@ + eta
}

/// The tooltip for a sample and its time-remaining text.
pub fn tooltip_text(percentage: u8, eta: &str) -> (r: String)
    ensures
        r@ == tooltip_of(percentage as nat, eta@),
{
    let mut r = String::new();
    push_decimal(&mut r, percentage as u64);
    r.append("% · ");
    r.append(eta);
    r
}

} // verus!
