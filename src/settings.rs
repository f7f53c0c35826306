//! The configuration record and how a stored one is completed with defaults.
use vstd::prelude::*;

verus! {

pub const DEFAULT_UPDATE_INTERVAL_MS: u32 = 30000;

pub const DEFAULT_HISTORY_RETENTION_HOURS: u32 = 168;

pub const DEFAULT_SHOW_PERCENTAGE_ON_ICON: bool = true;

/// Poll cadence, retention horizon of the history, and a display option.
#[derive(Clone, Copy, Debug, PartialEq, Eq, Structural)]
pub struct AppSettings {
    pub update_interval_ms: u32,
    pub history_retention_hours: u32,
    pub show_percentage_on_icon: bool,
}

/// The value that a stored field gives: the field where present, else the
/// default.
pub open spec fn or_default<T>(stored: Option<T>, default: T) -> T {
    match stored {
        Some(v) => v,
        None => default,
    }
}

impl AppSettings {
    /// The settings that hold the defaults in every field.
    pub open spec fn defaults() -> AppSettings {
        AppSettings {
            update_interval_ms: DEFAULT_UPDATE_INTERVAL_MS,
            history_retention_hours: DEFAULT_HISTORY_RETENTION_HOURS,
            show_percentage_on_icon: DEFAULT_SHOW_PERCENTAGE_ON_ICON,
        }
    }

    /// Settings from the fields that a stored record holds: each field
    /// present overrides its default, each missing one takes the default.
    pub fn from_fields(
        update_interval_ms: Option<u32>,
        history_retention_hours: Option<u32>,
        show_percentage_on_icon: Option<bool>,
    ) -> (r: AppSettings)
        ensures
            r.update_interval_ms == or_default(update_interval_ms, DEFAULT_UPDATE_INTERVAL_MS),
            r.history_retention_hours == or_default(
                history_retention_hours,
                DEFAULT_HISTORY_RETENTION_HOURS,
            ),
            r.show_percentage_on_icon == or_default(
                show_percentage_on_icon,
                DEFAULT_SHOW_PERCENTAGE_ON_ICON,
            ),
    {
        AppSettings {
            update_interval_ms: match update_interval_ms {
                Some(v) => v,
                None => DEFAULT_UPDATE_INTERVAL_MS,
            },
            history_retention_hours: match history_retention_hours {
                Some(v) => v,
                None => DEFAULT_HISTORY_RETENTION_HOURS,
            },
            show_percentage_on_icon: match show_percentage_on_icon {
                Some(v) => v,
                None => DEFAULT_SHOW_PERCENTAGE_ON_ICON,
            },
        }
    }
}

impl Default for AppSettings {
    fn default() -> (r: AppSettings)
        ensures
            r == AppSettings::defaults(),
    {
        AppSettings {
            update_interval_ms: DEFAULT_UPDATE_INTERVAL_MS,
            history_retention_hours: DEFAULT_HISTORY_RETENTION_HOURS,
            show_percentage_on_icon: DEFAULT_SHOW_PERCENTAGE_ON_ICON,
        }
    }
}

} // verus!
