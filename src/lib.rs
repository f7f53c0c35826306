//! Battery telemetry engine: a time-bounded history of power-state samples,
//! a discharge-rate estimator, time-remaining text and a degradation heuristic.
pub mod text;
pub mod wide;
pub mod timestamp;
pub mod measurement;
pub mod history;
pub mod estimator;
pub mod settings;
pub mod report;
pub mod monitor;
pub mod presentation;
