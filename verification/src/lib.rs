//! A stress-test orchestration and system-health-limit engine.
//!
//! The library runs synthetic workload generators for a bounded number of
//! virtual ticks, samples system health metrics through a pluggable
//! `MetricsProvider`, compares each sample against configured safety
//! thresholds, and produces an aggregate pass/fail report.  All quantities
//! are plain integers: percentages are carried in hundredths of a percent
//! ("centi-percent") and temperatures in hundredths of a degree Celsius,
//! so every rule is exact integer arithmetic.

pub mod config;
pub mod limits;
pub mod metrics;
pub mod monitor;
pub mod orchestrator;
pub mod platform;
pub mod report;
mod rng;
pub mod workload;
