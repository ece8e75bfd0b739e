//! The limit enforcer: evaluates one sample against the configured
//! thresholds and classifies the outcome.

use vstd::prelude::*;
use crate::config::StressTestConfig;
use crate::metrics::SystemMetricsSample;

verus! {

/// How severe a threshold breach is.
#[derive(Clone, Copy, PartialEq, Eq, Structural, Debug)]
pub enum Severity {
    Soft,
    Hard,
}

/// Which metric a violation record is about.
#[derive(Clone, Copy, PartialEq, Eq, Structural, Debug)]
pub enum MetricKind {
    Cpu,
    Memory,
    Temperature,
}

/// One recorded threshold breach.  `observed` and `threshold` are in the
/// metric's own unit: centi-percent for CPU, bytes for memory,
/// centi-degrees for temperature.
#[derive(Clone, Copy, PartialEq, Eq, Structural, Debug)]
pub struct ViolationRecord {
    pub metric: MetricKind,
    pub observed: u64,
    pub threshold: u64,
    pub timestamp: u64,
    pub severity: Severity,
}

/// The enforcer's verdict on one sample.  A hard violation aborts the run;
/// a soft violation is recorded and the run continues.
#[derive(Clone, Copy, PartialEq, Eq, Structural, Debug)]
pub enum Outcome {
    Nominal,
    SoftViolation(ViolationRecord),
    HardViolation(ViolationRecord),
}

/// CPU load beyond the nominal threshold times the platform tolerance.
pub open spec fn cpu_hard(s: SystemMetricsSample, c: StressTestConfig) -> bool {
    s.cpu_centi * 100 > c.max_cpu_centi * c.tolerance_pct
}

/// CPU load above the nominal threshold.
pub open spec fn cpu_over(s: SystemMetricsSample, c: StressTestConfig) -> bool {
    s.cpu_centi > c.max_cpu_centi
}

/// Memory in use beyond 1.5 times the configured limit.
pub open spec fn mem_hard(s: SystemMetricsSample, c: StressTestConfig) -> bool {
    2 * s.memory_used > 3 * c.max_memory_mb * 0x100000
}

/// Memory in use above the configured limit.
pub open spec fn mem_over(s: SystemMetricsSample, c: StressTestConfig) -> bool {
    s.memory_used > c.max_memory_mb * 0x100000
}

/// Battery temperature beyond 1.2 times the configured limit.
pub open spec fn temp_hard(s: SystemMetricsSample, c: StressTestConfig) -> bool {
    10 * s.temperature_centi > 12 * c.max_temperature_centi
}

/// Battery temperature above the configured limit.
pub open spec fn temp_over(s: SystemMetricsSample, c: StressTestConfig) -> bool {
    s.temperature_centi > c.max_temperature_centi
}

/// The CPU hard threshold in centi-percent, rounded down.
pub open spec fn cpu_hard_threshold(c: StressTestConfig) -> int {
    c.max_cpu_centi * c.tolerance_pct / 100
}

/// The memory hard threshold in bytes, rounded down.
pub open spec fn mem_hard_threshold(c: StressTestConfig) -> int {
    3 * c.max_memory_mb * 0x100000 / 2
}

/// The temperature hard threshold in centi-degrees, rounded down.
pub open spec fn temp_hard_threshold(c: StressTestConfig) -> int {
    12 * c.max_temperature_centi / 10
}

/// The record `check` attaches for a given metric and severity.
pub open spec fn spec_record(
    metric: MetricKind,
    observed: int,
    threshold: int,
    s: SystemMetricsSample,
    severity: Severity,
) -> ViolationRecord {
    ViolationRecord {
        metric: metric,
        observed: observed as u64,
        threshold: threshold as u64,
        timestamp: s.timestamp,
        severity: severity,
    }
}

/// What `check` returns, in full: hard violations take precedence over
/// soft ones, and within a severity the metrics are examined in the order
/// CPU, memory, temperature.
pub open spec fn spec_check(s: SystemMetricsSample, c: StressTestConfig) -> Outcome {
    if cpu_hard(s, c) {
        Outcome::HardViolation(
            spec_record(MetricKind::Cpu, s.cpu_centi as int, cpu_hard_threshold(c), s, Severity::Hard),
        )
    } else if mem_hard(s, c) {
        Outcome::HardViolation(
            spec_record(MetricKind::Memory, s.memory_used as int, mem_hard_threshold(c), s, Severity::Hard),
        )
    } else if temp_hard(s, c) {
        Outcome::HardViolation(
            spec_record(
                MetricKind::Temperature,
                s.temperature_centi as int,
                temp_hard_threshold(c),
                s,
                Severity::Hard,
            ),
        )
    } else if cpu_over(s, c) {
        Outcome::SoftViolation(
            spec_record(MetricKind::Cpu, s.cpu_centi as int, c.max_cpu_centi as int, s, Severity::Soft),
        )
    } else if mem_over(s, c) {
        Outcome::SoftViolation(
            spec_record(
                MetricKind::Memory,
                s.memory_used as int,
                c.max_memory_mb * 0x100000,
                s,
                Severity::Soft,
            ),
        )
    } else if temp_over(s, c) {
        Outcome::SoftViolation(
            spec_record(
                MetricKind::Temperature,
                s.temperature_centi as int,
                c.max_temperature_centi as int,
                s,
                Severity::Soft,
            ),
        )
    } else {
        Outcome::Nominal
    }
}

/// The policy is coherent: a metric past its hard multiplier is in
/// particular past its nominal threshold.
pub proof fn lemma_hard_implies_over(s: SystemMetricsSample, c: StressTestConfig)
    requires
        c.limits_in_range(),
    ensures
        cpu_hard(s, c) ==> cpu_over(s, c),
        mem_hard(s, c) ==> mem_over(s, c),
        temp_hard(s, c) ==> temp_over(s, c),
{
    assert(c.max_cpu_centi * 100 <= c.max_cpu_centi * c.tolerance_pct) by (nonlinear_arith)
        requires
            100 <= c.tolerance_pct,
    ;
}

/// Evaluates one sample against the configured thresholds.
///
/// A metric beyond its hard multiplier (CPU: nominal times the tolerance
/// factor; memory: 1.5x; temperature: 1.2x) yields a hard violation, which
/// aborts the run.  A metric above its nominal threshold but within the
/// hard multiplier yields a soft violation, recorded without aborting.
pub fn check(s: &SystemMetricsSample, c: &StressTestConfig) -> (r: Outcome)
    requires
        c.limits_in_range(),
    ensures
        r == spec_check(*s, *c),
        r is Nominal <==> (!cpu_over(*s, *c) && !mem_over(*s, *c) && !temp_over(*s, *c)),
        r is HardViolation <==> (cpu_hard(*s, *c) || mem_hard(*s, *c) || temp_hard(*s, *c)),
{
    proof {
        lemma_hard_implies_over(*s, *c);
        assert((c.max_cpu_centi as u64) * (c.tolerance_pct as u64) <= 10_000_000_000u64)
            by (nonlinear_arith)
            requires
                c.max_cpu_centi <= 1_000_000 && c.tolerance_pct <= 10_000,
        ;
    }
    let cpu_load = s.cpu_centi as u64;
    let cpu_hard_limit = (c.max_cpu_centi as u64) * (c.tolerance_pct as u64) / 100;
    let mem_hard_limit = 3 * c.max_memory_mb * 0x100000 / 2;
    let temp_hard_limit = 12 * (c.max_temperature_centi as u64) / 10;
    if cpu_load * 100 > (c.max_cpu_centi as u64) * (c.tolerance_pct as u64) {
        Outcome::HardViolation(ViolationRecord {
            metric: MetricKind::Cpu,
            observed: cpu_load,
            threshold: cpu_hard_limit,
            timestamp: s.timestamp,
            severity: Severity::Hard,
        })
    } else if s.memory_used > u64::MAX / 2 || 2 * s.memory_used > 3 * c.max_memory_mb * 0x100000 {
        Outcome::HardViolation(ViolationRecord {
            metric: MetricKind::Memory,
            observed: s.memory_used,
            threshold: mem_hard_limit,
            timestamp: s.timestamp,
            severity: Severity::Hard,
        })
    } else if 10 * (s.temperature_centi as u64) > 12 * (c.max_temperature_centi as u64) {
        Outcome::HardViolation(ViolationRecord {
            metric: MetricKind::Temperature,
            observed: s.temperature_centi as u64,
            threshold: temp_hard_limit,
            timestamp: s.timestamp,
            severity: Severity::Hard,
        })
    } else if s.cpu_centi > c.max_cpu_centi {
        Outcome::SoftViolation(ViolationRecord {
            metric: MetricKind::Cpu,
            observed: cpu_load,
            threshold: c.max_cpu_centi as u64,
            timestamp: s.timestamp,
            severity: Severity::Soft,
        })
    } else if s.memory_used > c.max_memory_mb * 0x100000 {
        Outcome::SoftViolation(ViolationRecord {
            metric: MetricKind::Memory,
            observed: s.memory_used,
            threshold: c.max_memory_mb * 0x100000,
            timestamp: s.timestamp,
            severity: Severity::Soft,
        })
    } else if s.temperature_centi > c.max_temperature_centi {
        Outcome::SoftViolation(ViolationRecord {
            metric: MetricKind::Temperature,
            observed: s.temperature_centi as u64,
            threshold: c.max_temperature_centi as u64,
            timestamp: s.timestamp,
            severity: Severity::Soft,
        })
    } else {
        Outcome::Nominal
    }
}

/// A provider that reports CPU load at twice the configured maximum is
/// caught at once: as long as the tolerance factor is below 2x, the very
/// first such sample yields a hard violation.
pub proof fn lemma_double_cpu_is_hard(s: SystemMetricsSample, c: StressTestConfig)
    requires
        c.limits_in_range(),
        c.tolerance_pct < 200,
        c.max_cpu_centi > 0,
        s.cpu_centi == 2 * c.max_cpu_centi,
    ensures
        spec_check(s, c) is HardViolation,
{
    assert(2 * c.max_cpu_centi * 100 > c.max_cpu_centi * c.tolerance_pct) by (nonlinear_arith)
        requires
            c.tolerance_pct < 200 && c.max_cpu_centi > 0,
    ;
}

/// Whether a measured duration stays within a tolerance of a baseline:
/// within when `current <= baseline * (100 + tolerance_pct) / 100`.
pub fn check_mobile_performance(current_ns: u64, baseline_ns: u64, tolerance_pct: u64) -> (r: bool)
    requires
        tolerance_pct <= 10_000,
    ensures
        r == (current_ns * 100 <= baseline_ns * (100 + tolerance_pct)),
{
    proof {
        assert((baseline_ns as u128) * (100 + tolerance_pct as u128) <= u128::MAX)
            by (nonlinear_arith)
            requires
                baseline_ns <= u64::MAX && tolerance_pct <= 10_000,
        ;
    }
    (current_ns as u128) * 100 <= (baseline_ns as u128) * (100 + tolerance_pct as u128)
}

} // verus!
