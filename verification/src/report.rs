//! The reporter: folds the metrics history and violation log into one
//! aggregate pass/fail report.

use vstd::prelude::*;
use crate::metrics::{MetricsHistory, SystemMetricsSample};
use crate::limits::{Severity, ViolationRecord};

verus! {

/// The overall outcome of a run.
#[derive(Clone, Copy, PartialEq, Eq, Structural, Debug)]
pub enum Verdict {
    Passed,
    Failed,
}

/// The sum of the CPU readings of a sample sequence, in centi-percent.
pub open spec fn sum_cpu(s: Seq<SystemMetricsSample>) -> int
    decreases s.len(),
{
    if s.len() == 0 {
        0
    } else {
        sum_cpu(s.drop_last()) + s.last().cpu_centi
    }
}

/// The largest CPU reading of a sample sequence, zero when empty.
pub open spec fn max_cpu(s: Seq<SystemMetricsSample>) -> int
    decreases s.len(),
{
    if s.len() == 0 {
        0
    } else if s.last().cpu_centi > max_cpu(s.drop_last()) {
        s.last().cpu_centi as int
    } else {
        max_cpu(s.drop_last())
    }
}

/// The sum of the memory-in-use readings of a sample sequence, in bytes.
pub open spec fn sum_mem(s: Seq<SystemMetricsSample>) -> int
    decreases s.len(),
{
    if s.len() == 0 {
        0
    } else {
        sum_mem(s.drop_last()) + s.last().memory_used
    }
}

/// The largest memory-in-use reading of a sample sequence, zero when
/// empty.
pub open spec fn max_mem(s: Seq<SystemMetricsSample>) -> int
    decreases s.len(),
{
    if s.len() == 0 {
        0
    } else if s.last().memory_used > max_mem(s.drop_last()) {
        s.last().memory_used as int
    } else {
        max_mem(s.drop_last())
    }
}

/// The sum of the temperature readings of a sample sequence, in
/// centi-degrees.
pub open spec fn sum_temp(s: Seq<SystemMetricsSample>) -> int
    decreases s.len(),
{
    if s.len() == 0 {
        0
    } else {
        sum_temp(s.drop_last()) + s.last().temperature_centi
    }
}

/// The largest temperature reading of a sample sequence, zero when empty.
pub open spec fn max_temp(s: Seq<SystemMetricsSample>) -> int
    decreases s.len(),
{
    if s.len() == 0 {
        0
    } else if s.last().temperature_centi > max_temp(s.drop_last()) {
        s.last().temperature_centi as int
    } else {
        max_temp(s.drop_last())
    }
}

/// The smallest battery reading of a sample sequence; a full battery
/// (100%) when empty.
pub open spec fn min_battery(s: Seq<SystemMetricsSample>) -> int
    decreases s.len(),
{
    if s.len() == 0 {
        10000
    } else if s.last().battery_centi < min_battery(s.drop_last()) {
        s.last().battery_centi as int
    } else {
        min_battery(s.drop_last())
    }
}

/// How many samples of a sequence report thermal throttling.
pub open spec fn count_throttling(s: Seq<SystemMetricsSample>) -> int
    decreases s.len(),
{
    if s.len() == 0 {
        0
    } else {
        count_throttling(s.drop_last()) + if s.last().thermal_throttling {
            1int
        } else {
            0int
        }
    }
}

/// How many records of a violation log carry the given severity.
pub open spec fn count_severity(s: Seq<ViolationRecord>, sev: Severity) -> int
    decreases s.len(),
{
    if s.len() == 0 {
        0
    } else {
        count_severity(s.drop_last(), sev) + if s.last().severity == sev {
            1int
        } else {
            0int
        }
    }
}

/// The sum of a sequence of allocation sizes, in bytes.
pub open spec fn sum_sizes(s: Seq<usize>) -> int
    decreases s.len(),
{
    if s.len() == 0 {
        0
    } else {
        sum_sizes(s.drop_last()) + s.last()
    }
}

/// The largest of a sequence of allocation sizes, zero when empty.
pub open spec fn max_size(s: Seq<usize>) -> int
    decreases s.len(),
{
    if s.len() == 0 {
        0
    } else if s.last() > max_size(s.drop_last()) {
        s.last() as int
    } else {
        max_size(s.drop_last())
    }
}

proof fn lemma_sum_sizes_bound(s: Seq<usize>)
    ensures
        0 <= sum_sizes(s) <= s.len() * 0xFFFF_FFFF_FFFF_FFFF,
    decreases s.len(),
{
    if s.len() > 0 {
        lemma_sum_sizes_bound(s.drop_last());
        assert((s.len() - 1) * 0xFFFF_FFFF_FFFF_FFFF + 0xFFFF_FFFF_FFFF_FFFF == s.len()
            * 0xFFFF_FFFF_FFFF_FFFF) by (nonlinear_arith);
    }
}

/// Folds a log of allocation sizes into its total and its largest entry.
pub fn analyze_allocation_patterns(sizes: &Vec<usize>) -> (r: (u128, usize))
    requires
        sizes@.len() <= 0xFFFF_FFFF,
    ensures
        r.0 == sum_sizes(sizes@),
        r.1 == max_size(sizes@),
{
    let mut total: u128 = 0;
    let mut largest: usize = 0;
    let mut i: usize = 0;
    while i < sizes.len()
        invariant
            i <= sizes@.len() <= 0xFFFF_FFFF,
            total == sum_sizes(sizes@.subrange(0, i as int)),
            largest == max_size(sizes@.subrange(0, i as int)),
        decreases sizes@.len() - i,
    {
        proof {
            assert(sizes@.subrange(0, i + 1).drop_last() =~= sizes@.subrange(0, i as int));
            assert(sizes@.subrange(0, i + 1).last() == sizes@[i as int]);
            lemma_sum_sizes_bound(sizes@.subrange(0, i as int));
            assert(i * 0xFFFF_FFFF_FFFF_FFFF <= 0xFFFF_FFFFu128 * 0xFFFF_FFFF_FFFF_FFFF)
                by (nonlinear_arith)
                requires
                    0 <= i <= 0xFFFF_FFFF,
            ;
        }
        total = total + sizes[i] as u128;
        if sizes[i] > largest {
            largest = sizes[i];
        }
        i = i + 1;
    }
    proof {
        assert(sizes@.subrange(0, sizes@.len() as int) =~= sizes@);
    }
    (total, largest)
}

/// The aggregate record of one finished run.  Built once by the reporter
/// and immutable afterwards.
#[derive(Debug)]
pub struct TestReport {
    pub samples: usize,
    pub avg_cpu_centi: u64,
    pub peak_cpu_centi: u64,
    pub avg_memory_bytes: u64,
    pub peak_memory_bytes: u64,
    pub avg_temperature_centi: u64,
    pub max_temperature_centi: u64,
    pub min_battery_centi: u64,
    pub throttling_events: usize,
    pub total_ops: u64,
    pub violations: Vec<ViolationRecord>,
    pub soft_violations: usize,
    pub hard_violations: usize,
    pub lost_workers: usize,
    pub join_timeouts: usize,
    pub verdict: Verdict,
}

proof fn lemma_sum_cpu_bound(s: Seq<SystemMetricsSample>)
    ensures
        0 <= sum_cpu(s) <= s.len() * 0xFFFF_FFFF,
    decreases s.len(),
{
    if s.len() > 0 {
        lemma_sum_cpu_bound(s.drop_last());
        assert((s.len() - 1) * 0xFFFF_FFFF + 0xFFFF_FFFF == s.len() * 0xFFFF_FFFF)
            by (nonlinear_arith);
    }
}

proof fn lemma_sum_mem_bound(s: Seq<SystemMetricsSample>)
    ensures
        0 <= sum_mem(s) <= s.len() * 0xFFFF_FFFF_FFFF_FFFF,
    decreases s.len(),
{
    if s.len() > 0 {
        lemma_sum_mem_bound(s.drop_last());
        assert((s.len() - 1) * 0xFFFF_FFFF_FFFF_FFFF + 0xFFFF_FFFF_FFFF_FFFF == s.len()
            * 0xFFFF_FFFF_FFFF_FFFF) by (nonlinear_arith);
    }
}

proof fn lemma_sum_temp_bound(s: Seq<SystemMetricsSample>)
    ensures
        0 <= sum_temp(s) <= s.len() * 0xFFFF_FFFF,
    decreases s.len(),
{
    if s.len() > 0 {
        lemma_sum_temp_bound(s.drop_last());
        assert((s.len() - 1) * 0xFFFF_FFFF + 0xFFFF_FFFF == s.len() * 0xFFFF_FFFF)
            by (nonlinear_arith);
    }
}

/// Builds the aggregate report from the collected history, the violation
/// log, the final operation count, and the join results.
///
/// The verdict is `Passed` exactly when some data was collected, no hard
/// violation was recorded, no worker was lost, and no join timed out; in
/// particular an empty history can never pass.
pub fn summarize(
    history: &MetricsHistory,
    violations: &Vec<ViolationRecord>,
    total_ops: u64,
    lost_workers: usize,
    join_timeouts: usize,
) -> (r: TestReport)
    requires
        history.wf(),
    ensures
        r.samples == history@.len(),
        r.total_ops == total_ops,
        r.violations@ =~= violations@,
        r.soft_violations == count_severity(violations@, Severity::Soft),
        r.hard_violations == count_severity(violations@, Severity::Hard),
        r.lost_workers == lost_workers,
        r.join_timeouts == join_timeouts,
        r.throttling_events == count_throttling(history@),
        r.peak_cpu_centi == max_cpu(history@),
        r.peak_memory_bytes == max_mem(history@),
        r.max_temperature_centi == max_temp(history@),
        r.min_battery_centi == min_battery(history@),
        history@.len() > 0 ==> r.avg_cpu_centi == sum_cpu(history@) / history@.len() as int,
        history@.len() > 0 ==> r.avg_memory_bytes == sum_mem(history@) / history@.len() as int,
        history@.len() > 0 ==> r.avg_temperature_centi == sum_temp(history@) / history@.len() as int,
        history@.len() == 0 ==> r.avg_cpu_centi == 0 && r.avg_memory_bytes == 0
            && r.avg_temperature_centi == 0,
        r.verdict == Verdict::Passed <==> (history@.len() > 0
            && count_severity(violations@, Severity::Hard) == 0 && lost_workers == 0
            && join_timeouts == 0),
{
    let n = history.len();
    let mut cpu_sum: u128 = 0;
    let mut mem_sum: u128 = 0;
    let mut temp_sum: u128 = 0;
    let mut cpu_peak: u64 = 0;
    let mut mem_peak: u64 = 0;
    let mut temp_peak: u64 = 0;
    let mut battery_min: u64 = 10000;
    let mut throttling: usize = 0;
    let mut i: usize = 0;
    while i < n
        invariant
            history.wf(),
            n == history@.len(),
            i <= n,
            cpu_sum == sum_cpu(history@.subrange(0, i as int)),
            mem_sum == sum_mem(history@.subrange(0, i as int)),
            temp_sum == sum_temp(history@.subrange(0, i as int)),
            cpu_peak == max_cpu(history@.subrange(0, i as int)),
            mem_peak == max_mem(history@.subrange(0, i as int)),
            temp_peak == max_temp(history@.subrange(0, i as int)),
            battery_min == min_battery(history@.subrange(0, i as int)),
            throttling == count_throttling(history@.subrange(0, i as int)),
            throttling <= i,
        decreases n - i,
    {
        let sample = history.get(i);
        proof {
            assert(history@.subrange(0, i + 1).drop_last() =~= history@.subrange(0, i as int));
            assert(history@.subrange(0, i + 1).last() == history@[i as int]);
            lemma_sum_cpu_bound(history@.subrange(0, i as int));
            lemma_sum_mem_bound(history@.subrange(0, i as int));
            lemma_sum_temp_bound(history@.subrange(0, i as int));
            assert(i * 0xFFFF_FFFF <= 0xFFFF_FFFFu64 * 0xFFFF_FFFF) by (nonlinear_arith)
                requires
                    0 <= i <= 0xFFFF_FFFF,
            ;
            assert(i * 0xFFFF_FFFF_FFFF_FFFF <= 0xFFFF_FFFFu128 * 0xFFFF_FFFF_FFFF_FFFF)
                by (nonlinear_arith)
                requires
                    0 <= i <= 0xFFFF_FFFF,
            ;
        }
        cpu_sum = cpu_sum + sample.cpu_centi as u128;
        mem_sum = mem_sum + sample.memory_used as u128;
        temp_sum = temp_sum + sample.temperature_centi as u128;
        if sample.cpu_centi as u64 > cpu_peak {
            cpu_peak = sample.cpu_centi as u64;
        }
        if sample.memory_used > mem_peak {
            mem_peak = sample.memory_used;
        }
        if sample.temperature_centi as u64 > temp_peak {
            temp_peak = sample.temperature_centi as u64;
        }
        if (sample.battery_centi as u64) < battery_min {
            battery_min = sample.battery_centi as u64;
        }
        if sample.thermal_throttling {
            throttling = throttling + 1;
        }
        i = i + 1;
    }
    proof {
        assert(history@.subrange(0, n as int) =~= history@);
    }

    let mut log: Vec<ViolationRecord> = Vec::new();
    let mut soft: usize = 0;
    let mut hard: usize = 0;
    let mut j: usize = 0;
    while j < violations.len()
        invariant
            j <= violations@.len(),
            log@ =~= violations@.subrange(0, j as int),
            soft == count_severity(violations@.subrange(0, j as int), Severity::Soft),
            hard == count_severity(violations@.subrange(0, j as int), Severity::Hard),
            soft <= j,
            hard <= j,
        decreases violations@.len() - j,
    {
        let rec = violations[j];
        proof {
            assert(violations@.subrange(0, j + 1).drop_last() =~= violations@.subrange(
                0,
                j as int,
            ));
            assert(violations@.subrange(0, j + 1).last() == violations@[j as int]);
        }
        match rec.severity {
            Severity::Soft => {
                soft = soft + 1;
            },
            Severity::Hard => {
                hard = hard + 1;
            },
        }
        log.push(rec);
        j = j + 1;
    }
    proof {
        assert(violations@.subrange(0, violations@.len() as int) =~= violations@);
    }

    let avg_cpu: u64 = if n > 0 {
        proof {
            lemma_sum_cpu_bound(history@);
            assert(sum_cpu(history@) / history@.len() as int <= 0xFFFF_FFFF) by {
                assert(history@.len() * 0xFFFF_FFFF <= 0xFFFF_FFFFu128 * 0xFFFF_FFFF)
                    by (nonlinear_arith)
                    requires
                        0 <= history@.len() <= 0xFFFF_FFFF,
                ;
                vstd::arithmetic::div_mod::lemma_div_is_ordered(
                    sum_cpu(history@),
                    history@.len() as int * 0xFFFF_FFFF,
                    history@.len() as int,
                );
                vstd::arithmetic::div_mod::lemma_div_multiples_vanish(
                    0xFFFF_FFFF,
                    history@.len() as int,
                );
            }
        }
        (cpu_sum / n as u128) as u64
    } else {
        0
    };
    let avg_mem: u64 = if n > 0 {
        proof {
            lemma_sum_mem_bound(history@);
            assert(sum_mem(history@) / history@.len() as int <= 0xFFFF_FFFF_FFFF_FFFF) by {
                assert(history@.len() * 0xFFFF_FFFF_FFFF_FFFF <= 0xFFFF_FFFFu128
                    * 0xFFFF_FFFF_FFFF_FFFF) by (nonlinear_arith)
                    requires
                        0 <= history@.len() <= 0xFFFF_FFFF,
                ;
                vstd::arithmetic::div_mod::lemma_div_is_ordered(
                    sum_mem(history@),
                    history@.len() as int * 0xFFFF_FFFF_FFFF_FFFF,
                    history@.len() as int,
                );
                vstd::arithmetic::div_mod::lemma_div_multiples_vanish(
                    0xFFFF_FFFF_FFFF_FFFF,
                    history@.len() as int,
                );
            }
        }
        (mem_sum / n as u128) as u64
    } else {
        0
    };
    let avg_temp: u64 = if n > 0 {
        proof {
            lemma_sum_temp_bound(history@);
            assert(sum_temp(history@) / history@.len() as int <= 0xFFFF_FFFF) by {
                assert(history@.len() * 0xFFFF_FFFF <= 0xFFFF_FFFFu128 * 0xFFFF_FFFF)
                    by (nonlinear_arith)
                    requires
                        0 <= history@.len() <= 0xFFFF_FFFF,
                ;
                vstd::arithmetic::div_mod::lemma_div_is_ordered(
                    sum_temp(history@),
                    history@.len() as int * 0xFFFF_FFFF,
                    history@.len() as int,
                );
                vstd::arithmetic::div_mod::lemma_div_multiples_vanish(
                    0xFFFF_FFFF,
                    history@.len() as int,
                );
            }
        }
        (temp_sum / n as u128) as u64
    } else {
        0
    };

    let verdict = if n > 0 && hard == 0 && lost_workers == 0 && join_timeouts == 0 {
        Verdict::Passed
    } else {
        Verdict::Failed
    };

    TestReport {
        samples: n,
        avg_cpu_centi: avg_cpu,
        peak_cpu_centi: cpu_peak,
        avg_memory_bytes: avg_mem,
        peak_memory_bytes: mem_peak,
        avg_temperature_centi: avg_temp,
        max_temperature_centi: temp_peak,
        min_battery_centi: battery_min,
        throttling_events: throttling,
        total_ops,
        violations: log,
        soft_violations: soft,
        hard_violations: hard,
        lost_workers,
        join_timeouts,
        verdict,
    }
}

} // verus!
