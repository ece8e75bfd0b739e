//! The orchestrator: owns the pool of workload units and the run's
//! lifecycle from start through signal-stop, join, and report.

use vstd::prelude::*;
use crate::config::{ConfigError, StressTestConfig};
use crate::limits::{spec_check, Outcome, Severity, ViolationRecord};
use crate::monitor::{monitor_step, violations_recorded, TickResult};
use crate::metrics::{MetricsHistory, MetricsProvider, SystemMetricsSample};
use crate::report::{summarize, count_severity, count_throttling, max_cpu, max_mem, max_temp,
    min_battery, sum_cpu, sum_mem, sum_temp, TestReport, Verdict};
use crate::workload::{run_generator, ScratchDir, SharedRunState, WorkloadDescriptor,
    WorkloadKind, MAX_SCRATCH_FILES};

verus! {

/// The orchestrator-level lifecycle of one run.
#[derive(Clone, Copy, PartialEq, Eq, Structural, Debug)]
pub enum RunPhase {
    Idle,
    Running,
    Draining,
    Aborting,
    Joined,
    Reported,
}

/// The events that move a run between phases.
#[derive(Clone, Copy, PartialEq, Eq, Structural, Debug)]
pub enum RunEvent {
    Start,
    DurationElapsed,
    HardLimit,
    WorkersJoined,
    ReportBuilt,
}

/// The lifecycle state machine: a run starts, then either drains on
/// timeout or aborts on a hard violation, and both paths join the
/// workers and reach the report.
pub open spec fn spec_next_phase(phase: RunPhase, event: RunEvent) -> Option<RunPhase> {
    match (phase, event) {
        (RunPhase::Idle, RunEvent::Start) => Some(RunPhase::Running),
        (RunPhase::Running, RunEvent::DurationElapsed) => Some(RunPhase::Draining),
        (RunPhase::Running, RunEvent::HardLimit) => Some(RunPhase::Aborting),
        (RunPhase::Draining, RunEvent::WorkersJoined) => Some(RunPhase::Joined),
        (RunPhase::Aborting, RunEvent::WorkersJoined) => Some(RunPhase::Joined),
        (RunPhase::Joined, RunEvent::ReportBuilt) => Some(RunPhase::Reported),
        _ => None,
    }
}

/// The executable form of the lifecycle state machine; `None` marks a
/// transition the orchestrator never takes.
pub fn next_phase(phase: RunPhase, event: RunEvent) -> (r: Option<RunPhase>)
    ensures
        r == spec_next_phase(phase, event),
{
    match (phase, event) {
        (RunPhase::Idle, RunEvent::Start) => Some(RunPhase::Running),
        (RunPhase::Running, RunEvent::DurationElapsed) => Some(RunPhase::Draining),
        (RunPhase::Running, RunEvent::HardLimit) => Some(RunPhase::Aborting),
        (RunPhase::Draining, RunEvent::WorkersJoined) => Some(RunPhase::Joined),
        (RunPhase::Aborting, RunEvent::WorkersJoined) => Some(RunPhase::Joined),
        (RunPhase::Joined, RunEvent::ReportBuilt) => Some(RunPhase::Reported),
        _ => None,
    }
}

/// The combined weight of a descriptor list.
pub open spec fn spec_weight_sum(ds: Seq<WorkloadDescriptor>) -> int
    decreases ds.len(),
{
    if ds.len() == 0 {
        0
    } else {
        spec_weight_sum(ds.drop_last()) + ds.last().weight
    }
}

/// The thread count one descriptor receives: its weight's share of the
/// budget, and never less than one.
pub open spec fn spec_alloc(max_threads: int, total_weight: int, weight: int) -> int {
    let share = max_threads * weight / total_weight;
    if share < 1 {
        1
    } else {
        share
    }
}

/// The total number of units the orchestrator spawns for a descriptor
/// list under a given thread budget.
pub open spec fn spec_total_alloc(max_threads: int, ds: Seq<WorkloadDescriptor>, total_weight: int) -> int
    decreases ds.len(),
{
    if ds.len() == 0 {
        0
    } else {
        spec_total_alloc(max_threads, ds.drop_last(), total_weight) + spec_alloc(
            max_threads,
            total_weight,
            ds.last().weight as int,
        )
    }
}

/// A descriptor list the orchestrator accepts: non-empty, of sane
/// length, every entry with a weight between 1 and 1000.
pub open spec fn spec_descriptors_ok(ds: Seq<WorkloadDescriptor>) -> bool {
    &&& 1 <= ds.len() <= 1024
    &&& forall|i: int| 0 <= i < ds.len() ==> (#[trigger] ds[i]).wf()
}

proof fn lemma_weight_sum_bounds(ds: Seq<WorkloadDescriptor>)
    requires
        forall|i: int| 0 <= i < ds.len() ==> (#[trigger] ds[i]).wf(),
    ensures
        ds.len() <= spec_weight_sum(ds) <= ds.len() * 1000,
    decreases ds.len(),
{
    if ds.len() > 0 {
        lemma_weight_sum_bounds(ds.drop_last());
        assert((ds.len() - 1) * 1000 + 1000 == ds.len() * 1000) by (nonlinear_arith);
    }
}

proof fn lemma_weight_le_sum(ds: Seq<WorkloadDescriptor>, i: int)
    requires
        forall|k: int| 0 <= k < ds.len() ==> (#[trigger] ds[k]).wf(),
        0 <= i < ds.len(),
    ensures
        ds[i].weight <= spec_weight_sum(ds),
    decreases ds.len(),
{
    assert forall|k: int| 0 <= k < ds.drop_last().len() implies (#[trigger] ds.drop_last()[k]).wf() by {
        assert(ds[k].wf());
    }
    if i == ds.len() - 1 {
        lemma_weight_sum_bounds(ds.drop_last());
    } else {
        lemma_weight_le_sum(ds.drop_last(), i);
        assert(ds.drop_last()[i] == ds[i]);
        assert(ds[ds.len() - 1].wf());
    }
}

/// Distributes the configured thread budget across the descriptors,
/// proportionally to their weights and with at least one thread each.
pub fn allocate_threads(max_threads: usize, descriptors: &Vec<WorkloadDescriptor>) -> (r: Vec<
    usize,
>)
    requires
        1 <= max_threads,
        spec_descriptors_ok(descriptors@),
    ensures
        r@.len() == descriptors@.len(),
        forall|i: int|
            0 <= i < r@.len() ==> r@[i] == spec_alloc(
                max_threads as int,
                spec_weight_sum(descriptors@),
                descriptors@[i].weight as int,
            ),
        forall|i: int| 0 <= i < r@.len() ==> 1 <= #[trigger] r@[i] <= max_threads,
{
    let n = descriptors.len();
    let mut total: u64 = 0;
    let mut i: usize = 0;
    while i < n
        invariant
            i <= n,
            n == descriptors@.len(),
            spec_descriptors_ok(descriptors@),
            total == spec_weight_sum(descriptors@.subrange(0, i as int)),
            total <= i * 1000,
        decreases n - i,
    {
        proof {
            assert(descriptors@.subrange(0, i + 1).drop_last() =~= descriptors@.subrange(
                0,
                i as int,
            ));
            assert(descriptors@.subrange(0, i + 1).last() == descriptors@[i as int]);
            assert(i * 1000 + 1000 == (i + 1) * 1000) by (nonlinear_arith);
        }
        total = total + descriptors[i].weight;
        i = i + 1;
    }
    proof {
        assert(descriptors@.subrange(0, n as int) =~= descriptors@);
        lemma_weight_sum_bounds(descriptors@);
    }

    let mut r: Vec<usize> = Vec::new();
    let mut j: usize = 0;
    while j < n
        invariant
            j <= n,
            n == descriptors@.len(),
            spec_descriptors_ok(descriptors@),
            1 <= max_threads,
            total == spec_weight_sum(descriptors@),
            1 <= total,
            r@.len() == j,
            forall|k: int|
                0 <= k < j ==> r@[k] == spec_alloc(
                    max_threads as int,
                    spec_weight_sum(descriptors@),
                    descriptors@[k].weight as int,
                ),
            forall|k: int| 0 <= k < j ==> 1 <= #[trigger] r@[k] <= max_threads,
        decreases n - j,
    {
        let w = descriptors[j].weight;
        proof {
            lemma_weight_le_sum(descriptors@, j as int);
            assert((max_threads as int) * (w as int) <= (max_threads as int) * (total as int))
                by (nonlinear_arith)
                requires
                    w <= total && 0 <= max_threads,
            ;
            vstd::arithmetic::div_mod::lemma_div_is_ordered(
                (max_threads as int) * (w as int),
                (max_threads as int) * (total as int),
                total as int,
            );
            vstd::arithmetic::div_mod::lemma_div_multiples_vanish(
                max_threads as int,
                total as int,
            );
            assert((total as int) * (max_threads as int) == (max_threads as int) * (
            total as int)) by (nonlinear_arith);
            vstd::arithmetic::div_mod::lemma_div_pos_is_pos(
                (max_threads as int) * (w as int),
                total as int,
            );
            assert((max_threads as int) * (w as int) <= 0xFFFF_FFFF_FFFF_FFFF * 1000)
                by (nonlinear_arith)
                requires
                    max_threads <= 0xFFFF_FFFF_FFFF_FFFF && w <= 1000 && 0 <= max_threads
                        && 0 <= w,
            ;
        }
        let share128: u128 = (max_threads as u128) * (w as u128) / (total as u128);
        let share: usize = if share128 < 1 {
            1
        } else {
            share128 as usize
        };
        r.push(share);
        j = j + 1;
    }
    r
}

/// One spawned unit of parallel work: its kind and the private counter
/// the lock-contention variant hammers.
#[derive(Clone, Copy, PartialEq, Eq, Structural, Debug)]
pub struct WorkloadUnit {
    pub kind: WorkloadKind,
    pub lock_counter: u64,
}

/// The state of one run between `start` and the report: the unit pool,
/// the shared stop flag and operation counter, the scratch ledger, the
/// monitor's history and violation log, and the lifecycle phase.
pub struct RunHandle {
    pub config: StressTestConfig,
    pub units: Vec<WorkloadUnit>,
    pub shared: SharedRunState,
    pub scratch: ScratchDir,
    pub history: MetricsHistory,
    pub violations: Vec<ViolationRecord>,
    pub phase: RunPhase,
    pub ticks_done: u64,
    pub lost_workers: usize,
    pub join_timeouts: usize,
}

impl RunHandle {
    /// The run invariant: the configuration stays valid, the history is
    /// well formed and strictly older than the tick about to happen, every
    /// violation on record points at a sample that exists in the history,
    /// and the stop flag agrees with the phase (down while running, up
    /// once aborting or joined).
    pub open spec fn wf(self) -> bool {
        &&& self.config.valid()
        &&& self.history.wf()
        &&& 1 <= self.units@.len()
        &&& self.scratch@.len() <= MAX_SCRATCH_FILES
        &&& forall|i: int|
            0 <= i < self.history@.len() ==> (#[trigger] self.history@[i]).timestamp
                < self.ticks_done
        &&& violations_recorded(self.violations@, self.history@)
        &&& (self.phase == RunPhase::Running ==> !self.shared.stop.is_up())
        &&& ((self.phase == RunPhase::Aborting || self.phase == RunPhase::Joined
            || self.phase == RunPhase::Reported) ==> self.shared.stop.is_up())
    }
}

/// The error `start` reports when it refuses a run: configuration
/// problems first, then an empty descriptor list, then a descriptor
/// list that is too long or carries a weight out of range.
pub open spec fn spec_start_error(c: StressTestConfig, ds: Seq<WorkloadDescriptor>) -> ConfigError {
    if !c.valid() {
        c.spec_validate_error()
    } else if ds.len() == 0 {
        ConfigError::NoWorkloads
    } else {
        ConfigError::LimitOutOfRange
    }
}

/// Validates the configuration and the descriptor registry, distributes
/// the thread budget, and hands back a running handle with the stop flag
/// down, the counters at zero, and nothing sampled yet.
pub fn start(config: &StressTestConfig, descriptors: &Vec<WorkloadDescriptor>) -> (r: Result<
    RunHandle,
    ConfigError,
>)
    ensures
        r is Ok <==> (config.valid() && spec_descriptors_ok(descriptors@)),
        r is Err ==> r == Err::<RunHandle, ConfigError>(
            spec_start_error(*config, descriptors@),
        ),
        r is Ok ==> ({
            let h = r->Ok_0;
            &&& h.wf()
            &&& h.config == *config
            &&& h.phase == RunPhase::Running
            &&& !h.shared.stop.is_up()
            &&& h.shared.ops.total() == 0
            &&& h.history@.len() == 0
            &&& h.violations@.len() == 0
            &&& h.scratch@.len() == 0
            &&& h.ticks_done == 0
            &&& h.lost_workers == 0
            &&& h.join_timeouts == 0
            &&& h.units@.len() == spec_total_alloc(
                config.max_threads as int,
                descriptors@,
                spec_weight_sum(descriptors@),
            )
            &&& h.units@.len() >= descriptors@.len()
        }),
{
    if let Err(e) = config.validate() {
        return Err(e);
    }
    if descriptors.len() == 0 {
        return Err(ConfigError::NoWorkloads);
    }
    if descriptors.len() > 1024 {
        return Err(ConfigError::LimitOutOfRange);
    }
    let mut i: usize = 0;
    let n = descriptors.len();
    while i < n
        invariant
            i <= n,
            n == descriptors@.len(),
            1 <= n <= 1024,
            config.valid(),
            forall|k: int| 0 <= k < i ==> (#[trigger] descriptors@[k]).wf(),
        decreases n - i,
    {
        let w = descriptors[i].weight;
        if w < 1 || w > 1000 {
            return Err(ConfigError::LimitOutOfRange);
        }
        i = i + 1;
    }

    let allocation = allocate_threads(config.max_threads, descriptors);
    let mut units: Vec<WorkloadUnit> = Vec::new();
    let mut d: usize = 0;
    while d < n
        invariant
            d <= n,
            n == descriptors@.len(),
            spec_descriptors_ok(descriptors@),
            allocation@.len() == n,
            forall|k: int|
                0 <= k < n ==> allocation@[k] == spec_alloc(
                    config.max_threads as int,
                    spec_weight_sum(descriptors@),
                    descriptors@[k].weight as int,
                ),
            forall|k: int| 0 <= k < n ==> 1 <= #[trigger] allocation@[k],
            units@.len() == spec_total_alloc(
                config.max_threads as int,
                descriptors@.subrange(0, d as int),
                spec_weight_sum(descriptors@),
            ),
            units@.len() >= d,
        decreases n - d,
    {
        proof {
            assert(descriptors@.subrange(0, d + 1).drop_last() =~= descriptors@.subrange(
                0,
                d as int,
            ));
            assert(descriptors@.subrange(0, d + 1).last() == descriptors@[d as int]);
        }
        let count = allocation[d];
        let kind = descriptors[d].kind;
        let mut c: usize = 0;
        while c < count
            invariant
                c <= count,
                units@.len() == spec_total_alloc(
                    config.max_threads as int,
                    descriptors@.subrange(0, d as int),
                    spec_weight_sum(descriptors@),
                ) + c,
            decreases count - c,
        {
            units.push(WorkloadUnit { kind, lock_counter: 0 });
            c = c + 1;
        }
        d = d + 1;
    }
    proof {
        assert(descriptors@.subrange(0, n as int) =~= descriptors@);
    }

    Ok(RunHandle {
        config: *config,
        units,
        shared: SharedRunState::new(),
        scratch: ScratchDir::new(),
        history: MetricsHistory::new(),
        violations: Vec::new(),
        phase: RunPhase::Running,
        ticks_done: 0,
        lost_workers: 0,
        join_timeouts: 0,
    })
}

/// One virtual tick: every unit runs one bounded, cancellable iteration
/// and records its operation, then the monitor pulls one snapshot,
/// validates it, appends it to the history, and applies the limit
/// policy.  A hard violation raises the stop flag and moves the run to
/// `Aborting`; everything else leaves it `Running`.
pub fn run_tick<P: MetricsProvider>(h: &mut RunHandle, provider: &mut P) -> (r: TickResult)
    requires
        old(h).wf(),
        old(h).phase == RunPhase::Running,
        old(h).ticks_done < 0xFFFF_FFFE,
        old(h).history@.len() < 0xFFFF_FFFF,
    ensures
        final(h).wf(),
        final(h).config == old(h).config,
        final(h).units@.len() == old(h).units@.len(),
        final(h).ticks_done == old(h).ticks_done + 1,
        final(h).lost_workers == old(h).lost_workers,
        final(h).join_timeouts == old(h).join_timeouts,
        final(h).shared.ops.total() == if old(h).shared.ops.total() + old(h).units@.len()
            <= u64::MAX {
            old(h).shared.ops.total() + old(h).units@.len()
        } else {
            u64::MAX as int
        },
        final(h).shared.ops.total() >= old(h).shared.ops.total(),
        final(h).phase == RunPhase::Running || final(h).phase == RunPhase::Aborting,
        final(h).history@.len() <= old(h).history@.len() + 1,
        r is SampleRejected ==> final(h).history@ =~= old(h).history@ && final(h).violations@
            =~= old(h).violations@ && final(h).phase == RunPhase::Running,
        r matches TickResult::Sampled(out) ==> (exists|s: SystemMetricsSample|
            {
                &&& s.wf()
                &&& s.timestamp == old(h).ticks_done
                &&& out == spec_check(s, old(h).config)
                &&& final(h).history@ =~= old(h).history@.push(s)
                &&& match out {
                    Outcome::Nominal => final(h).violations@ =~= old(h).violations@
                        && final(h).phase == RunPhase::Running,
                    Outcome::SoftViolation(v) => final(h).violations@ =~= old(
                        h,
                    ).violations@.push(v) && final(h).phase == RunPhase::Running,
                    Outcome::HardViolation(v) => final(h).violations@ =~= old(
                        h,
                    ).violations@.push(v) && final(h).phase == RunPhase::Aborting,
                }
            }),
{
    let n_units = h.units.len();
    let mut j: usize = 0;
    while j < n_units
        invariant
            j <= n_units,
            n_units == h.units@.len(),
            h.units@.len() == old(h).units@.len(),
            h.config == old(h).config,
            h.history == old(h).history,
            h.violations == old(h).violations,
            h.phase == old(h).phase,
            h.ticks_done == old(h).ticks_done,
            h.lost_workers == old(h).lost_workers,
            h.join_timeouts == old(h).join_timeouts,
            h.shared.stop == old(h).shared.stop,
            !h.shared.stop.is_up(),
            h.scratch@.len() <= MAX_SCRATCH_FILES,
            h.shared.ops.total() == if old(h).shared.ops.total() + j <= u64::MAX {
                old(h).shared.ops.total() + j
            } else {
                u64::MAX as int
            },
        decreases n_units - j,
    {
        let mut unit = h.units[j];
        let _ = run_generator(
            unit.kind,
            &h.shared.stop,
            &mut h.shared.ops,
            &mut h.scratch,
            &mut unit.lock_counter,
            1,
        );
        h.units[j] = unit;
        j = j + 1;
    }

    let result = monitor_step(
        provider,
        &h.config,
        &mut h.history,
        &mut h.violations,
        h.ticks_done,
    );
    match result {
        TickResult::Sampled(Outcome::HardViolation(_)) => {
            h.shared.stop.raise();
            if let Some(p) = next_phase(h.phase, RunEvent::HardLimit) {
                h.phase = p;
            }
        },
        _ => {},
    }
    h.ticks_done = h.ticks_done + 1;

    proof {
        assert(forall|i: int|
            0 <= i < h.history@.len() ==> (#[trigger] h.history@[i]).timestamp < h.ticks_done);
        assert(h.wf());
    }
    result
}

/// Sets the stop flag, gives every unit one final pass in which it
/// observes the flag and performs no further work, removes every file
/// left in the scratch directory, and marks the run joined.
///
/// After this returns no scratch file created by a filesystem workload
/// remains, and running the cleanup again finds nothing to remove.
pub fn stop_and_join(h: &mut RunHandle)
    requires
        old(h).wf(),
        old(h).phase == RunPhase::Running || old(h).phase == RunPhase::Draining || old(
            h,
        ).phase == RunPhase::Aborting,
    ensures
        final(h).wf(),
        final(h).phase == RunPhase::Joined,
        final(h).shared.stop.is_up(),
        final(h).scratch@.len() == 0,
        final(h).config == old(h).config,
        final(h).history == old(h).history,
        final(h).violations == old(h).violations,
        final(h).shared.ops.total() == old(h).shared.ops.total(),
        final(h).ticks_done == old(h).ticks_done,
        final(h).lost_workers == old(h).lost_workers,
        final(h).join_timeouts == old(h).join_timeouts,
        final(h).units@.len() == old(h).units@.len(),
{
    if matches!(h.phase, RunPhase::Running) {
        if let Some(p) = next_phase(h.phase, RunEvent::DurationElapsed) {
            h.phase = p;
        }
    }
    h.shared.stop.raise();
    let n_units = h.units.len();
    let mut j: usize = 0;
    while j < n_units
        invariant
            j <= n_units,
            n_units == h.units@.len(),
            h.units@.len() == old(h).units@.len(),
            h.config == old(h).config,
            h.history == old(h).history,
            h.violations == old(h).violations,
            h.ticks_done == old(h).ticks_done,
            h.lost_workers == old(h).lost_workers,
            h.join_timeouts == old(h).join_timeouts,
            h.shared.stop.is_up(),
            h.phase == RunPhase::Draining || h.phase == RunPhase::Aborting,
            h.scratch@ =~= old(h).scratch@,
            h.scratch@.len() <= MAX_SCRATCH_FILES,
            h.shared.ops.total() == old(h).shared.ops.total(),
        decreases n_units - j,
    {
        let mut unit = h.units[j];
        let _ = run_generator(
            unit.kind,
            &h.shared.stop,
            &mut h.shared.ops,
            &mut h.scratch,
            &mut unit.lock_counter,
            1,
        );
        h.units[j] = unit;
        j = j + 1;
    }
    h.scratch.cleanup();
    if let Some(p) = next_phase(h.phase, RunEvent::WorkersJoined) {
        h.phase = p;
    }
    proof {
        assert(h.wf());
    }
}

/// Folds the joined run into its aggregate report and marks the run
/// reported.  The verdict passes exactly when data was collected, no
/// hard violation is on record, no worker was lost, and no join timed
/// out.
pub fn build_report(h: &mut RunHandle) -> (r: TestReport)
    requires
        old(h).wf(),
        old(h).phase == RunPhase::Joined,
    ensures
        final(h).wf(),
        final(h).phase == RunPhase::Reported,
        final(h).history == old(h).history,
        final(h).violations == old(h).violations,
        final(h).shared == old(h).shared,
        r.samples == old(h).history@.len(),
        r.total_ops == old(h).shared.ops.total(),
        r.violations@ =~= old(h).violations@,
        r.soft_violations == count_severity(old(h).violations@, Severity::Soft),
        r.hard_violations == count_severity(old(h).violations@, Severity::Hard),
        r.lost_workers == old(h).lost_workers,
        r.join_timeouts == old(h).join_timeouts,
        r.throttling_events == count_throttling(old(h).history@),
        r.peak_cpu_centi == max_cpu(old(h).history@),
        r.peak_memory_bytes == max_mem(old(h).history@),
        r.max_temperature_centi == max_temp(old(h).history@),
        r.min_battery_centi == min_battery(old(h).history@),
        old(h).history@.len() > 0 ==> r.avg_cpu_centi == sum_cpu(old(h).history@) / old(
            h,
        ).history@.len() as int,
        old(h).history@.len() > 0 ==> r.avg_memory_bytes == sum_mem(old(h).history@) / old(
            h,
        ).history@.len() as int,
        old(h).history@.len() > 0 ==> r.avg_temperature_centi == sum_temp(old(h).history@)
            / old(h).history@.len() as int,
        r.verdict == Verdict::Passed <==> (old(h).history@.len() > 0 && count_severity(
            old(h).violations@,
            Severity::Hard,
        ) == 0 && old(h).lost_workers == 0 && old(h).join_timeouts == 0),
{
    let r = summarize(
        &h.history,
        &h.violations,
        h.shared.ops.get(),
        h.lost_workers,
        h.join_timeouts,
    );
    if let Some(p) = next_phase(h.phase, RunEvent::ReportBuilt) {
        h.phase = p;
    }
    r
}

/// Runs one full stress scenario in virtual time: starts the unit pool,
/// ticks until the configured duration elapses or a hard violation
/// aborts the run, signals stop, joins every unit, cleans the scratch
/// directory, and reports.
///
/// On any accepted configuration the run always reaches a report; with a
/// duration of at least one tick and at least one workload scheduled,
/// the reported operation count is strictly positive.
pub fn run_stress<P: MetricsProvider>(
    config: &StressTestConfig,
    descriptors: &Vec<WorkloadDescriptor>,
    provider: &mut P,
) -> (r: Result<TestReport, ConfigError>)
    ensures
        r is Ok <==> (config.valid() && spec_descriptors_ok(descriptors@)),
        r is Err ==> r == Err::<TestReport, ConfigError>(
            spec_start_error(*config, descriptors@),
        ),
        r is Ok ==> ({
            let rep = r->Ok_0;
            &&& rep.total_ops > 0
            &&& rep.lost_workers == 0
            &&& rep.join_timeouts == 0
            &&& (rep.verdict == Verdict::Passed <==> (rep.samples > 0 && rep.hard_violations
                == 0))
        }),
{
    let handle = start(config, descriptors);
    match handle {
        Err(e) => Err(e),
        Ok(mut h) => {
            let total_ticks = config.test_duration_ticks;
            let mut t: u64 = 0;
            while t < total_ticks && matches!(h.phase, RunPhase::Running)
                invariant
                    h.wf(),
                    h.phase == RunPhase::Running || h.phase == RunPhase::Aborting,
                    t <= total_ticks,
                    total_ticks == config.test_duration_ticks,
                    config.valid(),
                    h.ticks_done == t,
                    h.history@.len() <= t,
                    h.config == *config,
                    h.lost_workers == 0,
                    h.join_timeouts == 0,
                    h.phase == RunPhase::Aborting ==> t >= 1,
                    t >= 1 ==> h.shared.ops.total() >= 1,
                decreases total_ticks - t,
            {
                let _ = run_tick(&mut h, provider);
                t = t + 1;
            }
            stop_and_join(&mut h);
            let rep = build_report(&mut h);
            Ok(rep)
        },
    }
}

/// The workload mix of the CPU and multithreading scenario: arithmetic
/// kernels, allocation churn, lock contention, and busy yielding.
fn cpu_stress_descriptors() -> (r: Vec<WorkloadDescriptor>)
    ensures
        spec_descriptors_ok(r@),
{
    let mut ds: Vec<WorkloadDescriptor> = Vec::new();
    ds.push(WorkloadDescriptor::new(WorkloadKind::CpuMath, 2));
    ds.push(WorkloadDescriptor::new(WorkloadKind::MemoryChurn, 1));
    ds.push(WorkloadDescriptor::new(WorkloadKind::LockContention, 1));
    ds.push(WorkloadDescriptor::new(WorkloadKind::BusyYield, 1));
    ds
}

/// Runs the CPU and multithreading stress scenario.
pub fn run_cpu_stress<P: MetricsProvider>(config: &StressTestConfig, provider: &mut P) -> (r:
    Result<TestReport, ConfigError>)
    ensures
        r is Ok <==> config.valid(),
        r is Err ==> r == Err::<TestReport, ConfigError>(config.spec_validate_error()),
        r is Ok ==> r->Ok_0.total_ops > 0,
        r is Ok ==> (r->Ok_0.verdict == Verdict::Passed <==> (r->Ok_0.samples > 0
            && r->Ok_0.hard_violations == 0)),
{
    let ds = cpu_stress_descriptors();
    run_stress(config, &ds, provider)
}

/// Runs the memory-pressure stress scenario: allocation/release churn.
pub fn run_memory_stress<P: MetricsProvider>(config: &StressTestConfig, provider: &mut P) -> (r:
    Result<TestReport, ConfigError>)
    ensures
        r is Ok <==> config.valid(),
        r is Err ==> r == Err::<TestReport, ConfigError>(config.spec_validate_error()),
        r is Ok ==> r->Ok_0.total_ops > 0,
        r is Ok ==> (r->Ok_0.verdict == Verdict::Passed <==> (r->Ok_0.samples > 0
            && r->Ok_0.hard_violations == 0)),
{
    let mut ds: Vec<WorkloadDescriptor> = Vec::new();
    ds.push(WorkloadDescriptor::new(WorkloadKind::MemoryChurn, 1));
    run_stress(config, &ds, provider)
}

/// Runs the filesystem stress scenario: scratch-file creation, removal,
/// and the cleanup guarantee at the end.
pub fn run_filesystem_stress<P: MetricsProvider>(config: &StressTestConfig, provider: &mut P) -> (
    r: Result<TestReport, ConfigError>)
    ensures
        r is Ok <==> config.valid(),
        r is Err ==> r == Err::<TestReport, ConfigError>(config.spec_validate_error()),
        r is Ok ==> r->Ok_0.total_ops > 0,
        r is Ok ==> (r->Ok_0.verdict == Verdict::Passed <==> (r->Ok_0.samples > 0
            && r->Ok_0.hard_violations == 0)),
{
    let mut ds: Vec<WorkloadDescriptor> = Vec::new();
    ds.push(WorkloadDescriptor::new(WorkloadKind::FilesystemChurn, 1));
    run_stress(config, &ds, provider)
}

/// Runs the thermal stress scenario: sustained arithmetic load while the
/// monitor watches temperature and throttling.
pub fn run_thermal_stress<P: MetricsProvider>(config: &StressTestConfig, provider: &mut P) -> (r:
    Result<TestReport, ConfigError>)
    ensures
        r is Ok <==> config.valid(),
        r is Err ==> r == Err::<TestReport, ConfigError>(config.spec_validate_error()),
        r is Ok ==> r->Ok_0.total_ops > 0,
        r is Ok ==> (r->Ok_0.verdict == Verdict::Passed <==> (r->Ok_0.samples > 0
            && r->Ok_0.hard_violations == 0)),
{
    let mut ds: Vec<WorkloadDescriptor> = Vec::new();
    ds.push(WorkloadDescriptor::new(WorkloadKind::CpuMath, 1));
    run_stress(config, &ds, provider)
}

/// Runs the network stress scenario: simulated request batches.
pub fn run_network_stress<P: MetricsProvider>(config: &StressTestConfig, provider: &mut P) -> (r:
    Result<TestReport, ConfigError>)
    ensures
        r is Ok <==> config.valid(),
        r is Err ==> r == Err::<TestReport, ConfigError>(config.spec_validate_error()),
        r is Ok ==> r->Ok_0.total_ops > 0,
        r is Ok ==> (r->Ok_0.verdict == Verdict::Passed <==> (r->Ok_0.samples > 0
            && r->Ok_0.hard_violations == 0)),
{
    let mut ds: Vec<WorkloadDescriptor> = Vec::new();
    ds.push(WorkloadDescriptor::new(WorkloadKind::NetworkSimulated, 1));
    run_stress(config, &ds, provider)
}

/// Runs the comprehensive scenario: every subsystem loaded at once.
pub fn run_comprehensive_stress<P: MetricsProvider>(config: &StressTestConfig, provider: &mut P) -> (
    r: Result<TestReport, ConfigError>)
    ensures
        r is Ok <==> config.valid(),
        r is Err ==> r == Err::<TestReport, ConfigError>(config.spec_validate_error()),
        r is Ok ==> r->Ok_0.total_ops > 0,
        r is Ok ==> (r->Ok_0.verdict == Verdict::Passed <==> (r->Ok_0.samples > 0
            && r->Ok_0.hard_violations == 0)),
{
    let mut ds: Vec<WorkloadDescriptor> = Vec::new();
    ds.push(WorkloadDescriptor::new(WorkloadKind::CpuMath, 1));
    ds.push(WorkloadDescriptor::new(WorkloadKind::MemoryChurn, 1));
    ds.push(WorkloadDescriptor::new(WorkloadKind::FilesystemChurn, 1));
    ds.push(WorkloadDescriptor::new(WorkloadKind::NetworkSimulated, 1));
    ds.push(WorkloadDescriptor::new(WorkloadKind::GpuSimulated, 1));
    run_stress(config, &ds, provider)
}

} // verus!
