//! The monitor: on each tick it pulls one snapshot from the provider,
//! validates it, appends it to the history, and feeds it to the limit
//! enforcer.  It drives the sampling cadence and never spawns work of
//! its own.

use vstd::prelude::*;
use crate::config::StressTestConfig;
use crate::limits::{check, spec_check, Outcome, ViolationRecord};
use crate::metrics::{MetricsHistory, MetricsProvider, SystemMetricsSample};

verus! {

/// Whether some sample in a history carries the given timestamp.
pub open spec fn ts_in_history(hist: Seq<SystemMetricsSample>, ts: u64) -> bool {
    exists|i: int| 0 <= i < hist.len() && hist[i].timestamp == ts
}

/// Every violation on record points at a sample that exists in the
/// history.
pub open spec fn violations_recorded(
    vs: Seq<ViolationRecord>,
    hist: Seq<SystemMetricsSample>,
) -> bool {
    forall|k: int| 0 <= k < vs.len() ==> ts_in_history(hist, (#[trigger] vs[k]).timestamp)
}

/// What one monitor pass saw: the provider's snapshot was either
/// internally inconsistent and rejected, or validated and judged.
#[derive(Clone, Copy, PartialEq, Eq, Structural, Debug)]
pub enum TickResult {
    SampleRejected,
    Sampled(Outcome),
}

/// One monitor pass at virtual time `tick`: pulls a snapshot, validates
/// it, appends the accepted sample to the history, and applies the limit
/// policy, recording any violation.  A rejected snapshot leaves both the
/// history and the violation log untouched.
pub fn monitor_step<P: MetricsProvider>(
    provider: &mut P,
    config: &StressTestConfig,
    history: &mut MetricsHistory,
    violations: &mut Vec<ViolationRecord>,
    tick: u64,
) -> (r: TickResult)
    requires
        config.limits_in_range(),
        old(history).wf(),
        old(history)@.len() < 0xFFFF_FFFF,
        forall|i: int|
            0 <= i < old(history)@.len() ==> (#[trigger] old(history)@[i]).timestamp < tick,
        violations_recorded(old(violations)@, old(history)@),
    ensures
        final(history).wf(),
        final(history)@.len() <= old(history)@.len() + 1,
        violations_recorded(final(violations)@, final(history)@),
        forall|i: int|
            0 <= i < final(history)@.len() ==> (#[trigger] final(history)@[i]).timestamp
                <= tick,
        r is SampleRejected ==> final(history)@ =~= old(history)@ && final(violations)@
            =~= old(violations)@,
        r matches TickResult::Sampled(out) ==> (exists|s: SystemMetricsSample|
            {
                &&& s.wf()
                &&& s.timestamp == tick
                &&& out == spec_check(s, *config)
                &&& final(history)@ =~= old(history)@.push(s)
                &&& match out {
                    Outcome::Nominal => final(violations)@ =~= old(violations)@,
                    Outcome::SoftViolation(v) => final(violations)@ =~= old(
                        violations,
                    )@.push(v),
                    Outcome::HardViolation(v) => final(violations)@ =~= old(
                        violations,
                    )@.push(v),
                }
            }),
{
    let raw = provider.sample();
    let result: TickResult;
    match SystemMetricsSample::from_raw(&raw, tick) {
        Some(sample) => {
            history.push(sample);
            let out = check(&sample, config);
            match out {
                Outcome::Nominal => {},
                Outcome::SoftViolation(v) => {
                    violations.push(v);
                },
                Outcome::HardViolation(v) => {
                    violations.push(v);
                },
            }
            result = TickResult::Sampled(out);
        },
        None => {
            result = TickResult::SampleRejected;
        },
    }
    proof {
        assert forall|k: int| 0 <= k < violations@.len() implies ts_in_history(
            history@,
            (#[trigger] violations@[k]).timestamp,
        ) by {
            if k < old(violations)@.len() {
                assert(ts_in_history(old(history)@, old(violations)@[k].timestamp));
                let i = choose|i: int|
                    0 <= i < old(history)@.len() && old(history)@[i].timestamp == old(
                        violations,
                    )@[k].timestamp;
                assert(0 <= i < history@.len() && history@[i].timestamp
                    == violations@[k].timestamp);
            } else {
                let i = history@.len() - 1;
                assert(0 <= i < history@.len() && history@[i].timestamp
                    == violations@[k].timestamp);
            }
        }
    }
    result
}

} // verus!
