use test_os::config::{Platform, StressTestConfig};
use test_os::limits::Outcome;
use test_os::metrics::{ConstantProvider, MetricsHistory, RawSample, SimulatedProvider,
    SystemMetricsSample};
use test_os::monitor::{monitor_step, TickResult};
use test_os::orchestrator::{
    run_comprehensive_stress, run_cpu_stress, run_filesystem_stress, run_memory_stress,
    run_network_stress, run_thermal_stress, start, stop_and_join, run_tick,
};
use test_os::platform::{get_android_context, get_mobile_app_dir, get_storage_state,
    verify_content_layout};
use test_os::report::Verdict;
use test_os::workload::{OpCounter, ScratchDir, StopFlag, WorkloadDescriptor, WorkloadKind,
    run_generator};

fn nominal_raw() -> RawSample {
    RawSample {
        cpu_centi: 2500,
        memory_used: 64 * 1024 * 1024,
        memory_total: 4 * 1024 * 1024 * 1024,
        battery_centi: 8500,
        temperature_centi: 3500,
        thermal_throttling: false,
        uptime_secs: 1000,
    }
}

fn short_config(ticks: u64) -> StressTestConfig {
    let mut c = StressTestConfig::default_for(Platform::Android);
    c.test_duration_ticks = ticks;
    c
}

#[test]
fn run_all_mobile_e2e_tests() {
    println!("Starting all mobile E2E tests...");

    let context = get_android_context();
    assert_eq!(context, "android.app.Application");
    let storage = get_storage_state();
    assert_eq!(storage, Ok("mounted".to_string()));
    let app_dir = get_mobile_app_dir();
    assert!(app_dir.ends_with("files"));

    for (width, height) in [(1080, 1920), (1920, 1080), (1080, 1920), (1920, 1080)] {
        assert!(verify_content_layout(width, height));
    }

    let mut provider = ConstantProvider { raw: nominal_raw() };
    let report = run_comprehensive_stress(&short_config(2), &mut provider).unwrap();
    assert_eq!(report.verdict, Verdict::Passed);

    println!("All mobile E2E tests completed successfully!");
}

#[test]
fn hard_cpu_violation_fails_run() {
    // The provider reports CPU at twice the configured maximum; the first
    // sample must already be a hard violation and the report must fail.
    let config = short_config(5);
    let mut raw = nominal_raw();
    raw.cpu_centi = config.max_cpu_centi * 2;
    let mut provider = ConstantProvider { raw };
    let report = run_cpu_stress(&config, &mut provider).unwrap();
    assert_eq!(report.verdict, Verdict::Failed);
    assert!(report.violations.len() >= 1);
    assert!(report.hard_violations >= 1);
    // The run aborted on the first sample.
    assert_eq!(report.samples, 1);
}

#[test]
fn nominal_three_tick_run_passes() {
    let config = short_config(3);
    let mut provider = ConstantProvider { raw: nominal_raw() };
    let report = run_cpu_stress(&config, &mut provider).unwrap();
    assert_eq!(report.samples, 3);
    assert_eq!(report.verdict, Verdict::Passed);
    assert_eq!(report.violations.len(), 0);
    assert_eq!(report.soft_violations, 0);
    assert_eq!(report.hard_violations, 0);
}

#[test]
fn counter_is_monotonic_and_positive() {
    let mut ops = OpCounter::new();
    assert_eq!(ops.get(), 0);
    let mut last = 0;
    for n in [1u64, 10, 0, 1000] {
        ops.add(n);
        assert!(ops.get() >= last);
        last = ops.get();
    }
    assert_eq!(ops.get(), 1011);
    ops.add(u64::MAX);
    assert_eq!(ops.get(), u64::MAX);
    ops.add(7);
    assert_eq!(ops.get(), u64::MAX);

    let config = short_config(1);
    let mut provider = ConstantProvider { raw: nominal_raw() };
    let report = run_memory_stress(&config, &mut provider).unwrap();
    assert!(report.total_ops > 0);
}

#[test]
fn scratch_cleanup_is_idempotent() {
    let mut scratch = ScratchDir::new();
    scratch.create_file(17);
    scratch.create_file(23);
    assert_eq!(scratch.live_count(), 2);
    scratch.cleanup();
    assert_eq!(scratch.live_count(), 0);
    scratch.cleanup();
    assert_eq!(scratch.live_count(), 0);
}

#[test]
fn stop_and_join_leaves_no_scratch_files() {
    let config = short_config(10);
    let mut ds = Vec::new();
    ds.push(WorkloadDescriptor::new(WorkloadKind::FilesystemChurn, 1));
    let mut provider = ConstantProvider { raw: nominal_raw() };
    let mut handle = start(&config, &ds).unwrap();
    for _ in 0..4 {
        let _ = run_tick(&mut handle, &mut provider);
    }
    stop_and_join(&mut handle);
    assert_eq!(handle.scratch.live_count(), 0);
}

#[test]
fn raised_stop_flag_cancels_immediately() {
    // Once the stop flag is up, a generator pass performs no iterations:
    // cancellation latency is bounded by a single iteration.
    let mut stop = StopFlag::new();
    let mut ops = OpCounter::new();
    let mut scratch = ScratchDir::new();
    let mut lock_counter = 0u64;

    let done = run_generator(
        WorkloadKind::CpuMath,
        &stop,
        &mut ops,
        &mut scratch,
        &mut lock_counter,
        8,
    );
    assert_eq!(done, 8);
    assert_eq!(ops.get(), 8);

    stop.raise();
    assert!(stop.is_raised());
    let done = run_generator(
        WorkloadKind::CpuMath,
        &stop,
        &mut ops,
        &mut scratch,
        &mut lock_counter,
        8,
    );
    assert_eq!(done, 0);
    assert_eq!(ops.get(), 8);

    // Raising again keeps the flag up: the transition is one way.
    stop.raise();
    assert!(stop.is_raised());
}

#[test]
fn every_scenario_entry_point_runs() {
    let config = short_config(1);
    let raw = nominal_raw();
    assert_eq!(
        run_cpu_stress(&config, &mut ConstantProvider { raw }).unwrap().verdict,
        Verdict::Passed
    );
    assert_eq!(
        run_memory_stress(&config, &mut ConstantProvider { raw }).unwrap().verdict,
        Verdict::Passed
    );
    assert_eq!(
        run_filesystem_stress(&config, &mut ConstantProvider { raw }).unwrap().verdict,
        Verdict::Passed
    );
    assert_eq!(
        run_thermal_stress(&config, &mut ConstantProvider { raw }).unwrap().verdict,
        Verdict::Passed
    );
    assert_eq!(
        run_network_stress(&config, &mut ConstantProvider { raw }).unwrap().verdict,
        Verdict::Passed
    );
    assert_eq!(
        run_comprehensive_stress(&config, &mut ConstantProvider { raw }).unwrap().verdict,
        Verdict::Passed
    );
}

#[test]
fn simulated_provider_stays_within_nominal_limits() {
    // The synthetic provider jitters battery and temperature inside the
    // reference envelope.  Its fixed 512 MiB memory reading sits above
    // the 200 MiB Android default, so the limit is widened for this run.
    let mut provider = SimulatedProvider::new(Platform::Android);
    let mut config = short_config(3);
    config.max_memory_mb = 1024;
    let report = run_thermal_stress(&config, &mut provider).unwrap();
    assert_eq!(report.samples, 3);
    assert_eq!(report.verdict, Verdict::Passed);
    assert!(report.min_battery_centi >= 4500);
    assert!(report.min_battery_centi < 5500);
    assert!(report.max_temperature_centi >= 3500);
    assert!(report.max_temperature_centi < 4500);
}

#[test]
fn monitor_records_samples_and_violations_in_step() {
    let config = short_config(5);
    let mut history = MetricsHistory::new();
    let mut violations = Vec::new();

    let mut nominal = ConstantProvider { raw: nominal_raw() };
    let r = monitor_step(&mut nominal, &config, &mut history, &mut violations, 0);
    assert!(matches!(r, TickResult::Sampled(Outcome::Nominal)));
    assert_eq!(history.len(), 1);
    assert_eq!(violations.len(), 0);

    let mut soft_raw = nominal_raw();
    soft_raw.cpu_centi = 7000;
    let mut soft = ConstantProvider { raw: soft_raw };
    let r = monitor_step(&mut soft, &config, &mut history, &mut violations, 1);
    assert!(matches!(r, TickResult::Sampled(Outcome::SoftViolation(_))));
    assert_eq!(history.len(), 2);
    assert_eq!(violations.len(), 1);

    let mut bad_raw = nominal_raw();
    bad_raw.battery_centi = 20000;
    let mut bad = ConstantProvider { raw: bad_raw };
    let r = monitor_step(&mut bad, &config, &mut history, &mut violations, 2);
    assert!(matches!(r, TickResult::SampleRejected));
    assert_eq!(history.len(), 2);
    assert_eq!(violations.len(), 1);

    // Every recorded violation points at a recorded sample.
    assert_eq!(violations[0].timestamp, 1);
    assert_eq!(history.get(1).timestamp, 1);
}

#[test]
fn rejected_samples_leave_history_empty_and_fail() {
    // A provider whose snapshots are inconsistent (used > total) never
    // gets a sample recorded, and a run with no data cannot pass.
    let mut raw = nominal_raw();
    raw.memory_used = raw.memory_total + 1;
    let mut provider = ConstantProvider { raw };
    let report = run_cpu_stress(&short_config(2), &mut provider).unwrap();
    assert_eq!(report.samples, 0);
    assert_eq!(report.verdict, Verdict::Failed);
}

#[test]
fn sample_validation_guards_history_invariants() {
    // The validation gate admits exactly the samples that satisfy the
    // data-model invariants.
    let good = nominal_raw();
    assert!(SystemMetricsSample::from_raw(&good, 0).is_some());

    let mut used_over_total = nominal_raw();
    used_over_total.memory_used = used_over_total.memory_total + 1;
    assert!(SystemMetricsSample::from_raw(&used_over_total, 0).is_none());

    let mut battery_over_full = nominal_raw();
    battery_over_full.battery_centi = 10001;
    assert!(SystemMetricsSample::from_raw(&battery_over_full, 0).is_none());

    let s = SystemMetricsSample::from_raw(&good, 42).unwrap();
    assert_eq!(s.timestamp, 42);
    assert_eq!(s.cpu_centi, good.cpu_centi);
    assert!(s.memory_used <= s.memory_total);
    assert!(s.battery_centi <= 10000);
}
