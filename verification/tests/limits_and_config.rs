use test_os::config::{ConfigError, Platform, StressTestConfig};
use test_os::limits::{check, check_mobile_performance, MetricKind, Outcome, Severity};
use test_os::metrics::{MetricsHistory, RawSample, SystemMetricsSample};
use test_os::metrics::ConstantProvider;
use test_os::orchestrator::{allocate_threads, next_phase, run_cpu_stress, run_stress, start,
    RunEvent, RunPhase};
use test_os::report::{summarize, Verdict};
use test_os::workload::{WorkloadDescriptor, WorkloadKind};

fn sample_with(cpu_centi: u32, memory_used: u64, temperature_centi: u32) -> SystemMetricsSample {
    SystemMetricsSample {
        cpu_centi,
        memory_used,
        memory_total: 4 * 1024 * 1024 * 1024,
        battery_centi: 9000,
        temperature_centi,
        thermal_throttling: false,
        uptime_secs: 10,
        timestamp: 3,
    }
}

fn android() -> StressTestConfig {
    StressTestConfig::default_for(Platform::Android)
}

#[test]
fn nominal_sample_is_ok() {
    let c = android();
    let s = sample_with(2000, 64 * 1024 * 1024, 3000);
    assert_eq!(check(&s, &c), Outcome::Nominal);
}

#[test]
fn cpu_over_tolerance_is_hard() {
    let c = android();
    // Hard threshold is 6000 * 150% = 9000 centi-percent.
    let s = sample_with(9001, 64 * 1024 * 1024, 3000);
    match check(&s, &c) {
        Outcome::HardViolation(v) => {
            assert_eq!(v.metric, MetricKind::Cpu);
            assert_eq!(v.observed, 9001);
            assert_eq!(v.threshold, 9000);
            assert_eq!(v.severity, Severity::Hard);
            assert_eq!(v.timestamp, 3);
        }
        other => panic!("expected a hard CPU violation, got {:?}", other),
    }
}

#[test]
fn cpu_between_nominal_and_tolerance_is_soft() {
    let c = android();
    let s = sample_with(7000, 64 * 1024 * 1024, 3000);
    match check(&s, &c) {
        Outcome::SoftViolation(v) => {
            assert_eq!(v.metric, MetricKind::Cpu);
            assert_eq!(v.observed, 7000);
            assert_eq!(v.threshold, 6000);
            assert_eq!(v.severity, Severity::Soft);
        }
        other => panic!("expected a soft CPU violation, got {:?}", other),
    }
    // The boundary itself is still within tolerance.
    let s = sample_with(9000, 64 * 1024 * 1024, 3000);
    assert!(matches!(check(&s, &c), Outcome::SoftViolation(_)));
}

#[test]
fn memory_beyond_one_and_a_half_limit_is_hard() {
    let c = android();
    // Limit is 200 MiB; 1.5x is 300 MiB.
    let s = sample_with(2000, 300 * 1024 * 1024 + 1, 3000);
    match check(&s, &c) {
        Outcome::HardViolation(v) => {
            assert_eq!(v.metric, MetricKind::Memory);
            assert_eq!(v.threshold, 300 * 1024 * 1024);
        }
        other => panic!("expected a hard memory violation, got {:?}", other),
    }
    let s = sample_with(2000, 250 * 1024 * 1024, 3000);
    assert!(matches!(check(&s, &c), Outcome::SoftViolation(_)));
}

#[test]
fn temperature_beyond_one_point_two_limit_is_hard() {
    let c = android();
    // Limit is 45.00 C; 1.2x is 54.00 C.
    let s = sample_with(2000, 64 * 1024 * 1024, 5401);
    match check(&s, &c) {
        Outcome::HardViolation(v) => {
            assert_eq!(v.metric, MetricKind::Temperature);
            assert_eq!(v.observed, 5401);
            assert_eq!(v.threshold, 5400);
        }
        other => panic!("expected a hard temperature violation, got {:?}", other),
    }
    let s = sample_with(2000, 64 * 1024 * 1024, 4600);
    assert!(matches!(check(&s, &c), Outcome::SoftViolation(_)));
}

#[test]
fn performance_tolerance_comparison_is_exact() {
    assert!(check_mobile_performance(100, 100, 50));
    assert!(check_mobile_performance(150, 100, 50));
    assert!(!check_mobile_performance(151, 100, 50));
    assert!(check_mobile_performance(0, 0, 100));
    assert!(!check_mobile_performance(1, 0, 100));
}

#[test]
fn default_configs_per_platform() {
    let a = StressTestConfig::default_for(Platform::Android);
    assert_eq!(a.max_cpu_centi, 6000);
    assert_eq!(a.max_memory_mb, 200);
    assert_eq!(a.max_threads, 50);
    assert_eq!(a.max_file_size_mb, 100);
    assert_eq!(a.max_open_files, 200);
    assert_eq!(a.max_temperature_centi, 4500);
    assert_eq!(a.tolerance_pct, 150);
    assert_eq!(a.test_duration_ticks, 60);

    let i = StressTestConfig::default_for(Platform::Ios);
    assert_eq!(i.max_cpu_centi, 5000);
    assert_eq!(i.max_memory_mb, 150);
    assert_eq!(i.max_threads, 30);
    assert_eq!(i.max_file_size_mb, 50);
    assert_eq!(i.max_open_files, 100);

    assert_eq!(StressTestConfig::default(), a);
}

#[test]
fn config_validation_rejects_degenerate_runs() {
    let mut c = android();
    assert!(c.validate().is_ok());

    c.test_duration_ticks = 0;
    assert_eq!(c.validate(), Err(ConfigError::ZeroDuration));

    let mut c = android();
    c.max_threads = 0;
    assert_eq!(c.validate(), Err(ConfigError::ZeroThreads));

    let mut c = android();
    c.tolerance_pct = 50;
    assert_eq!(c.validate(), Err(ConfigError::LimitOutOfRange));
}

#[test]
fn run_rejections_carry_the_exact_error() {
    let raw = RawSample {
        cpu_centi: 1000,
        memory_used: 1024,
        memory_total: 2048,
        battery_centi: 9000,
        temperature_centi: 3000,
        thermal_throttling: false,
        uptime_secs: 5,
    };

    let mut c = android();
    c.test_duration_ticks = 0;
    assert_eq!(
        run_cpu_stress(&c, &mut ConstantProvider { raw }).unwrap_err(),
        ConfigError::ZeroDuration
    );

    let mut c = android();
    c.max_threads = 0;
    assert_eq!(
        run_cpu_stress(&c, &mut ConstantProvider { raw }).unwrap_err(),
        ConfigError::ZeroThreads
    );

    let c = android();
    assert_eq!(
        run_stress(&c, &Vec::new(), &mut ConstantProvider { raw }).unwrap_err(),
        ConfigError::NoWorkloads
    );

    let bad_weight = vec![WorkloadDescriptor { kind: WorkloadKind::CpuMath, weight: 0 }];
    match start(&c, &bad_weight) {
        Err(e) => assert_eq!(e, ConfigError::LimitOutOfRange),
        Ok(_) => panic!("a zero-weight descriptor must be rejected"),
    }
}

#[test]
fn thread_allocation_is_proportional_with_minimum_one() {
    let ds = vec![
        WorkloadDescriptor::new(WorkloadKind::CpuMath, 2),
        WorkloadDescriptor::new(WorkloadKind::MemoryChurn, 1),
        WorkloadDescriptor::new(WorkloadKind::LockContention, 1),
        WorkloadDescriptor::new(WorkloadKind::BusyYield, 1),
    ];
    let alloc = allocate_threads(50, &ds);
    assert_eq!(alloc, vec![20, 10, 10, 10]);

    // A tiny budget still grants every descriptor one thread.
    let alloc = allocate_threads(1, &ds);
    assert_eq!(alloc, vec![1, 1, 1, 1]);

    let ds = vec![
        WorkloadDescriptor::new(WorkloadKind::CpuMath, 3),
        WorkloadDescriptor::new(WorkloadKind::NetworkSimulated, 1),
    ];
    let alloc = allocate_threads(30, &ds);
    assert_eq!(alloc, vec![22, 7]);
}

#[test]
fn lifecycle_state_machine_transitions() {
    assert_eq!(next_phase(RunPhase::Idle, RunEvent::Start), Some(RunPhase::Running));
    assert_eq!(
        next_phase(RunPhase::Running, RunEvent::DurationElapsed),
        Some(RunPhase::Draining)
    );
    assert_eq!(next_phase(RunPhase::Running, RunEvent::HardLimit), Some(RunPhase::Aborting));
    assert_eq!(next_phase(RunPhase::Draining, RunEvent::WorkersJoined), Some(RunPhase::Joined));
    assert_eq!(next_phase(RunPhase::Aborting, RunEvent::WorkersJoined), Some(RunPhase::Joined));
    assert_eq!(next_phase(RunPhase::Joined, RunEvent::ReportBuilt), Some(RunPhase::Reported));

    assert_eq!(next_phase(RunPhase::Idle, RunEvent::ReportBuilt), None);
    assert_eq!(next_phase(RunPhase::Reported, RunEvent::Start), None);
    assert_eq!(next_phase(RunPhase::Draining, RunEvent::HardLimit), None);
}

#[test]
fn empty_history_report_is_never_passed() {
    let history = MetricsHistory::new();
    let report = summarize(&history, &Vec::new(), 0, 0, 0);
    assert_eq!(report.verdict, Verdict::Failed);
    assert_eq!(report.samples, 0);
    assert_eq!(report.avg_cpu_centi, 0);
    assert_eq!(report.min_battery_centi, 10000);
}

#[test]
fn lost_workers_or_join_timeouts_block_a_pass() {
    let mut history = MetricsHistory::new();
    let raw = RawSample {
        cpu_centi: 1000,
        memory_used: 1024,
        memory_total: 2048,
        battery_centi: 9000,
        temperature_centi: 3000,
        thermal_throttling: false,
        uptime_secs: 5,
    };
    history.push(SystemMetricsSample::from_raw(&raw, 0).unwrap());

    let ok = summarize(&history, &Vec::new(), 10, 0, 0);
    assert_eq!(ok.verdict, Verdict::Passed);

    let lost = summarize(&history, &Vec::new(), 10, 1, 0);
    assert_eq!(lost.verdict, Verdict::Failed);

    let timed_out = summarize(&history, &Vec::new(), 10, 0, 1);
    assert_eq!(timed_out.verdict, Verdict::Failed);
}

#[test]
fn report_aggregates_are_exact() {
    let mut history = MetricsHistory::new();
    let mut raw = RawSample {
        cpu_centi: 1000,
        memory_used: 100,
        memory_total: 10_000,
        battery_centi: 9000,
        temperature_centi: 3000,
        thermal_throttling: false,
        uptime_secs: 5,
    };
    history.push(SystemMetricsSample::from_raw(&raw, 0).unwrap());
    raw.cpu_centi = 3000;
    raw.memory_used = 300;
    raw.temperature_centi = 4200;
    raw.battery_centi = 8000;
    raw.thermal_throttling = true;
    history.push(SystemMetricsSample::from_raw(&raw, 1).unwrap());

    let report = summarize(&history, &Vec::new(), 77, 0, 0);
    assert_eq!(report.samples, 2);
    assert_eq!(report.total_ops, 77);
    assert_eq!(report.avg_cpu_centi, 2000);
    assert_eq!(report.peak_cpu_centi, 3000);
    assert_eq!(report.avg_memory_bytes, 200);
    assert_eq!(report.peak_memory_bytes, 300);
    assert_eq!(report.avg_temperature_centi, 3600);
    assert_eq!(report.max_temperature_centi, 4200);
    assert_eq!(report.min_battery_centi, 8000);
    assert_eq!(report.throttling_events, 1);
    assert_eq!(report.verdict, Verdict::Passed);
}
