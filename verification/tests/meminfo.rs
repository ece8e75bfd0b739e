use test_os::config::Platform;
use test_os::metrics::{get_cpu_usage, get_memory_total, get_memory_used, get_system_uptime,
    is_thermal_throttling, mem_available_from_meminfo, simulate_battery_level,
    simulate_battery_temperature};

#[test]
fn parses_the_mem_available_line() {
    let data = b"MemTotal:       2048000 kB\nMemAvailable:   1024 kB\nSwapTotal: 0 kB\n"
        .to_vec();
    assert_eq!(mem_available_from_meminfo(&data), Some(1024 * 1024));
    assert_eq!(get_memory_used(&data), 1024 * 1024);
}

#[test]
fn mem_available_at_buffer_start() {
    let data = b"MemAvailable: 7 kB\n".to_vec();
    assert_eq!(mem_available_from_meminfo(&data), Some(7 * 1024));
}

#[test]
fn missing_line_falls_back_to_default() {
    let data = b"MemTotal: 2048000 kB\nSwapTotal: 0 kB\n".to_vec();
    assert_eq!(mem_available_from_meminfo(&data), None);
    assert_eq!(get_memory_used(&data), 512 * 1024 * 1024);
    assert_eq!(get_memory_used(&Vec::new()), 512 * 1024 * 1024);
}

#[test]
fn label_must_start_its_line() {
    let data = b"XMemAvailable: 9 kB\n".to_vec();
    assert_eq!(mem_available_from_meminfo(&data), None);
    let data = b"Pre: 1\nXMemAvailable: 9 kB\nMemAvailable: 3 kB\n".to_vec();
    assert_eq!(mem_available_from_meminfo(&data), Some(3 * 1024));
}

#[test]
fn malformed_values_read_as_zero() {
    // A value that runs into other text does not parse.
    let data = b"MemAvailable: 12ab kB\n".to_vec();
    assert_eq!(mem_available_from_meminfo(&data), Some(0));
    // A line with no value at all.
    let data = b"MemAvailable:\n".to_vec();
    assert_eq!(mem_available_from_meminfo(&data), Some(0));
    // A value too large for sixty-four bits.
    let data = b"MemAvailable: 99999999999999999999999999 kB\n".to_vec();
    assert_eq!(mem_available_from_meminfo(&data), Some(0));
}

#[test]
fn first_matching_line_wins() {
    let data = b"MemAvailable: 5 kB\nMemAvailable: 6 kB\n".to_vec();
    assert_eq!(mem_available_from_meminfo(&data), Some(5 * 1024));
}

#[test]
fn memory_totals_per_platform() {
    assert_eq!(get_memory_total(Platform::Android), 4 * 1024 * 1024 * 1024);
    assert_eq!(get_memory_total(Platform::Ios), 3 * 1024 * 1024 * 1024);
}

#[test]
fn uptime_reads_the_whole_seconds() {
    assert_eq!(get_system_uptime(&b"3600.52 1234.00\n".to_vec()), 3600);
    assert_eq!(get_system_uptime(&b"42".to_vec()), 42);
    assert_eq!(get_system_uptime(&b"0.00 0.00\n".to_vec()), 0);
    assert_eq!(get_system_uptime(&b"abc\n".to_vec()), 0);
    assert_eq!(get_system_uptime(&Vec::new()), 0);
    // A value too large for sixty-four bits reads as zero.
    assert_eq!(get_system_uptime(&b"99999999999999999999999999.0\n".to_vec()), 0);
}

#[test]
fn simulated_sensor_values_stay_in_their_envelopes() {
    for _ in 0..64 {
        let battery = simulate_battery_level();
        assert!((4500..5500).contains(&battery));
        let temperature = simulate_battery_temperature();
        assert!((3500..4500).contains(&temperature));
    }
    assert_eq!(get_cpu_usage(Platform::Android), 5000);
    assert_eq!(get_cpu_usage(Platform::Ios), 4500);
}

#[test]
fn throttling_threshold_is_forty_degrees() {
    assert!(!is_thermal_throttling(4000));
    assert!(is_thermal_throttling(4001));
    assert!(!is_thermal_throttling(0));
    assert!(is_thermal_throttling(5500));
}
