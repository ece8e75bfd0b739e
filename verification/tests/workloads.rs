use test_os::workload::{
    capture_camera_frames, cpu_math_iteration, generate_thermal_load, get_gpu_memory_usage,
    gpu_frame_ops, heavy_computation, lock_contention_iteration, measure_pressure_response,
    memory_churn_iteration, record_audio, simulate_data_download, simulate_network_traffic,
    simulate_workload, test_http_requests, PowerMode,
};

#[test]
fn cpu_kernel_is_the_wrapping_square_sum() {
    let mut expected: u64 = 0;
    for i in 0u64..10_000 {
        expected = expected.wrapping_add(i.wrapping_mul(i));
    }
    assert_eq!(heavy_computation(), expected);
    assert_eq!(cpu_math_iteration(10_000), expected);
    assert_eq!(cpu_math_iteration(0), 0);
    assert_eq!(cpu_math_iteration(3), 0 + 1 + 4);
}

#[test]
fn thermal_load_reports_completed_units() {
    assert_eq!(generate_thermal_load(0), 0);
    assert_eq!(generate_thermal_load(5), 5);
}

#[test]
fn http_request_batches_fail_one_in_ten() {
    assert_eq!(test_http_requests(0), 0);
    assert_eq!(test_http_requests(5), 4);
    assert_eq!(test_http_requests(10), 9);
    assert_eq!(test_http_requests(100), 90);
}

#[test]
fn network_traffic_counts_four_successes_per_batch() {
    assert_eq!(simulate_network_traffic(0), 0);
    assert_eq!(simulate_network_traffic(3), 12);
}

#[test]
fn downloads_complete_in_whole_chunks() {
    assert_eq!(simulate_data_download(0), 0);
    assert_eq!(simulate_data_download(1), 65_536);
    assert_eq!(simulate_data_download(65_536), 65_536);
    assert_eq!(simulate_data_download(100_000), 131_072);
}

#[test]
fn audio_recording_returns_exact_sample_count() {
    assert_eq!(record_audio(8_000, 2, 2), 32_000);
    assert_eq!(record_audio(44_100, 2, 1), 88_200);
    assert_eq!(record_audio(48_000, 1, 3), 144_000);
    // A zero-channel recording yields no samples.
    assert_eq!(record_audio(8_000, 0, 2), 0);
}

#[test]
fn camera_capture_delivers_every_frame() {
    assert_eq!(capture_camera_frames(640, 480, 30), 30);
    assert_eq!(capture_camera_frames(64, 48, 1), 1);
}

#[test]
fn memory_churn_allocates_exactly_the_requested_bytes() {
    assert_eq!(memory_churn_iteration(0), 0);
    assert_eq!(memory_churn_iteration(1024), 1024);
    assert_eq!(measure_pressure_response(10 * 1024 * 1024), 10 * 1024 * 1024);
}

#[test]
fn lock_contention_wraps_the_shared_counter() {
    let mut counter = 0u64;
    lock_contention_iteration(&mut counter, 5);
    assert_eq!(counter, 5);
    let mut counter = u64::MAX;
    lock_contention_iteration(&mut counter, 3);
    assert_eq!(counter, 2);
}

#[test]
fn gpu_frame_issues_the_full_draw_batch() {
    assert_eq!(gpu_frame_ops(), 1700);
    for _ in 0..32 {
        let mem = get_gpu_memory_usage();
        assert!(mem >= 50 * 1024 * 1024);
        assert!(mem < 200 * 1024 * 1024);
        assert_eq!(mem % (1024 * 1024), 0);
    }
}

#[test]
fn power_modes_report_their_nominal_cpu_load() {
    assert_eq!(simulate_workload(PowerMode::Idle, 1), 200);
    assert_eq!(simulate_workload(PowerMode::LightUi, 1), 1500);
    assert_eq!(simulate_workload(PowerMode::HeavyComputation, 2), 6000);
    assert_eq!(simulate_workload(PowerMode::GpsNavigation, 1), 3000);
    assert_eq!(simulate_workload(PowerMode::VideoPlayback, 2), 4000);
    assert_eq!(simulate_workload(PowerMode::Other, 1), 1000);
}

#[test]
fn test_multimedia_stress() {
    println!("=== MULTIMEDIA STRESS TEST ===");

    let camera_resolutions = vec![(640, 480), (1280, 720), (1920, 1080), (3840, 2160)];

    for (width, height) in camera_resolutions {
        let frames = capture_camera_frames(width, height, 30);
        println!("Camera {}x{}: {} frames", width, height, frames);
        assert!(frames >= 25, "Camera too slow: {} fps at {}x{}", frames, width, height);
    }

    let audio_configs = vec![(8000, 1), (44100, 2), (48000, 2)];

    for (sample_rate, channels) in audio_configs {
        let samples = record_audio(sample_rate, channels, 2);
        println!("Audio {}Hz/{}ch: {} samples", sample_rate, channels, samples);
        assert!(
            samples >= sample_rate as u64 * 2 / 10 * 8,
            "Audio recording too slow at {}Hz",
            sample_rate
        );
    }

    println!("✓ Multimedia stress test completed");
}

#[test]
fn allocation_analysis_reports_total_and_peak() {
    let sizes = vec![1024usize, 64 * 1024, 256 * 1024, 512];
    let (total, largest) = test_os::report::analyze_allocation_patterns(&sizes);
    assert_eq!(total, 1024 + 64 * 1024 + 256 * 1024 + 512);
    assert_eq!(largest, 256 * 1024);
    let (total, largest) = test_os::report::analyze_allocation_patterns(&Vec::new());
    assert_eq!(total, 0);
    assert_eq!(largest, 0);
}
