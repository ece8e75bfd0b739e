//! Immutable stress-test configuration and its validation.

use vstd::prelude::*;

verus! {

/// The platforms the stress engine ships defaults for.
#[derive(Clone, Copy, PartialEq, Eq, Structural, Debug)]
pub enum Platform {
    Android,
    Ios,
}

/// Immutable configuration for one stress run.
///
/// Percentages are in hundredths of a percent (`6000` is 60%), temperatures
/// in hundredths of a degree Celsius (`4500` is 45.0 C), and the tolerance
/// factor in percent (`150` is a 1.5x hard multiplier).  Durations are
/// counted in virtual ticks; the harness that drives the engine decides how
/// long a tick lasts on the wall clock.
#[derive(Clone, Copy, PartialEq, Eq, Structural, Debug)]
pub struct StressTestConfig {
    pub test_duration_ticks: u64,
    pub max_cpu_centi: u32,
    pub max_memory_mb: u64,
    pub max_threads: usize,
    pub max_file_size_mb: u64,
    pub max_open_files: usize,
    pub max_battery_drain_centi: u32,
    pub max_temperature_centi: u32,
    pub tolerance_pct: u32,
    pub enable_throttling_protection: bool,
}

/// Why a configuration was rejected before any work started.
#[derive(Clone, Copy, PartialEq, Eq, Structural, Debug)]
pub enum ConfigError {
    ZeroDuration,
    ZeroThreads,
    NoWorkloads,
    LimitOutOfRange,
}

impl StressTestConfig {
    /// Bounds that keep every threshold comparison inside machine integers.
    pub open spec fn limits_in_range(self) -> bool {
        &&& self.test_duration_ticks <= 0xFFFF_FFFE
        &&& self.max_cpu_centi <= 1_000_000
        &&& self.max_memory_mb <= 0x1_0000_0000
        &&& self.max_temperature_centi <= 1_000_000
        &&& 100 <= self.tolerance_pct <= 10_000
    }

    /// A configuration the engine accepts.
    pub open spec fn valid(self) -> bool {
        &&& self.test_duration_ticks > 0
        &&& self.max_threads > 0
        &&& self.limits_in_range()
    }

    /// The built-in defaults for one platform.
    pub fn default_for(platform: Platform) -> (r: StressTestConfig)
        ensures
            r == Self::spec_default_for(platform),
            r.valid(),
    {
        match platform {
            Platform::Android => StressTestConfig {
                test_duration_ticks: 60,
                max_cpu_centi: 6000,
                max_memory_mb: 200,
                max_threads: 50,
                max_file_size_mb: 100,
                max_open_files: 200,
                max_battery_drain_centi: 50,
                max_temperature_centi: 4500,
                tolerance_pct: 150,
                enable_throttling_protection: true,
            },
            Platform::Ios => StressTestConfig {
                test_duration_ticks: 60,
                max_cpu_centi: 5000,
                max_memory_mb: 150,
                max_threads: 30,
                max_file_size_mb: 50,
                max_open_files: 100,
                max_battery_drain_centi: 50,
                max_temperature_centi: 4500,
                tolerance_pct: 150,
                enable_throttling_protection: true,
            },
        }
    }

    /// What `default_for` returns, as a spec-level value.
    pub open spec fn spec_default_for(platform: Platform) -> StressTestConfig {
        match platform {
            Platform::Android => StressTestConfig {
                test_duration_ticks: 60,
                max_cpu_centi: 6000,
                max_memory_mb: 200,
                max_threads: 50,
                max_file_size_mb: 100,
                max_open_files: 200,
                max_battery_drain_centi: 50,
                max_temperature_centi: 4500,
                tolerance_pct: 150,
                enable_throttling_protection: true,
            },
            Platform::Ios => StressTestConfig {
                test_duration_ticks: 60,
                max_cpu_centi: 5000,
                max_memory_mb: 150,
                max_threads: 30,
                max_file_size_mb: 50,
                max_open_files: 100,
                max_battery_drain_centi: 50,
                max_temperature_centi: 4500,
                tolerance_pct: 150,
                enable_throttling_protection: true,
            },
        }
    }

    /// The error `validate` reports for an invalid configuration, the
    /// checks applied in order: duration, threads, limit ranges.
    pub open spec fn spec_validate_error(self) -> ConfigError {
        if self.test_duration_ticks == 0 {
            ConfigError::ZeroDuration
        } else if self.max_threads == 0 {
            ConfigError::ZeroThreads
        } else {
            ConfigError::LimitOutOfRange
        }
    }

    /// Rejects a configuration that would let the run start in a state the
    /// engine cannot honour: a run of zero ticks, a thread budget of zero,
    /// or limits outside the range the integer arithmetic supports.
    pub fn validate(&self) -> (r: Result<(), ConfigError>)
        ensures
            r is Ok <==> self.valid(),
            r is Err ==> r == Err::<(), ConfigError>(self.spec_validate_error()),
            r == Err::<(), ConfigError>(ConfigError::ZeroDuration) <==> self.test_duration_ticks == 0,
            r == Err::<(), ConfigError>(ConfigError::ZeroThreads)
                <==> (self.test_duration_ticks > 0 && self.max_threads == 0),
            r == Err::<(), ConfigError>(ConfigError::LimitOutOfRange)
                <==> (self.test_duration_ticks > 0 && self.max_threads > 0
                    && !self.limits_in_range()),
    {
        if self.test_duration_ticks == 0 {
            Err(ConfigError::ZeroDuration)
        } else if self.max_threads == 0 {
            Err(ConfigError::ZeroThreads)
        } else if !(self.test_duration_ticks <= 0xFFFF_FFFE
            && self.max_cpu_centi <= 1_000_000
            && self.max_memory_mb <= 0x1_0000_0000
            && self.max_temperature_centi <= 1_000_000
            && 100 <= self.tolerance_pct && self.tolerance_pct <= 10_000)
        {
            Err(ConfigError::LimitOutOfRange)
        } else {
            Ok(())
        }
    }
}

impl Default for StressTestConfig {
    /// The Android defaults, the primary target platform.
    fn default() -> (r: StressTestConfig)
        ensures
            r == StressTestConfig::spec_default_for(Platform::Android),
            r.valid(),
    {
        StressTestConfig::default_for(Platform::Android)
    }
}

} // verus!
