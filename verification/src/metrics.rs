//! System-health samples, the append-only metrics history, and the
//! pluggable metrics provider interface.

use vstd::prelude::*;
use crate::config::Platform;
use crate::rng::rand_u64_in_range;

verus! {

/// One raw snapshot as a platform provider hands it over: plain integers,
/// not yet checked for consistency.
#[derive(Clone, Copy, PartialEq, Eq, Structural, Debug)]
pub struct RawSample {
    /// CPU load in hundredths of a percent.
    pub cpu_centi: u32,
    /// Bytes of memory in use.
    pub memory_used: u64,
    /// Bytes of memory installed.
    pub memory_total: u64,
    /// Battery level in hundredths of a percent.
    pub battery_centi: u32,
    /// Battery temperature in hundredths of a degree Celsius.
    pub temperature_centi: u32,
    /// Whether the platform reports thermal throttling.
    pub thermal_throttling: bool,
    /// Seconds since the system booted.
    pub uptime_secs: u64,
}

/// One validated, timestamped snapshot owned by the monitor's history.
#[derive(Clone, Copy, PartialEq, Eq, Structural, Debug)]
pub struct SystemMetricsSample {
    pub cpu_centi: u32,
    pub memory_used: u64,
    pub memory_total: u64,
    pub battery_centi: u32,
    pub temperature_centi: u32,
    pub thermal_throttling: bool,
    pub uptime_secs: u64,
    /// Monotonic tick at which the sample was taken.
    pub timestamp: u64,
}

impl SystemMetricsSample {
    /// What every sample in a history satisfies: memory in use never
    /// exceeds memory installed, and the battery level is a percentage.
    pub open spec fn wf(self) -> bool {
        &&& self.memory_used <= self.memory_total
        &&& self.battery_centi <= 10000
    }

    /// Accepts a raw snapshot exactly when it is internally consistent,
    /// stamping it with the monitor's tick.  An inconsistent snapshot is
    /// rejected rather than recorded.
    pub fn from_raw(raw: &RawSample, timestamp: u64) -> (r: Option<SystemMetricsSample>)
        ensures
            r is Some <==> (raw.memory_used <= raw.memory_total && raw.battery_centi <= 10000),
            r is Some ==> r->0 == (SystemMetricsSample {
                cpu_centi: raw.cpu_centi,
                memory_used: raw.memory_used,
                memory_total: raw.memory_total,
                battery_centi: raw.battery_centi,
                temperature_centi: raw.temperature_centi,
                thermal_throttling: raw.thermal_throttling,
                uptime_secs: raw.uptime_secs,
                timestamp: timestamp,
            }),
            r is Some ==> r->0.wf(),
    {
        if raw.memory_used <= raw.memory_total && raw.battery_centi <= 10000 {
            Some(SystemMetricsSample {
                cpu_centi: raw.cpu_centi,
                memory_used: raw.memory_used,
                memory_total: raw.memory_total,
                battery_centi: raw.battery_centi,
                temperature_centi: raw.temperature_centi,
                thermal_throttling: raw.thermal_throttling,
                uptime_secs: raw.uptime_secs,
                timestamp: timestamp,
            })
        } else {
            None
        }
    }
}

/// The monitor's append-only, timestamp-ordered list of samples.
pub struct MetricsHistory {
    samples: Vec<SystemMetricsSample>,
}

impl View for MetricsHistory {
    type V = Seq<SystemMetricsSample>;

    closed spec fn view(&self) -> Seq<SystemMetricsSample> {
        self.samples@
    }
}

impl MetricsHistory {
    /// Every recorded sample is well formed and timestamps strictly
    /// increase; the length bound keeps aggregate sums inside `u128`.
    pub open spec fn wf(self) -> bool {
        &&& self@.len() <= 0xFFFF_FFFF
        &&& forall|i: int| 0 <= i < self@.len() ==> (#[trigger] self@[i]).wf()
        &&& forall|i: int, j: int|
            0 <= i < j < self@.len()
                ==> (#[trigger] self@[i]).timestamp < (#[trigger] self@[j]).timestamp
    }

    pub fn new() -> (r: MetricsHistory)
        ensures
            r@ =~= Seq::<SystemMetricsSample>::empty(),
            r.wf(),
    {
        MetricsHistory { samples: Vec::new() }
    }

    pub fn len(&self) -> (r: usize)
        ensures
            r == self@.len(),
    {
        self.samples.len()
    }

    pub fn get(&self, i: usize) -> (r: SystemMetricsSample)
        requires
            i < self@.len(),
        ensures
            r == self@[i as int],
    {
        self.samples[i]
    }

    /// Appends one sample; the caller supplies a sample taken after every
    /// sample already recorded.
    pub fn push(&mut self, sample: SystemMetricsSample)
        requires
            old(self).wf(),
            sample.wf(),
            old(self)@.len() < 0xFFFF_FFFF,
            old(self)@.len() > 0 ==> old(self)@.last().timestamp < sample.timestamp,
        ensures
            final(self)@ =~= old(self)@.push(sample),
            final(self).wf(),
    {
        self.samples.push(sample);
    }
}

/// Every sample a well-formed history holds respects the data-model
/// invariants: memory in use never exceeds memory installed, and the
/// battery level lies between 0 and 100 percent.
pub proof fn lemma_history_samples_bounded(h: MetricsHistory)
    requires
        h.wf(),
    ensures
        forall|i: int| 0 <= i < h@.len() ==> (#[trigger] h@[i]).memory_used <= h@[i].memory_total,
        forall|i: int| 0 <= i < h@.len() ==> (#[trigger] h@[i]).battery_centi <= 10000,
{
    assert forall|i: int| 0 <= i < h@.len() implies (#[trigger] h@[i]).memory_used
        <= h@[i].memory_total && h@[i].battery_centi <= 10000 by {
        assert(h@[i].wf());
    }
}

/// Supplies raw system-health snapshots on demand.  Implementations are
/// platform specific and injected into the monitor; the engine treats the
/// values they return as untrusted and validates each one.
pub trait MetricsProvider {
    fn sample(&mut self) -> RawSample;
}

/// A provider that returns the same snapshot on every poll.
pub struct ConstantProvider {
    pub raw: RawSample,
}

impl MetricsProvider for ConstantProvider {
    fn sample(&mut self) -> (r: RawSample)
        ensures
            r == old(self).raw,
            final(self).raw == old(self).raw,
    {
        self.raw
    }
}

/// Bytes of memory installed on the platform's reference device.
pub fn get_memory_total(platform: Platform) -> (r: u64)
    ensures
        platform == Platform::Android ==> r == 4 * 1024 * 1024 * 1024u64,
        platform == Platform::Ios ==> r == 3 * 1024 * 1024 * 1024u64,
{
    match platform {
        Platform::Android => 4 * 1024 * 1024 * 1024,
        Platform::Ios => 3 * 1024 * 1024 * 1024,
    }
}

/// Whether a battery temperature counts as thermal throttling: anything
/// above 40.00 degrees Celsius.
pub fn is_thermal_throttling(temperature_centi: u32) -> (r: bool)
    ensures
        r == (temperature_centi > 4000),
{
    temperature_centi > 4000
}

/// A space or tab.
pub open spec fn is_ws_byte(b: u8) -> bool {
    b == 32 || b == 9
}

/// A byte that ends a whitespace-separated token.
pub open spec fn is_sep_byte(b: u8) -> bool {
    b == 32 || b == 9 || b == 10 || b == 13
}

/// An ASCII decimal digit.
pub open spec fn is_digit_byte(b: u8) -> bool {
    48 <= b <= 57
}

/// The bytes of the label `MemAvailable:`, by position.
pub open spec fn mem_prefix_byte(m: int) -> u8 {
    if m == 0 {
        77
    } else if m == 1 {
        101
    } else if m == 2 {
        109
    } else if m == 3 {
        65
    } else if m == 4 {
        118
    } else if m == 5 {
        97
    } else if m == 6 {
        105
    } else if m == 7 {
        108
    } else if m == 8 {
        97
    } else if m == 9 {
        98
    } else if m == 10 {
        108
    } else if m == 11 {
        101
    } else {
        58
    }
}

/// Whether position `i` begins a line of the buffer.
pub open spec fn line_start(s: Seq<u8>, i: int) -> bool {
    i == 0 || s[i - 1] == 10
}

/// Whether the label `MemAvailable:` stands at the start of a line at
/// position `i`.
pub open spec fn match_at(s: Seq<u8>, i: int) -> bool {
    &&& 0 <= i
    &&& i + 13 <= s.len()
    &&& line_start(s, i)
    &&& forall|m: int| 0 <= m < 13 ==> s[i + m] == mem_prefix_byte(m)
}

/// Whether `i` is the earliest position at which the label matches.
pub open spec fn is_first_match(s: Seq<u8>, i: int) -> bool {
    match_at(s, i) && forall|j: int| 0 <= j < i ==> !match_at(s, j)
}

/// The position of the first byte at or after `j` that is not a space
/// or tab.
pub open spec fn skip_ws_end(s: Seq<u8>, j: int) -> int
    decreases s.len() - j
        when 0 <= j <= s.len()
{
    if j < s.len() && is_ws_byte(s[j]) {
        skip_ws_end(s, j + 1)
    } else {
        j
    }
}

/// The position of the first byte at or after `j` that is not a digit.
pub open spec fn digit_run_end(s: Seq<u8>, j: int) -> int
    decreases s.len() - j
        when 0 <= j <= s.len()
{
    if j < s.len() && is_digit_byte(s[j]) {
        digit_run_end(s, j + 1)
    } else {
        j
    }
}

/// The decimal value of the digits in `[j, k)`.
pub open spec fn digits_value(s: Seq<u8>, j: int, k: int) -> int
    decreases k - j,
{
    if j >= k {
        0
    } else {
        digits_value(s, j, k - 1) * 10 + (s[k - 1] - 48)
    }
}

/// The number of bytes a `MemAvailable:` line at position `i` reports:
/// the kibibyte count after the label (optionally separated by spaces or
/// tabs) times 1024.  A line whose value is missing, runs into other
/// text, or does not fit in a `u64` reports zero.
pub open spec fn spec_line_value(s: Seq<u8>, i: int) -> int {
    let j = skip_ws_end(s, i + 13);
    let k = digit_run_end(s, j);
    if k > j && (k == s.len() || is_sep_byte(s[k])) && digits_value(s, j, k) * 1024
        <= u64::MAX {
        digits_value(s, j, k) * 1024
    } else {
        0
    }
}

proof fn lemma_digits_nonneg(s: Seq<u8>, j: int, k: int)
    requires
        0 <= j,
        forall|m: int| j <= m < k ==> is_digit_byte(#[trigger] s[m]),
    ensures
        digits_value(s, j, k) >= 0,
    decreases k - j,
{
    if j < k {
        lemma_digits_nonneg(s, j, k - 1);
    }
}

proof fn lemma_digits_mono(s: Seq<u8>, j: int, m: int, k: int)
    requires
        0 <= j <= m <= k,
        forall|x: int| j <= x < k ==> is_digit_byte(#[trigger] s[x]),
    ensures
        digits_value(s, j, m) <= digits_value(s, j, k),
    decreases k - m,
{
    if m < k {
        lemma_digits_mono(s, j, m, k - 1);
        lemma_digits_nonneg(s, j, k - 1);
        assert(digits_value(s, j, k - 1) * 10 >= digits_value(s, j, k - 1))
            by (nonlinear_arith)
            requires
                digits_value(s, j, k - 1) >= 0,
        ;
    }
}

/// The byte of the label `MemAvailable:` at position `m`.
fn mem_prefix_byte_at(m: usize) -> (b: u8)
    requires
        m < 13,
    ensures
        b == mem_prefix_byte(m as int),
{
    match m {
        0 => 77,
        1 => 101,
        2 => 109,
        3 => 65,
        4 => 118,
        5 => 97,
        6 => 105,
        7 => 108,
        8 => 97,
        9 => 98,
        10 => 108,
        11 => 101,
        _ => 58,
    }
}

fn skip_ws(data: &Vec<u8>, from: usize) -> (r: usize)
    requires
        from <= data@.len(),
    ensures
        r == skip_ws_end(data@, from as int),
        from <= r <= data@.len(),
{
    let n = data.len();
    let mut j = from;
    while j < n && (data[j] == 32 || data[j] == 9)
        invariant
            from <= j <= n,
            n == data@.len(),
            skip_ws_end(data@, from as int) == skip_ws_end(data@, j as int),
        decreases n - j,
    {
        j = j + 1;
    }
    j
}

fn digit_run(data: &Vec<u8>, from: usize) -> (r: usize)
    requires
        from <= data@.len(),
    ensures
        r == digit_run_end(data@, from as int),
        from <= r <= data@.len(),
{
    let n = data.len();
    let mut j = from;
    while j < n && 48 <= data[j] && data[j] <= 57
        invariant
            from <= j <= n,
            n == data@.len(),
            digit_run_end(data@, from as int) == digit_run_end(data@, j as int),
        decreases n - j,
    {
        j = j + 1;
    }
    j
}

fn parse_digits(data: &Vec<u8>, j: usize, k: usize) -> (r: Option<u64>)
    requires
        j <= k <= data@.len(),
        forall|m: int| j <= m < k ==> is_digit_byte(#[trigger] data@[m]),
    ensures
        r is Some <==> digits_value(data@, j as int, k as int) <= u64::MAX,
        r matches Some(v) ==> v == digits_value(data@, j as int, k as int),
{
    let mut acc: u64 = 0;
    let mut m = j;
    while m < k
        invariant
            j <= m <= k <= data@.len(),
            forall|x: int| j <= x < k ==> is_digit_byte(#[trigger] data@[x]),
            acc == digits_value(data@, j as int, m as int),
        decreases k - m,
    {
        assert(is_digit_byte(data@[m as int]));
        let d = data[m] - 48;
        if acc > (u64::MAX - d as u64) / 10 {
            proof {
                vstd::arithmetic::div_mod::lemma_fundamental_div_mod(
                    u64::MAX - d as u64,
                    10,
                );
                assert(acc * 10 >= ((u64::MAX - d) / 10 + 1) * 10) by (nonlinear_arith)
                    requires
                        acc >= (u64::MAX - d) / 10 + 1,
                ;
                assert(digits_value(data@, j as int, m + 1) > u64::MAX);
                lemma_digits_mono(data@, j as int, m + 1, k as int);
            }
            return None;
        }
        proof {
            vstd::arithmetic::div_mod::lemma_fundamental_div_mod(u64::MAX - d as u64, 10);
            assert(acc * 10 <= ((u64::MAX - d) / 10) * 10) by (nonlinear_arith)
                requires
                    0 <= acc <= (u64::MAX - d) / 10,
            ;
        }
        acc = acc * 10 + d as u64;
        m = m + 1;
    }
    Some(acc)
}

/// Scans a `/proc/meminfo`-style buffer for the first `MemAvailable:`
/// line and reports its value in bytes.  `None` means no such line
/// exists anywhere in the buffer.
pub fn mem_available_from_meminfo(data: &Vec<u8>) -> (r: Option<u64>)
    ensures
        r is None <==> (forall|i: int| !match_at(data@, i)),
        forall|i: int|
            is_first_match(data@, i) ==> r == Some(spec_line_value(data@, i) as u64),
{
    let n = data.len();
    if n < 13 {
        return None;
    }
    let mut i: usize = 0;
    while i <= n - 13
        invariant
            13 <= n == data@.len(),
            i <= n,
            forall|j: int| 0 <= j < i ==> !match_at(data@, j),
        decreases n - i,
    {
        let at_line_start = i == 0 || data[i - 1] == 10;
        if at_line_start {
            let mut m: usize = 0;
            let mut matched = true;
            while m < 13
                invariant
                    m <= 13,
                    i + 13 <= n == data@.len(),
                    line_start(data@, i as int),
                    matched ==> forall|x: int|
                        0 <= x < m ==> data@[i + x] == mem_prefix_byte(x),
                    !matched ==> !match_at(data@, i as int),
                decreases 13 - m,
            {
                if data[i + m] != mem_prefix_byte_at(m) {
                    matched = false;
                }
                m = m + 1;
            }
            if matched {
                proof {
                    assert(match_at(data@, i as int));
                    assert(is_first_match(data@, i as int));
                }
                let j = skip_ws(data, i + 13);
                let k = digit_run(data, j);
                proof {
                    lemma_digit_run_digits(data@, j as int);
                }
                let mut parse_ok = k > j;
                if parse_ok && k < n {
                    let b = data[k];
                    parse_ok = b == 32 || b == 9 || b == 10 || b == 13;
                }
                if parse_ok {
                    match parse_digits(data, j, k) {
                        Some(v) => {
                            if v <= u64::MAX / 1024 {
                                proof {
                                    vstd::arithmetic::div_mod::lemma_fundamental_div_mod(
                                        u64::MAX as int,
                                        1024,
                                    );
                                    assert(v * 1024 <= (u64::MAX / 1024) * 1024)
                                        by (nonlinear_arith)
                                        requires
                                            0 <= v <= u64::MAX / 1024,
                                    ;
                                }
                                return Some(v * 1024);
                            } else {
                                proof {
                                    assert(v * 1024 > u64::MAX) by (nonlinear_arith)
                                        requires
                                            v > u64::MAX / 1024 && v * 1024
                                                > (u64::MAX / 1024) * 1024 + 1023,
                                    ;
                                }
                                return Some(0);
                            }
                        },
                        None => {
                            proof {
                                lemma_digits_nonneg(data@, j as int, k as int);
                                assert(digits_value(data@, j as int, k as int) * 1024
                                    > u64::MAX) by (nonlinear_arith)
                                    requires
                                        digits_value(data@, j as int, k as int) > u64::MAX,
                                ;
                            }
                            return Some(0);
                        },
                    }
                } else {
                    return Some(0);
                }
            }
        }
        i = i + 1;
    }
    proof {
        assert forall|j: int| !match_at(data@, j) by {
            if 0 <= j < i {
            } else {
                assert(j < 0 || j + 13 > n);
            }
        }
    }
    None
}

proof fn lemma_digit_run_digits(s: Seq<u8>, j: int)
    requires
        0 <= j <= s.len(),
    ensures
        forall|m: int| j <= m < digit_run_end(s, j) ==> is_digit_byte(#[trigger] s[m]),
        j <= digit_run_end(s, j) <= s.len(),
    decreases s.len() - j,
{
    if j < s.len() && is_digit_byte(s[j]) {
        lemma_digit_run_digits(s, j + 1);
    }
}

/// The bytes of memory in use that a `/proc/meminfo`-style buffer
/// reports: the first `MemAvailable:` line's value, or 512 MiB when the
/// buffer has no such line.
pub fn get_memory_used(meminfo: &Vec<u8>) -> (r: u64)
    ensures
        (forall|i: int| !match_at(meminfo@, i)) ==> r == 512 * 1024 * 1024,
        forall|i: int|
            is_first_match(meminfo@, i) ==> r == spec_line_value(meminfo@, i) as u64,
{
    match mem_available_from_meminfo(meminfo) {
        Some(v) => v,
        None => 512 * 1024 * 1024,
    }
}

/// The whole seconds since boot that a `/proc/uptime`-style buffer
/// reports: the leading run of digits, read up to the fractional part.
/// A buffer that starts with no digit, or whose value does not fit in a
/// `u64`, reads as zero.
pub fn get_system_uptime(uptime: &Vec<u8>) -> (r: u64)
    ensures
        r == ({
            let k = digit_run_end(uptime@, 0);
            if digits_value(uptime@, 0, k) <= u64::MAX {
                digits_value(uptime@, 0, k)
            } else {
                0
            }
        }),
{
    let k = digit_run(uptime, 0);
    proof {
        lemma_digit_run_digits(uptime@, 0);
    }
    match parse_digits(uptime, 0, k) {
        Some(v) => v,
        None => 0,
    }
}

/// A simulated battery level in centi-percent: 50% plus a jitter of up
/// to five points either way, so always in [45%, 55%).
pub fn simulate_battery_level() -> (r: u32)
    ensures
        4500 <= r < 5500,
{
    4500 + rand_u64_in_range(0, 1000) as u32
}

/// A simulated battery temperature in centi-degrees: 35 degrees Celsius
/// plus up to ten degrees of jitter, so always in [35.00, 45.00).
pub fn simulate_battery_temperature() -> (r: u32)
    ensures
        3500 <= r < 4500,
{
    3500 + rand_u64_in_range(0, 1000) as u32
}

/// The reference CPU load of an otherwise idle device, in centi-percent:
/// 50% on Android, 45% on iOS.
pub fn get_cpu_usage(platform: Platform) -> (r: u32)
    ensures
        platform == Platform::Android ==> r == 5000,
        platform == Platform::Ios ==> r == 4500,
        r <= 10000,
{
    match platform {
        Platform::Android => 5000,
        Platform::Ios => 4500,
    }
}

/// A provider that synthesises plausible snapshots, mirroring a device
/// idling near 50% battery and 35-45 degrees Celsius.  Battery and
/// temperature jitter are drawn fresh on every poll.
pub struct SimulatedProvider {
    pub platform: Platform,
    pub polls: u64,
}

impl SimulatedProvider {
    pub fn new(platform: Platform) -> (r: SimulatedProvider)
        ensures
            r.platform == platform,
            r.polls == 0,
    {
        SimulatedProvider { platform, polls: 0 }
    }
}

impl MetricsProvider for SimulatedProvider {
    fn sample(&mut self) -> (r: RawSample)
        ensures
            4500 <= r.battery_centi < 5500,
            3500 <= r.temperature_centi < 4500,
            old(self).platform == Platform::Android ==> r.cpu_centi == 5000,
            old(self).platform == Platform::Ios ==> r.cpu_centi == 4500,
            r.thermal_throttling == (r.temperature_centi > 4000),
            r.memory_used <= r.memory_total,
            final(self).platform == old(self).platform,
    {
        let battery = simulate_battery_level();
        let temperature = simulate_battery_temperature();
        let cpu = get_cpu_usage(self.platform);
        if self.polls < u64::MAX {
            self.polls = self.polls + 1;
        }
        RawSample {
            cpu_centi: cpu,
            memory_used: 512 * 1024 * 1024,
            memory_total: get_memory_total(self.platform),
            battery_centi: battery,
            temperature_centi: temperature,
            thermal_throttling: is_thermal_throttling(temperature),
            uptime_secs: self.polls,
        }
    }
}

} // verus!
