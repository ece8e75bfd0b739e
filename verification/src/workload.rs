//! Workload generators and the state they share: the one-way stop flag,
//! the monotonic operation counter, and the scratch-directory ledger.

use vstd::prelude::*;
use crate::rng::rand_u64_in_range;

verus! {

/// The cooperative cancellation signal.  The only transition offered is
/// `raise`, so once the flag is up it can never go down again.
#[derive(Clone, Copy, PartialEq, Eq, Structural, Debug)]
pub struct StopFlag {
    raised: bool,
}

impl StopFlag {
    pub closed spec fn is_up(self) -> bool {
        self.raised
    }

    pub fn new() -> (r: StopFlag)
        ensures
            !r.is_up(),
    {
        StopFlag { raised: false }
    }

    /// Signals every generator to wind down.  Raising an already-raised
    /// flag is a no-op; the flag never returns to the down state.
    pub fn raise(&mut self)
        ensures
            final(self).is_up(),
    {
        self.raised = true;
    }

    pub fn is_raised(&self) -> (r: bool)
        ensures
            r == self.is_up(),
    {
        self.raised
    }
}

/// The shared operation counter.  Additions saturate at `u64::MAX`, so the
/// recorded count never decreases.
#[derive(Clone, Copy, PartialEq, Eq, Structural, Debug)]
pub struct OpCounter {
    count: u64,
}

impl OpCounter {
    pub closed spec fn total(self) -> u64 {
        self.count
    }

    pub fn new() -> (r: OpCounter)
        ensures
            r.total() == 0,
    {
        OpCounter { count: 0 }
    }

    pub fn get(&self) -> (r: u64)
        ensures
            r == self.total(),
    {
        self.count
    }

    /// Records `n` completed operations.  The counter is monotonically
    /// non-decreasing: the new total is the old total plus `n`, saturating
    /// at `u64::MAX`.
    pub fn add(&mut self, n: u64)
        ensures
            final(self).total() == if old(self).total() + n <= u64::MAX {
                old(self).total() + n
            } else {
                u64::MAX as int
            },
            final(self).total() >= old(self).total(),
    {
        if u64::MAX - self.count >= n {
            self.count = self.count + n;
        } else {
            self.count = u64::MAX;
        }
    }
}

/// The ledger of files a filesystem workload has created in the run's
/// scratch directory and not yet removed.  The view is the sequence of
/// live file ids, oldest first.
pub struct ScratchDir {
    files: Vec<u64>,
}

impl View for ScratchDir {
    type V = Seq<u64>;

    closed spec fn view(&self) -> Seq<u64> {
        self.files@
    }
}

impl ScratchDir {
    pub fn new() -> (r: ScratchDir)
        ensures
            r@ =~= Seq::<u64>::empty(),
    {
        ScratchDir { files: Vec::new() }
    }

    pub fn live_count(&self) -> (r: usize)
        ensures
            r == self@.len(),
    {
        self.files.len()
    }

    /// Records one created file.
    pub fn create_file(&mut self, id: u64)
        requires
            old(self)@.len() < usize::MAX,
        ensures
            final(self)@ =~= old(self)@.push(id),
    {
        self.files.push(id);
    }

    /// Removes the most recently created file, if any remains.
    pub fn remove_last(&mut self) -> (r: Option<u64>)
        ensures
            old(self)@.len() == 0 ==> r is None && final(self)@ =~= old(self)@,
            old(self)@.len() > 0 ==> r == Some(old(self)@.last())
                && final(self)@ =~= old(self)@.drop_last(),
    {
        self.files.pop()
    }

    /// Removes every remaining file.  Cleanup is idempotent: after it the
    /// ledger is empty, and a second call finds nothing to remove and
    /// leaves the ledger exactly as it was.
    pub fn cleanup(&mut self)
        ensures
            final(self)@ =~= Seq::<u64>::empty(),
            old(self)@.len() == 0 ==> final(self)@ =~= old(self)@,
    {
        self.files.clear();
    }
}

/// The shared mutable state of one run: the stop flag (written once by the
/// orchestrator, read by every generator) and the operation counter
/// (written by every generator, read by the reporter).
pub struct SharedRunState {
    pub stop: StopFlag,
    pub ops: OpCounter,
}

impl SharedRunState {
    pub fn new() -> (r: SharedRunState)
        ensures
            !r.stop.is_up(),
            r.ops.total() == 0,
    {
        SharedRunState { stop: StopFlag::new(), ops: OpCounter::new() }
    }
}

/// The kinds of synthetic load the engine can generate.
#[derive(Clone, Copy, PartialEq, Eq, Structural, Debug)]
pub enum WorkloadKind {
    CpuMath,
    MemoryChurn,
    FilesystemChurn,
    LockContention,
    BusyYield,
    NetworkSimulated,
    GpuSimulated,
    Multimedia,
}

/// A named, weighted unit of synthetic load.  The weight steers how many
/// of the orchestrator's threads the descriptor receives.
#[derive(Clone, Copy, PartialEq, Eq, Structural, Debug)]
pub struct WorkloadDescriptor {
    pub kind: WorkloadKind,
    pub weight: u64,
}

impl WorkloadDescriptor {
    /// A descriptor the orchestrator accepts: a weight of at least one.
    pub open spec fn wf(self) -> bool {
        1 <= self.weight <= 1000
    }

    /// The descriptor's display name.
    pub fn name(&self) -> (r: &'static str)
        ensures
            self.kind == WorkloadKind::CpuMath ==> r@ == "cpu_math"@,
            self.kind == WorkloadKind::MemoryChurn ==> r@ == "memory_churn"@,
            self.kind == WorkloadKind::FilesystemChurn ==> r@ == "filesystem_churn"@,
            self.kind == WorkloadKind::LockContention ==> r@ == "lock_contention"@,
            self.kind == WorkloadKind::BusyYield ==> r@ == "busy_yield"@,
            self.kind == WorkloadKind::NetworkSimulated ==> r@ == "network_simulated"@,
            self.kind == WorkloadKind::GpuSimulated ==> r@ == "gpu_simulated"@,
            self.kind == WorkloadKind::Multimedia ==> r@ == "multimedia"@,
    {
        match self.kind {
            WorkloadKind::CpuMath => "cpu_math",
            WorkloadKind::MemoryChurn => "memory_churn",
            WorkloadKind::FilesystemChurn => "filesystem_churn",
            WorkloadKind::LockContention => "lock_contention",
            WorkloadKind::BusyYield => "busy_yield",
            WorkloadKind::NetworkSimulated => "network_simulated",
            WorkloadKind::GpuSimulated => "gpu_simulated",
            WorkloadKind::Multimedia => "multimedia",
        }
    }

    pub fn new(kind: WorkloadKind, weight: u64) -> (r: WorkloadDescriptor)
        requires
            1 <= weight <= 1000,
        ensures
            r.kind == kind,
            r.weight == weight,
            r.wf(),
    {
        WorkloadDescriptor { kind, weight }
    }
}

/// The value of the CPU-math kernel after `n` rounds: a wrapping sum of
/// squares.
pub open spec fn spec_cpu_work(n: nat) -> u64
    decreases n,
{
    if n == 0 {
        0u64
    } else {
        vstd::wrapping::u64_specs::wrapping_add(
            spec_cpu_work((n - 1) as nat),
            vstd::wrapping::u64_specs::wrapping_mul((n - 1) as u64, (n - 1) as u64),
        )
    }
}

/// One bounded unit of CPU-bound work: `units` rounds of wrapping
/// square-and-accumulate arithmetic.
pub fn cpu_math_iteration(units: u64) -> (r: u64)
    ensures
        r == spec_cpu_work(units as nat),
{
    let mut acc: u64 = 0;
    let mut i: u64 = 0;
    while i < units
        invariant
            i <= units,
            acc == spec_cpu_work(i as nat),
        decreases units - i,
    {
        acc = acc.wrapping_add(i.wrapping_mul(i));
        i = i + 1;
    }
    acc
}

/// The fixed CPU-bound kernel the thermal and comprehensive workloads
/// run: ten thousand rounds of square-and-accumulate.
pub fn heavy_computation() -> (r: u64)
    ensures
        r == spec_cpu_work(10000),
{
    cpu_math_iteration(10000)
}

/// Runs the CPU-bound kernel `iterations` times and reports how many
/// load units completed.  The caller bounds the work; wall-clock pacing
/// is the harness's business.
pub fn generate_thermal_load(iterations: u64) -> (r: u64)
    ensures
        r == iterations,
{
    let mut done: u64 = 0;
    while done < iterations
        invariant
            done <= iterations,
        decreases iterations - done,
    {
        let _ = heavy_computation();
        done = done + 1;
    }
    done
}

/// One allocation/free cycle: builds a buffer of `size` bytes and drops
/// it on return, so no storage outlives the call.
pub fn memory_churn_iteration(size: usize) -> (r: usize)
    ensures
        r == size,
{
    let buffer: Vec<u8> = vec![0u8; size];
    buffer.len()
}

/// A ten-megabyte probe allocation used to gauge how quickly the system
/// absorbs memory pressure; the buffer is released before returning.
pub fn measure_pressure_response(alloc_bytes: usize) -> (r: usize)
    ensures
        r == alloc_bytes,
{
    memory_churn_iteration(alloc_bytes)
}

/// One filesystem-churn step: either records a freshly created scratch
/// file (never beyond `max_live` live files) or removes the most recent
/// one.  The choice and the file id are drawn from the process random
/// number generator.  Whenever the ledger holds a file, the step always
/// performs work: only an empty ledger can come through unchanged.
pub fn filesystem_churn_iteration(scratch: &mut ScratchDir, max_live: usize)
    requires
        old(scratch)@.len() <= max_live,
        max_live < usize::MAX,
    ensures
        final(scratch)@.len() <= max_live,
        (old(scratch)@.len() == 0 && final(scratch)@ =~= old(scratch)@)
            || (old(scratch)@.len() < max_live
                && exists|id: u64| final(scratch)@ =~= old(scratch)@.push(id))
            || (old(scratch)@.len() > 0 && final(scratch)@ =~= old(scratch)@.drop_last()),
{
    let coin = rand_u64_in_range(0, 2);
    if coin == 0 && scratch.live_count() < max_live {
        let id = rand_u64_in_range(0, 0x1_0000_0000);
        scratch.create_file(id);
        proof {
            assert(final(scratch)@ =~= old(scratch)@.push(id));
        }
    } else {
        let _ = scratch.remove_last();
    }
}

/// The shared counter value after `rounds` wrapping increments.
pub open spec fn spec_lock_work(start: u64, rounds: nat) -> u64
    decreases rounds,
{
    if rounds == 0 {
        start
    } else {
        vstd::wrapping::u64_specs::wrapping_add(spec_lock_work(start, (rounds - 1) as nat), 1u64)
    }
}

/// Increment batches compose: two bouts of wrapping increments equal one
/// bout of their combined length.
pub proof fn lemma_lock_work_compose(start: u64, a: nat, b: nat)
    ensures
        spec_lock_work(spec_lock_work(start, a), b) == spec_lock_work(start, a + b),
    decreases b,
{
    if b > 0 {
        lemma_lock_work_compose(start, a, (b - 1) as nat);
    }
}

/// One lock-contention step on the workload's private counter: `rounds`
/// wrapping increments, as the contending sub-threads perform together.
pub fn lock_contention_iteration(counter: &mut u64, rounds: u64)
    ensures
        *final(counter) == spec_lock_work(*old(counter), rounds as nat),
{
    let mut i: u64 = 0;
    while i < rounds
        invariant
            i <= rounds,
            *counter == spec_lock_work(*old(counter), i as nat),
        decreases rounds - i,
    {
        *counter = counter.wrapping_add(1);
        i = i + 1;
    }
}

/// How many of the first `n` simulated HTTP requests succeed: every
/// request whose index is not a multiple of ten.
pub open spec fn spec_http_success_count(n: nat) -> nat
    decreases n,
{
    if n == 0 {
        0
    } else {
        spec_http_success_count((n - 1) as nat) + if (n - 1) % 10 != 0 {
            1nat
        } else {
            0nat
        }
    }
}

/// Counts the successes among `count` simulated HTTP requests: one in
/// every ten (the indices divisible by ten) fails.
pub fn test_http_requests(count: usize) -> (r: usize)
    ensures
        r == spec_http_success_count(count as nat),
{
    let mut successes: usize = 0;
    let mut i: usize = 0;
    while i < count
        invariant
            i <= count,
            successes == spec_http_success_count(i as nat),
            successes <= i,
        decreases count - i,
    {
        if i % 10 != 0 {
            successes = successes + 1;
        }
        i = i + 1;
    }
    successes
}

/// Drives `rounds` batches of five simulated HTTP requests and reports
/// the total number of successes: four per batch.
pub fn simulate_network_traffic(rounds: u64) -> (r: u64)
    requires
        rounds <= 0x1000_0000_0000_0000,
    ensures
        r == 4 * rounds,
{
    proof {
        reveal_with_fuel(spec_http_success_count, 6);
        assert(spec_http_success_count(5) == 4);
    }
    let mut total: u64 = 0;
    let mut round: u64 = 0;
    while round < rounds
        invariant
            round <= rounds,
            rounds <= 0x1000_0000_0000_0000,
            total == 4 * round,
            spec_http_success_count(5) == 4,
        decreases rounds - round,
    {
        let batch = test_http_requests(5);
        total = total + batch as u64;
        round = round + 1;
    }
    total
}

/// The number of bytes a simulated download transfers to reach
/// `target_bytes`: whole chunks of 64 KiB, so the smallest multiple of
/// the chunk size at or above the target.
pub fn simulate_data_download(target_bytes: u64) -> (r: u64)
    requires
        target_bytes <= u64::MAX - 65536,
    ensures
        r % 65536 == 0,
        target_bytes <= r < target_bytes + 65536,
{
    let mut downloaded: u64 = 0;
    while downloaded < target_bytes
        invariant
            downloaded % 65536 == 0,
            downloaded < target_bytes + 65536,
            target_bytes <= u64::MAX - 65536,
        decreases target_bytes + 65536 - downloaded,
    {
        downloaded = downloaded + 65536;
    }
    downloaded
}

/// The draw-call batch one simulated GPU frame issues: a thousand
/// triangles, five hundred textured quads, and two hundred compute
/// dispatches.
pub fn gpu_frame_ops() -> (r: u64)
    ensures
        r == 1700,
{
    1000 + 500 + 200
}

/// Simulated GPU memory in use: a whole number of mebibytes between 50
/// (inclusive) and 200 (exclusive), drawn from the process random number
/// generator.
pub fn get_gpu_memory_usage() -> (r: u64)
    ensures
        50 * 1048576 <= r < 200 * 1048576,
        r % 1048576 == 0,
{
    let mib = rand_u64_in_range(50, 200);
    mib * 1048576
}

/// Captures `target_frames` simulated camera frames at the given
/// resolution, allocating and releasing one RGB frame buffer per frame.
/// Every requested frame is captured.
pub fn capture_camera_frames(width: u32, height: u32, target_frames: u32) -> (r: u32)
    requires
        width <= 3840,
        height <= 2160,
        target_frames >= 1,
    ensures
        r == target_frames,
{
    proof {
        assert((width as int) * (height as int) * 3 <= 24_883_200) by (nonlinear_arith)
            requires
                width <= 3840 && height <= 2160,
        ;
    }
    let frame_size = (width as usize) * (height as usize) * 3;
    let mut frames: u32 = 0;
    while frames < target_frames
        invariant
            frames <= target_frames,
            frame_size == width * height * 3,
        decreases target_frames - frames,
    {
        let _ = memory_churn_iteration(frame_size);
        frames = frames + 1;
    }
    frames
}

/// Records simulated audio: exactly `sample_rate * duration_secs`
/// samples per channel, accumulated `channels` samples at a time.
pub fn record_audio(sample_rate: u32, channels: u32, duration_secs: u64) -> (r: u64)
    requires
        1 <= sample_rate <= 200_000,
        channels <= 8,
        duration_secs <= 100_000,
    ensures
        r == sample_rate * duration_secs * channels,
{
    proof {
        assert((sample_rate as int) * (duration_secs as int) <= 20_000_000_000) by (nonlinear_arith)
            requires
                sample_rate <= 200_000 && duration_secs <= 100_000,
        ;
        assert((sample_rate as int) * (duration_secs as int) * (channels as int)
            <= 160_000_000_000) by (nonlinear_arith)
            requires
                sample_rate <= 200_000 && duration_secs <= 100_000 && channels <= 8,
        ;
    }
    let per_channel: u64 = (sample_rate as u64) * duration_secs;
    let needed: u64 = per_channel * (channels as u64);
    let mut samples: u64 = 0;
    let mut rounds: u64 = 0;
    while rounds < per_channel
        invariant
            rounds <= per_channel,
            samples == rounds * (channels as u64),
            needed == per_channel * (channels as u64),
            per_channel <= 20_000_000_000,
            channels <= 8,
        decreases per_channel - rounds,
    {
        proof {
            assert((rounds + 1) * (channels as u64) == rounds * (channels as u64) + (
            channels as u64)) by (nonlinear_arith);
            assert((rounds + 1) * (channels as u64) <= per_channel * (channels as u64))
                by (nonlinear_arith)
                requires
                    rounds < per_channel,
            ;
        }
        samples = samples + channels as u64;
        rounds = rounds + 1;
    }
    proof {
        assert(per_channel * (channels as u64) == (sample_rate as u64) * duration_secs * (
        channels as u64)) by (nonlinear_arith)
            requires
                per_channel == (sample_rate as u64) * duration_secs,
        ;
    }
    samples
}

/// The most scratch files a filesystem workload keeps alive at once.
pub const MAX_SCRATCH_FILES: usize = 64;

/// One cooperative pass of a generator: the stop flag is consulted at the
/// iteration boundary, then at most `max_iterations` bounded units of the
/// kind's synthetic work run, each recording one completed operation.
///
/// Bounded-latency cancellation: a raised stop flag means the pass
/// performs no work at all, so a generator never runs longer than one
/// iteration budget past the stop signal.
pub fn run_generator(
    kind: WorkloadKind,
    stop: &StopFlag,
    ops: &mut OpCounter,
    scratch: &mut ScratchDir,
    lock_counter: &mut u64,
    max_iterations: u64,
) -> (done: u64)
    requires
        old(scratch)@.len() <= MAX_SCRATCH_FILES,
    ensures
        done <= max_iterations,
        stop.is_up() ==> done == 0,
        !stop.is_up() ==> done == max_iterations,
        final(ops).total() == if old(ops).total() + done <= u64::MAX {
            old(ops).total() + done
        } else {
            u64::MAX as int
        },
        final(ops).total() >= old(ops).total(),
        final(scratch)@.len() <= MAX_SCRATCH_FILES,
        done == 0 ==> final(scratch)@ =~= old(scratch)@ && *final(lock_counter) == *old(
            lock_counter,
        ) && final(ops).total() == old(ops).total(),
        kind != WorkloadKind::FilesystemChurn ==> final(scratch)@ =~= old(scratch)@,
        kind == WorkloadKind::LockContention ==> *final(lock_counter) == spec_lock_work(
            *old(lock_counter),
            (5 * done) as nat,
        ),
        kind != WorkloadKind::LockContention ==> *final(lock_counter) == *old(lock_counter),
{
    if stop.is_raised() {
        return 0;
    }
    let mut done: u64 = 0;
    while done < max_iterations
        invariant
            done <= max_iterations,
            ops.total() == if old(ops).total() + done <= u64::MAX {
                old(ops).total() + done
            } else {
                u64::MAX as int
            },
            scratch@.len() <= MAX_SCRATCH_FILES,
            kind != WorkloadKind::FilesystemChurn ==> scratch@ =~= old(scratch)@,
            kind == WorkloadKind::LockContention ==> *lock_counter == spec_lock_work(
                *old(lock_counter),
                (5 * done) as nat,
            ),
            kind != WorkloadKind::LockContention ==> *lock_counter == *old(lock_counter),
            done == 0 ==> scratch@ =~= old(scratch)@ && *lock_counter == *old(lock_counter)
                && ops.total() == old(ops).total(),
        decreases max_iterations - done,
    {
        match kind {
            WorkloadKind::CpuMath => {
                let _ = cpu_math_iteration(1000);
            },
            WorkloadKind::MemoryChurn => {
                let size = rand_u64_in_range(1024, 1024 * 1024);
                let _ = memory_churn_iteration(size as usize);
            },
            WorkloadKind::FilesystemChurn => {
                filesystem_churn_iteration(scratch, MAX_SCRATCH_FILES);
            },
            WorkloadKind::LockContention => {
                proof {
                    lemma_lock_work_compose(*old(lock_counter), (5 * done) as nat, 5);
                }
                lock_contention_iteration(lock_counter, 5);
            },
            WorkloadKind::BusyYield => {},
            WorkloadKind::NetworkSimulated => {
                let _ = test_http_requests(5);
            },
            WorkloadKind::GpuSimulated => {
                let _ = gpu_frame_ops();
            },
            WorkloadKind::Multimedia => {
                let _ = memory_churn_iteration(640 * 480 * 3);
            },
        }
        ops.add(1);
        done = done + 1;
    }
    done
}

/// The power-consumption modes the efficiency workload can emulate.
#[derive(Clone, Copy, PartialEq, Eq, Structural, Debug)]
pub enum PowerMode {
    Idle,
    LightUi,
    HeavyComputation,
    GpsNavigation,
    VideoPlayback,
    Other,
}

/// The nominal CPU load of one power mode, in centi-percent.
pub open spec fn nominal_cpu_centi(mode: PowerMode) -> u32 {
    match mode {
        PowerMode::Idle => 200,
        PowerMode::LightUi => 1500,
        PowerMode::HeavyComputation => 6000,
        PowerMode::GpsNavigation => 3000,
        PowerMode::VideoPlayback => 4000,
        PowerMode::Other => 1000,
    }
}

/// Emulates one power mode for `work_units` bounded units and reports
/// the mode's nominal CPU load in centi-percent.  The heavy-computation
/// mode runs the arithmetic kernel; video playback churns one decoded
/// frame buffer per unit, releasing each before the next; the remaining
/// modes are idle waits that the harness paces.
pub fn simulate_workload(mode: PowerMode, work_units: u64) -> (r: u32)
    ensures
        r == nominal_cpu_centi(mode),
{
    let mut unit: u64 = 0;
    while unit < work_units
        invariant
            unit <= work_units,
        decreases work_units - unit,
    {
        match mode {
            PowerMode::HeavyComputation => {
                let _ = cpu_math_iteration(1000);
            },
            PowerMode::VideoPlayback => {
                let _ = memory_churn_iteration(1920 * 1080 / 10 * 4);
            },
            PowerMode::LightUi => {
                let _ = cpu_math_iteration(1);
            },
            _ => {},
        }
        unit = unit + 1;
    }
    match mode {
        PowerMode::Idle => 200,
        PowerMode::LightUi => 1500,
        PowerMode::HeavyComputation => 6000,
        PowerMode::GpsNavigation => 3000,
        PowerMode::VideoPlayback => 4000,
        PowerMode::Other => 1000,
    }
}

} // verus!
