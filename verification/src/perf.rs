//! Results of the counter-summary and call-chain profiling paths, the
//! table of hardware events, and the decisions that do not touch the
//! counter subsystem itself.

use vstd::prelude::*;

verus! {

/// A hardware performance event that can be monitored.
#[derive(Clone, Copy, Debug)]
pub struct PerfEvent {
    pub name: &'static str,
    pub description: &'static str,
}

/// Number of entries in the table of hardware events.
pub const HARDWARE_EVENT_COUNT: usize = 6;

/// The name of the `index`-th hardware event of the table.
pub open spec fn hardware_event_name(index: int) -> Seq<char> {
    if index == 0 {
        "cpu-cycles"@
    } else if index == 1 {
        "instructions"@
    } else if index == 2 {
        "cache-references"@
    } else if index == 3 {
        "cache-misses"@
    } else if index == 4 {
        "branch-instructions"@
    } else {
        "branch-misses"@
    }
}

/// What the `index`-th hardware event of the table counts.
pub open spec fn hardware_event_description(index: int) -> Seq<char> {
    if index == 0 {
        "Total CPU cycles"@
    } else if index == 1 {
        "Retired instructions"@
    } else if index == 2 {
        "Cache references"@
    } else if index == 3 {
        "Cache misses"@
    } else if index == 4 {
        "Branch instructions"@
    } else {
        "Branch mispredictions"@
    }
}

/// The commonly available hardware performance events, in the order in
/// which they are listed to the user.
pub fn hardware_events() -> (events: Vec<PerfEvent>)
    ensures
        events@.len() == HARDWARE_EVENT_COUNT,
        forall|i: int|
            0 <= i < events@.len() ==> (#[trigger] events@[i]).name@ == hardware_event_name(i)
                && events@[i].description@ == hardware_event_description(i),
{
    let mut events: Vec<PerfEvent> = Vec::new();
    events.push(PerfEvent { name: "cpu-cycles", description: "Total CPU cycles" });
    events.push(PerfEvent { name: "instructions", description: "Retired instructions" });
    events.push(PerfEvent { name: "cache-references", description: "Cache references" });
    events.push(PerfEvent { name: "cache-misses", description: "Cache misses" });
    events.push(PerfEvent { name: "branch-instructions", description: "Branch instructions" });
    events.push(PerfEvent { name: "branch-misses", description: "Branch mispredictions" });
    events
}

/// The two whole numbers of a derived ratio. The denominator is never zero.
#[derive(Clone, Copy, Debug, PartialEq, Eq, Structural)]
pub struct RatioTerms {
    pub numerator: u64,
    pub denominator: u64,
}

/// The terms of `numerator / denominator`, or nothing where the
/// denominator is zero and the ratio is reported as zero by convention.
pub open spec fn ratio_terms(numerator: u64, denominator: u64) -> Option<RatioTerms> {
    if denominator == 0 {
        None
    } else {
        Some(RatioTerms { numerator, denominator })
    }
}

/// Factor that turns the cache miss ratio into a percentage.
pub const CACHE_MISS_RATE_SCALE: u64 = 100;

/// Counter totals of one profiling session.
#[derive(Clone, Copy, Debug)]
pub struct ProfilingResult {
    pub cpu_cycles: u64,
    pub instructions: u64,
    pub cache_references: u64,
    pub cache_misses: u64,
    pub duration_secs: u64,
}

impl ProfilingResult {
    /// Instructions per cycle as `instructions / cpu_cycles`; nothing when
    /// no cycle was counted, whatever the number of instructions.
    pub fn ipc_terms(&self) -> (terms: Option<RatioTerms>)
        ensures
            terms == ratio_terms(self.instructions, self.cpu_cycles),
            terms is None <==> self.cpu_cycles == 0,
    {
        guarded_ratio(self.instructions, self.cpu_cycles)
    }

    /// The cache miss rate as `cache_misses / cache_references`, to be
    /// scaled by `CACHE_MISS_RATE_SCALE` to a percentage; nothing when no
    /// reference was counted.
    pub fn cache_miss_terms(&self) -> (terms: Option<RatioTerms>)
        ensures
            terms == ratio_terms(self.cache_misses, self.cache_references),
            terms is None <==> self.cache_references == 0,
    {
        guarded_ratio(self.cache_misses, self.cache_references)
    }

    /// Cycles per second as `cpu_cycles / duration_secs`; nothing when the
    /// session lasted zero seconds.
    pub fn cycles_per_second_terms(&self) -> (terms: Option<RatioTerms>)
        ensures
            terms == ratio_terms(self.cpu_cycles, self.duration_secs),
            terms is None <==> self.duration_secs == 0,
    {
        guarded_ratio(self.cpu_cycles, self.duration_secs)
    }
}

/// Guards a division: the terms are handed out only for a denominator
/// other than zero.
pub fn guarded_ratio(numerator: u64, denominator: u64) -> (terms: Option<RatioTerms>)
    ensures
        terms == ratio_terms(numerator, denominator),
        terms is Some ==> terms->Some_0.denominator != 0,
{
    if denominator == 0 {
        None
    } else {
        Some(RatioTerms { numerator, denominator })
    }
}

/// Statistics of a profiling session that collected call chains.
#[derive(Clone, Copy, Debug)]
pub struct CallchainProfilingResult {
    /// Total number of samples collected.
    pub sample_count: u64,
    /// Duration of the profiling session in seconds.
    pub duration_secs: u64,
    /// Sampling frequency used, in Hz.
    pub sampling_frequency: u64,
}

impl Default for CallchainProfilingResult {
    /// No samples, no duration, no frequency.
    fn default() -> (result: CallchainProfilingResult)
        ensures
            result.sample_count == 0,
            result.duration_secs == 0,
            result.sampling_frequency == 0,
    {
        CallchainProfilingResult { sample_count: 0, duration_secs: 0, sampling_frequency: 0 }
    }
}

/// Number of pages given to the sampler's ring buffer.
pub const RING_BUFFER_PAGES: usize = 64;

/// Whom a call-chain session is described as profiling.
#[derive(Clone, Copy, Debug, PartialEq, Eq, Structural)]
pub enum ProfilingTarget {
    /// Every process.
    AllProcesses,
    /// The profiler's own process.
    CurrentProcess,
    /// The process with this identifier.
    Process(i32),
}

/// How a process identifier from the command line is described: -1 stands
/// for all processes, 0 for the current one, anything else for itself.
pub open spec fn target_of(pid: i32) -> ProfilingTarget {
    if pid == -1 {
        ProfilingTarget::AllProcesses
    } else if pid == 0 {
        ProfilingTarget::CurrentProcess
    } else {
        ProfilingTarget::Process(pid)
    }
}

/// Describes the target that a process identifier stands for.
pub fn profiling_target(pid: i32) -> (target: ProfilingTarget)
    ensures
        target == target_of(pid),
{
    if pid == -1 {
        ProfilingTarget::AllProcesses
    } else if pid == 0 {
        ProfilingTarget::CurrentProcess
    } else {
        ProfilingTarget::Process(pid)
    }
}

/// The process identifier that the sampling session is restricted to:
/// every identifier from 0 up restricts it, a negative one leaves the
/// session unrestricted.
pub fn target_pid_filter(pid: i32) -> (filter: Option<i32>)
    ensures
        filter == (if pid >= 0 {
            Some(pid)
        } else {
            None
        }),
{
    if pid >= 0 {
        Some(pid)
    } else {
        None
    }
}

} // verus!
