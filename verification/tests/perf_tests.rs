use profiler::perf::guarded_ratio;
use profiler::perf::hardware_events;
use profiler::perf::profiling_target;
use profiler::perf::target_pid_filter;
use profiler::perf::CallchainProfilingResult;
use profiler::perf::ProfilingResult;
use profiler::perf::ProfilingTarget;
use profiler::perf::RatioTerms;
use profiler::perf::CACHE_MISS_RATE_SCALE;
use profiler::perf::HARDWARE_EVENT_COUNT;
use profiler::perf::RING_BUFFER_PAGES;

fn result(cycles: u64, instructions: u64, refs: u64, misses: u64, secs: u64) -> ProfilingResult {
    ProfilingResult {
        cpu_cycles: cycles,
        instructions,
        cache_references: refs,
        cache_misses: misses,
        duration_secs: secs,
    }
}

fn as_float(terms: Option<RatioTerms>) -> f64 {
    match terms {
        Some(t) => t.numerator as f64 / t.denominator as f64,
        None => 0.0,
    }
}

fn ipc(result: &ProfilingResult) -> f64 {
    as_float(result.ipc_terms())
}

fn cache_miss_rate(result: &ProfilingResult) -> f64 {
    as_float(result.cache_miss_terms()) * CACHE_MISS_RATE_SCALE as f64
}

fn cycles_per_second(result: &ProfilingResult) -> f64 {
    as_float(result.cycles_per_second_terms())
}

#[test]
fn test_profiling_result_ipc() {
    let result = ProfilingResult {
        cpu_cycles: 1000,
        instructions: 500,
        cache_references: 100,
        cache_misses: 10,
        duration_secs: 1,
    };
    assert!((ipc(&result) - 0.5).abs() < f64::EPSILON);
}

#[test]
fn test_profiling_result_ipc_zero_cycles() {
    let result = ProfilingResult {
        cpu_cycles: 0,
        instructions: 500,
        cache_references: 100,
        cache_misses: 10,
        duration_secs: 1,
    };
    assert!((ipc(&result) - 0.0).abs() < f64::EPSILON);
}

#[test]
fn test_profiling_result_cache_miss_rate() {
    let result = ProfilingResult {
        cpu_cycles: 1000,
        instructions: 500,
        cache_references: 100,
        cache_misses: 10,
        duration_secs: 1,
    };
    assert!((cache_miss_rate(&result) - 10.0).abs() < f64::EPSILON);
}

#[test]
fn test_profiling_result_cache_miss_rate_zero_refs() {
    let result = ProfilingResult {
        cpu_cycles: 1000,
        instructions: 500,
        cache_references: 0,
        cache_misses: 10,
        duration_secs: 1,
    };
    assert!((cache_miss_rate(&result) - 0.0).abs() < f64::EPSILON);
}

#[test]
fn test_profiling_result_cycles_per_second() {
    let result = ProfilingResult {
        cpu_cycles: 1000,
        instructions: 500,
        cache_references: 100,
        cache_misses: 10,
        duration_secs: 2,
    };
    assert!((cycles_per_second(&result) - 500.0).abs() < f64::EPSILON);
}

#[test]
fn test_profiling_result_cycles_per_second_zero_duration() {
    let result = ProfilingResult {
        cpu_cycles: 1000,
        instructions: 500,
        cache_references: 100,
        cache_misses: 10,
        duration_secs: 0,
    };
    assert!((cycles_per_second(&result) - 0.0).abs() < f64::EPSILON);
}

#[test]
fn hardware_event_table_lists_six_events_in_order() {
    let events = hardware_events();
    assert_eq!(events.len(), 6);
    assert_eq!(events.len(), HARDWARE_EVENT_COUNT);
    assert_eq!(events[0].name, "cpu-cycles");
    assert_eq!(events[0].description, "Total CPU cycles");
    assert_eq!(events[1].name, "instructions");
    assert_eq!(events[1].description, "Retired instructions");
    assert_eq!(events[2].name, "cache-references");
    assert_eq!(events[2].description, "Cache references");
    assert_eq!(events[3].name, "cache-misses");
    assert_eq!(events[3].description, "Cache misses");
    assert_eq!(events[4].name, "branch-instructions");
    assert_eq!(events[4].description, "Branch instructions");
    assert_eq!(events[5].name, "branch-misses");
    assert_eq!(events[5].description, "Branch mispredictions");
}

#[test]
fn ipc_terms_for_known_counts() {
    let r = result(1000, 500, 100, 10, 1);
    assert_eq!(r.ipc_terms(), Some(RatioTerms { numerator: 500, denominator: 1000 }));
    assert!((as_float(r.ipc_terms()) - 0.5).abs() < f64::EPSILON);
}

#[test]
fn ipc_terms_without_cycles() {
    let r = result(0, 500, 100, 10, 1);
    assert_eq!(r.ipc_terms(), None);
    assert!((as_float(r.ipc_terms()) - 0.0).abs() < f64::EPSILON);
    assert_eq!(result(0, 0, 0, 0, 0).ipc_terms(), None);
    assert_eq!(result(0, u64::MAX, 1, 1, 1).ipc_terms(), None);
}

#[test]
fn cache_miss_terms_for_known_counts() {
    let r = result(1000, 500, 100, 10, 1);
    assert_eq!(r.cache_miss_terms(), Some(RatioTerms { numerator: 10, denominator: 100 }));
    assert!((cache_miss_rate(&r) - 10.0).abs() < f64::EPSILON);
}

#[test]
fn cache_miss_terms_without_references() {
    let r = result(1000, 500, 0, 10, 1);
    assert_eq!(r.cache_miss_terms(), None);
    assert!((cache_miss_rate(&r) - 0.0).abs() < f64::EPSILON);
    assert_eq!(result(1, 1, 0, 0, 1).cache_miss_terms(), None);
}

#[test]
fn cycles_per_second_terms_for_known_counts() {
    let r = result(1000, 500, 100, 10, 2);
    assert_eq!(r.cycles_per_second_terms(), Some(RatioTerms { numerator: 1000, denominator: 2 }));
    assert!((as_float(r.cycles_per_second_terms()) - 500.0).abs() < f64::EPSILON);
}

#[test]
fn cycles_per_second_terms_without_duration() {
    let r = result(1000, 500, 100, 10, 0);
    assert_eq!(r.cycles_per_second_terms(), None);
    assert!((as_float(r.cycles_per_second_terms()) - 0.0).abs() < f64::EPSILON);
    assert_eq!(result(0, 500, 100, 10, 0).cycles_per_second_terms(), None);
}

#[test]
fn zero_numerator_still_has_terms() {
    assert_eq!(guarded_ratio(0, 7), Some(RatioTerms { numerator: 0, denominator: 7 }));
    assert_eq!(guarded_ratio(7, 0), None);
    assert_eq!(guarded_ratio(0, 0), None);
    assert_eq!(
        guarded_ratio(u64::MAX, u64::MAX),
        Some(RatioTerms { numerator: u64::MAX, denominator: u64::MAX })
    );
}

#[test]
fn callchain_result_default_is_zero() {
    let r = CallchainProfilingResult::default();
    assert_eq!(r.sample_count, 0);
    assert_eq!(r.duration_secs, 0);
    assert_eq!(r.sampling_frequency, 0);
}

#[test]
fn profiling_target_names_all_current_or_a_process() {
    assert_eq!(profiling_target(-1), ProfilingTarget::AllProcesses);
    assert_eq!(profiling_target(0), ProfilingTarget::CurrentProcess);
    assert_eq!(profiling_target(4242), ProfilingTarget::Process(4242));
    assert_eq!(profiling_target(-2), ProfilingTarget::Process(-2));
    assert_eq!(profiling_target(i32::MAX), ProfilingTarget::Process(i32::MAX));
    assert_eq!(profiling_target(i32::MIN), ProfilingTarget::Process(i32::MIN));
}

#[test]
fn pid_filter_is_set_from_zero_up() {
    assert_eq!(target_pid_filter(-1), None);
    assert_eq!(target_pid_filter(-2), None);
    assert_eq!(target_pid_filter(i32::MIN), None);
    assert_eq!(target_pid_filter(0), Some(0));
    assert_eq!(target_pid_filter(1), Some(1));
    assert_eq!(target_pid_filter(i32::MAX), Some(i32::MAX));
}

#[test]
fn ring_buffer_has_sixty_four_pages() {
    assert_eq!(RING_BUFFER_PAGES, 64);
}

#[test]
fn cache_miss_rate_is_scaled_to_per_cent() {
    assert_eq!(CACHE_MISS_RATE_SCALE, 100);
}
