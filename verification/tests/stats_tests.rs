use profiler::stats::classify;
use profiler::stats::RecordKind;
use profiler::stats::TracepointStats;
use profiler::stats::SAMPLE_TYPE_TAG;

#[test]
fn test_tracepoint_stats_default() {
    let stats = TracepointStats::default();
    assert_eq!(stats.total_events, 0);
    assert_eq!(stats.sample_events, 0);
    assert_eq!(stats.non_sample_events, 0);
}

#[test]
fn sample_tag_is_the_one_of_the_capture_format() {
    assert_eq!(SAMPLE_TYPE_TAG, 9);
    assert_eq!(SAMPLE_TYPE_TAG, tracepoint_decode::PerfEventHeaderType::Sample.0);
}

#[test]
fn classify_routes_by_type_tag_alone() {
    assert_eq!(classify(9), RecordKind::Sample);
    assert_eq!(classify(1), RecordKind::NonSample);
    assert_eq!(classify(0), RecordKind::NonSample);
    assert_eq!(classify(10), RecordKind::NonSample);
}

#[test]
fn classify_treats_unknown_tags_as_non_samples() {
    assert_eq!(classify(0xFFFF_FFFF), RecordKind::NonSample);
    assert_eq!(classify(123_456), RecordKind::NonSample);
    assert_eq!(classify(64), RecordKind::NonSample);
}

#[test]
fn record_increments_total_and_one_category() {
    let mut stats = TracepointStats::default();
    stats.record(RecordKind::Sample);
    assert_eq!(stats.total_events, 1);
    assert_eq!(stats.sample_events, 1);
    assert_eq!(stats.non_sample_events, 0);
    stats.record(RecordKind::NonSample);
    stats.record(RecordKind::NonSample);
    assert_eq!(stats.total_events, 3);
    assert_eq!(stats.sample_events, 1);
    assert_eq!(stats.non_sample_events, 2);
    assert_eq!(stats.total_events, stats.sample_events + stats.non_sample_events);
}

#[test]
fn snapshot_is_an_independent_copy() {
    let mut stats = TracepointStats::default();
    stats.record(RecordKind::Sample);
    let copy = stats.snapshot();
    stats.record(RecordKind::NonSample);
    assert_eq!(copy.total_events, 1);
    assert_eq!(copy.sample_events, 1);
    assert_eq!(copy.non_sample_events, 0);
    assert_eq!(stats.total_events, 2);
}

#[test]
fn record_counts_up_to_the_last_representable_value() {
    let mut stats = TracepointStats {
        total_events: u64::MAX - 1,
        sample_events: u64::MAX - 1,
        non_sample_events: 0,
    };
    stats.record(RecordKind::Sample);
    assert_eq!(stats.total_events, u64::MAX);
    assert_eq!(stats.sample_events, u64::MAX);
    assert_eq!(stats.non_sample_events, 0);
}
