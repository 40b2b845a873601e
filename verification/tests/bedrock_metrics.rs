use universal_bot::bedrock::metrics::{
    elapsed_seconds, ratio, AtomicMetrics, BedrockMetrics, HealthStatus,
};

#[test]
fn test_metrics_creation() {
    let metrics = BedrockMetrics::new();
    assert_eq!(metrics.total_requests, 0);
    assert_eq!(metrics.success_rate(), 0);
    assert_eq!(metrics.average_latency_ms(), 0);
}

#[test]
fn test_metrics_recording() {
    let mut metrics = BedrockMetrics::new();

    metrics.record_success("test-model", 100, 50, 25, 10_000_000);
    assert_eq!(metrics.total_requests, 1);
    assert_eq!(metrics.successful_requests, 1);
    assert_eq!(metrics.total_latency_ms, 100);
    assert_eq!(metrics.total_tokens(), 75);
    assert_eq!(metrics.success_rate(), 100_000);

    metrics.record_failure("test-model", "timeout", 200);
    assert_eq!(metrics.total_requests, 2);
    assert_eq!(metrics.failed_requests, 1);
    assert_eq!(metrics.success_rate(), 50_000);
}

#[test]
fn test_atomic_metrics() {
    let mut metrics = AtomicMetrics::new();

    metrics.start_request();
    let snapshot1 = metrics.snapshot();
    assert_eq!(snapshot1.total_requests, 1);
    assert_eq!(snapshot1.active_requests, 1);

    metrics.complete_success(100, 50, 25);
    let snapshot2 = metrics.snapshot();
    assert_eq!(snapshot2.active_requests, 0);
    assert_eq!(snapshot2.success_rate, 100_000);
}

#[test]
fn test_metrics_summary() {
    let mut metrics = BedrockMetrics::new();
    metrics.record_success("model1", 100, 50, 25, 10_000_000);
    metrics.record_success("model2", 150, 75, 30, 15_000_000);

    let summary = metrics.summary();
    assert_eq!(summary.total_requests, 2);
    assert_eq!(summary.success_rate, 100_000);
    assert_eq!(summary.total_tokens, 180);
    assert_eq!(summary.total_cost_nanos, 25_000_000);
}

#[test]
fn test_most_used_model() {
    let mut metrics = BedrockMetrics::new();
    metrics.record_success("model1", 100, 50, 25, 10_000_000);
    metrics.record_success("model1", 100, 50, 25, 10_000_000);
    metrics.record_success("model2", 100, 50, 25, 10_000_000);

    let (model, count) = metrics.most_used_model().unwrap();
    assert_eq!(model, "model1");
    assert_eq!(count, 2);
}

#[test]
fn rates_are_zero_on_a_zero_denominator() {
    let metrics = BedrockMetrics::default();
    assert_eq!(metrics.success_rate(), 0);
    assert_eq!(metrics.average_latency_ms(), 0);
    assert_eq!(metrics.average_tokens_per_request(), 0);
    assert_eq!(metrics.cost_per_token(), 0);
    assert_eq!(metrics.requests_per_second_at(metrics.start_time_ms), 0);
    assert_eq!(metrics.requests_per_second_at(metrics.start_time_ms + 999), 0);
    assert_eq!(metrics.requests_per_second_at(metrics.start_time_ms - 5000), 0);
    assert!(metrics.most_used_model().is_none());
    assert!(metrics.most_common_error().is_none());
    assert_eq!(ratio(100, 1, 0), 0);
    assert_eq!(ratio(100, 1, 3), 33);
    assert_eq!(ratio(u64::MAX, u64::MAX, 1), u64::MAX);
    assert_eq!(elapsed_seconds(1000, 3999), 2);
    assert_eq!(elapsed_seconds(3999, 1000), 0);
}

#[test]
fn derived_values_follow_the_counters() {
    let mut metrics = BedrockMetrics::new();
    metrics.record_success("a", 100, 1000, 500, 9_000_000);
    metrics.record_success("b", 200, 0, 0, 0);
    metrics.record_failure("a", "timeout", 300);
    metrics.record_failure("a", "timeout", 0);
    metrics.record_failure("b", "throttled", 0);
    assert_eq!(metrics.total_requests, 5);
    assert_eq!(metrics.successful_requests, 2);
    assert_eq!(metrics.failed_requests, 3);
    assert_eq!(metrics.success_rate(), 40_000);
    assert_eq!(metrics.average_latency_ms(), 120_000);
    assert_eq!(metrics.total_tokens(), 1500);
    assert_eq!(metrics.average_tokens_per_request(), 300_000);
    assert_eq!(metrics.cost_per_token(), 6_000_000);
    assert_eq!(metrics.requests_per_second_at(metrics.start_time_ms + 2500), 2500);
    assert_eq!(metrics.requests_by_model.get("a"), Some(&3));
    assert_eq!(metrics.requests_by_model.get("b"), Some(&2));
    assert_eq!(metrics.errors_by_type.get("timeout"), Some(&2));
    let (model, count) = metrics.most_used_model().unwrap();
    assert_eq!((model.as_str(), count), ("a", 3));
    let (kind, count) = metrics.most_common_error().unwrap();
    assert_eq!((kind.as_str(), count), ("timeout", 2));
    let summary = metrics.summary_at(metrics.start_time_ms + 10_000);
    assert_eq!(summary.uptime_seconds, 10);
    assert_eq!(summary.requests_per_second, 500);
    assert_eq!(summary.average_latency_ms, 120_000);
    assert_eq!(summary.active_requests, 0);
    metrics.reset();
    assert_eq!(metrics.total_requests, 0);
    assert_eq!(metrics.total_cost_nanos, 0);
    assert!(metrics.requests_by_model.is_empty());
    assert!(metrics.errors_by_type.is_empty());
}

#[test]
fn every_started_request_ends_one_way_or_the_other() {
    let mut metrics = AtomicMetrics::default();
    let successes = 7u64;
    let failures = 3u64;
    for _ in 0..(successes + failures) {
        metrics.start_request();
    }
    assert_eq!(metrics.active_requests(), 10);
    for i in 0..successes {
        metrics.complete_success(10 * i, 2, 3);
    }
    for _ in 0..failures {
        metrics.complete_failure(5);
    }
    let s = metrics.snapshot_at(0);
    assert_eq!(s.total_requests, successes + failures);
    assert_eq!(s.success_rate, 100_000 * successes / (successes + failures));
    assert_eq!(s.success_rate, 70_000);
    assert_eq!(s.active_requests, 0);
    assert_eq!(s.total_tokens, 35);
    assert_eq!(s.average_latency_ms, 22_500);
    assert_eq!(s.total_cost_nanos, 0);
    let empty = AtomicMetrics::new().snapshot();
    assert_eq!(empty.success_rate, 0);
    assert_eq!(empty.total_requests, 0);
    assert_eq!(empty.active_requests, 0);
}

#[test]
fn health_status_reports_the_probe() {
    let ok = HealthStatus::from_probe(None, 12, 99);
    assert!(ok.healthy);
    assert_eq!(ok.latency_ms, 12);
    assert!(ok.error.is_none());
    assert_eq!(ok.timestamp_ms, 99);
    let bad = HealthStatus::from_probe(Some("down".to_string()), 7, 100);
    assert!(!bad.healthy);
    assert_eq!(bad.error.as_deref(), Some("down"));
}

#[test]
fn a_completion_without_a_start_leaves_no_request_active() {
    let mut metrics = AtomicMetrics::new();
    metrics.complete_success(100, 50, 25);
    assert_eq!(metrics.active_requests(), 0);
    let snapshot = metrics.snapshot();
    assert_eq!(snapshot.active_requests, 0);
    assert_eq!(snapshot.total_requests, 0);
    assert_eq!(snapshot.total_tokens, 75);
    metrics.complete_failure(7);
    assert_eq!(metrics.active_requests(), 0);
    metrics.start_request();
    assert_eq!(metrics.active_requests(), 1);
    metrics.complete_failure(7);
    assert_eq!(metrics.active_requests(), 0);
    assert_eq!(metrics.snapshot().total_requests, 1);
}

#[test]
fn rates_are_kept_to_the_thousandth() {
    let mut metrics = AtomicMetrics::new();
    for _ in 0..3 {
        metrics.start_request();
    }
    metrics.complete_success(10, 0, 0);
    metrics.complete_failure(10);
    metrics.complete_failure(12);
    let origin = metrics.snapshot_at(0).uptime_seconds;
    assert_eq!(origin, 0);
    let s = metrics.snapshot_at(i64::MAX);
    // One success in three is 33.333 percent.
    assert_eq!(s.success_rate, 33_333);
    // Thirty-two milliseconds over three requests are 10.666 each.
    assert_eq!(s.average_latency_ms, 10_666);
    let mut slow = BedrockMetrics::new();
    slow.record_success("m", 1, 1, 1, 1);
    // One request in two seconds is half a request per second.
    assert_eq!(slow.requests_per_second_at(slow.start_time_ms + 2000), 500);
    assert_eq!(slow.requests_per_second_at(slow.start_time_ms + 2999), 500);
    assert_eq!(slow.requests_per_second_at(slow.start_time_ms + 3000), 333);
}
