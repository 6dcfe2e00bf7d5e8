//! The shared handles drive the real atomic counters; with a single thread
//! their readings are deterministic, so these tests hold the trusted
//! wrappers to what the verified callers expect of them.

use std::sync::Arc;

use grpc_load_test::metrics::CallOutcome;
use grpc_load_test::shared::SharedMetrics;
use grpc_load_test::shared::SharedShutdown;

#[test]
fn shared_counters_accumulate_what_was_recorded() {
    let sm = SharedMetrics::new();
    sm.record_request();
    sm.record_request();
    sm.record_request();
    sm.record_success(40);
    sm.record_success(20);
    sm.record_error();
    let snap = sm.snapshot();
    assert_eq!(snap.request_count, 3);
    assert_eq!(snap.success_count, 2);
    assert_eq!(snap.error_count, 1);
    assert_eq!(snap.windowed_latency_ms, 60);
    assert_eq!(snap.windowed_sample_count, 2);
}

#[test]
fn shared_outcome_dispatch_matches_the_model() {
    let sm = SharedMetrics::new();
    sm.record_request();
    sm.record_outcome(&CallOutcome::Success { elapsed_ms: 9 });
    sm.record_request();
    sm.record_outcome(&CallOutcome::Failure { msg: String::from("status: Unavailable") });
    let snap = sm.snapshot();
    assert_eq!(snap.request_count, 2);
    assert_eq!(snap.success_count, 1);
    assert_eq!(snap.error_count, 1);
    assert_eq!(snap.windowed_latency_ms, 9);
    assert_eq!(snap.windowed_sample_count, 1);
}

#[test]
fn reporter_tick_reports_and_drains_the_shared_window() {
    let sm = SharedMetrics::new();
    sm.record_request();
    sm.record_success(100);
    sm.record_request();
    sm.record_error();
    let (snap, rep) = sm.reporter_tick();
    assert_eq!(snap.request_count, 2);
    let rep = rep.expect("a coherent snapshot yields a report");
    assert_eq!(rep.request_count, 2);
    assert_eq!(rep.success_count, 1);
    assert_eq!(rep.error_count, 1);
    assert_eq!(rep.success_rate, 50);
    assert_eq!(rep.requests_per_second, 1);
    assert_eq!(rep.mean_response_time_ms, 100);
    // the tick drained the window and left the lifetime counters alone
    let after = sm.snapshot();
    assert_eq!(after.windowed_latency_ms, 0);
    assert_eq!(after.windowed_sample_count, 0);
    assert_eq!(after.request_count, 2);
    assert_eq!(after.success_count, 1);
    assert_eq!(after.error_count, 1);
}

#[test]
fn shared_shutdown_is_sticky_and_idempotent() {
    let flag = SharedShutdown::new();
    assert!(!flag.is_requested());
    flag.request();
    assert!(flag.is_requested());
    flag.request();
    assert!(flag.is_requested());
}

#[test]
fn handles_are_shared_across_tasks_by_cloning_an_arc() {
    let sm = Arc::new(SharedMetrics::new());
    let flag = Arc::new(SharedShutdown::new());
    let sm2 = sm.clone();
    let flag2 = flag.clone();
    sm2.record_request();
    sm2.record_success(5);
    flag2.request();
    // the clones share the same counters
    let snap = sm.snapshot();
    assert_eq!(snap.request_count, 1);
    assert_eq!(snap.success_count, 1);
    assert!(flag.is_requested());
}
