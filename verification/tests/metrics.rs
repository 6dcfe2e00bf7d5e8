use grpc_load_test::metrics::CallOutcome;
use grpc_load_test::metrics::Metrics;
use grpc_load_test::metrics::record_run;

#[test]
fn new_metrics_start_at_zero() {
    let m = Metrics::new();
    assert_eq!(m.request_count, 0);
    assert_eq!(m.success_count, 0);
    assert_eq!(m.error_count, 0);
    assert_eq!(m.windowed_latency_ms, 0);
    assert_eq!(m.windowed_sample_count, 0);
}

#[test]
fn recording_updates_the_right_counters() {
    let mut m = Metrics::new();
    m.record_request();
    assert_eq!(m.request_count, 1);
    m.record_success(25);
    assert_eq!(m.success_count, 1);
    assert_eq!(m.windowed_latency_ms, 25);
    assert_eq!(m.windowed_sample_count, 1);
    m.record_request();
    m.record_error();
    assert_eq!(m.request_count, 2);
    assert_eq!(m.error_count, 1);
    // a failure touches neither the success counter nor the window
    assert_eq!(m.success_count, 1);
    assert_eq!(m.windowed_latency_ms, 25);
    assert_eq!(m.windowed_sample_count, 1);
}

#[test]
fn counters_never_decrease() {
    let mut m = Metrics::new();
    let mut last = (0u64, 0u64, 0u64);
    let steps: Vec<CallOutcome> = vec![
        CallOutcome::Success { elapsed_ms: 3 },
        CallOutcome::Failure { msg: String::from("status: Unavailable") },
        CallOutcome::Success { elapsed_ms: 8 },
    ];
    for o in steps {
        m.record_request();
        m.record_outcome(&o);
        let now = (m.request_count, m.success_count, m.error_count);
        assert!(now.0 >= last.0 && now.1 >= last.1 && now.2 >= last.2);
        last = now;
    }
    // the reset of the window leaves the lifetime counters alone
    m.reset_window();
    assert_eq!((m.request_count, m.success_count, m.error_count), last);
}

#[test]
fn window_reset_zeroes_only_the_window() {
    let mut m = Metrics::new();
    m.record_request();
    m.record_success(40);
    m.record_request();
    m.record_success(20);
    assert_eq!(m.windowed_latency_ms, 60);
    assert_eq!(m.windowed_sample_count, 2);
    m.reset_window();
    assert_eq!(m.windowed_latency_ms, 0);
    assert_eq!(m.windowed_sample_count, 0);
    assert_eq!(m.request_count, 2);
    assert_eq!(m.success_count, 2);
    // between resets the window only grows
    m.record_request();
    m.record_success(7);
    assert_eq!(m.windowed_latency_ms, 7);
    assert_eq!(m.windowed_sample_count, 1);
}

#[test]
fn completed_run_balances_the_books() {
    let mut m = Metrics::new();
    let outcomes: Vec<CallOutcome> = vec![
        CallOutcome::Success { elapsed_ms: 10 },
        CallOutcome::Failure { msg: String::from("transport error") },
        CallOutcome::Success { elapsed_ms: 30 },
        CallOutcome::Failure { msg: String::from("status: Internal") },
        CallOutcome::Success { elapsed_ms: 5 },
    ];
    record_run(&mut m, &outcomes);
    assert_eq!(m.request_count, 5);
    assert_eq!(m.success_count, 3);
    assert_eq!(m.error_count, 2);
    assert_eq!(m.success_count + m.error_count, m.request_count);
    assert_eq!(m.windowed_latency_ms, 45);
    assert_eq!(m.windowed_sample_count, 3);
}
