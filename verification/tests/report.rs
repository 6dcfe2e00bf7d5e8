use grpc_load_test::decimal::u64_to_string;
use grpc_load_test::metrics::Metrics;
use grpc_load_test::report::checked_report;
use grpc_load_test::report::compute_report;
use grpc_load_test::report::mean_response_time;
use grpc_load_test::report::report_and_reset;
use grpc_load_test::report::success_rate;

#[test]
fn decimal_rendering_is_exact() {
    assert_eq!(u64_to_string(0), "0");
    assert_eq!(u64_to_string(7), "7");
    assert_eq!(u64_to_string(10), "10");
    assert_eq!(u64_to_string(1234567890), "1234567890");
    assert_eq!(u64_to_string(u64::MAX), "18446744073709551615");
}

#[test]
fn success_rate_with_no_requests_is_100() {
    assert_eq!(success_rate(0, 0), 100);
}

#[test]
fn success_rate_rounds_to_nearest() {
    assert_eq!(success_rate(1, 3), 33);
    assert_eq!(success_rate(2, 3), 67);
    assert_eq!(success_rate(1, 2), 50);
    assert_eq!(success_rate(0, 5), 0);
    assert_eq!(success_rate(5, 5), 100);
    assert_eq!(success_rate(999, 1000), 100);
    assert_eq!(success_rate(994, 1000), 99);
}

#[test]
fn mean_response_time_with_no_samples_is_0() {
    assert_eq!(mean_response_time(0, 0), 0);
    assert_eq!(mean_response_time(12345, 0), 0);
}

#[test]
fn mean_response_time_rounds_half_up() {
    assert_eq!(mean_response_time(5, 2), 3);
    assert_eq!(mean_response_time(7, 3), 2);
    assert_eq!(mean_response_time(60, 3), 20);
    assert_eq!(mean_response_time(0, 4), 0);
}

#[test]
fn report_copies_totals_and_derives_statistics() {
    let m = Metrics {
        request_count: 10,
        success_count: 8,
        error_count: 2,
        windowed_latency_ms: 90,
        windowed_sample_count: 4,
    };
    let rep = compute_report(&m);
    assert_eq!(rep.request_count, 10);
    assert_eq!(rep.success_count, 8);
    assert_eq!(rep.error_count, 2);
    assert_eq!(rep.success_rate, 80);
    assert_eq!(rep.requests_per_second, 4);
    assert_eq!(rep.mean_response_time_ms, 23);
}

#[test]
fn torn_snapshot_yields_no_report() {
    let torn = Metrics {
        request_count: 3,
        success_count: 4,
        error_count: 0,
        windowed_latency_ms: 0,
        windowed_sample_count: 0,
    };
    assert!(checked_report(&torn).is_none());
    let sound = Metrics {
        request_count: 4,
        success_count: 4,
        error_count: 0,
        windowed_latency_ms: 0,
        windowed_sample_count: 0,
    };
    assert!(checked_report(&sound).is_some());
}

#[test]
fn reporter_tick_drains_only_the_window() {
    let mut m = Metrics::new();
    m.record_request();
    m.record_success(100);
    m.record_request();
    m.record_error();
    let rep = report_and_reset(&mut m);
    assert_eq!(rep.request_count, 2);
    assert_eq!(rep.success_count, 1);
    assert_eq!(rep.error_count, 1);
    assert_eq!(rep.success_rate, 50);
    assert_eq!(rep.requests_per_second, 1);
    assert_eq!(rep.mean_response_time_ms, 100);
    assert_eq!(m.windowed_latency_ms, 0);
    assert_eq!(m.windowed_sample_count, 0);
    assert_eq!(m.request_count, 2);
    assert_eq!(m.success_count, 1);
    assert_eq!(m.error_count, 1);
}

#[test]
fn summary_line_is_exact() {
    let m = Metrics {
        request_count: 10,
        success_count: 8,
        error_count: 2,
        windowed_latency_ms: 90,
        windowed_sample_count: 4,
    };
    let rep = compute_report(&m);
    assert_eq!(
        rep.summary_line(),
        "Total: 10; Success: 8; Error: 2; Success rate: 80%; Requests/s: 4; Response time: 23ms"
    );
}
