//! What the reporter computes each interval: derived statistics over the
//! shared counters, and the draining of the windowed accumulators.

use vstd::prelude::*;
use vstd::arithmetic::div_mod::lemma_div_is_ordered;
use vstd::arithmetic::div_mod::lemma_div_multiples_vanish_fancy;
use crate::decimal::dec_rep;
use crate::decimal::u64_to_string;
use crate::metrics::Metrics;

verus! {

/// `a / b` rounded to the nearest integer, halves rounding up.
pub open spec fn rounded_div(a: int, b: int) -> int
    recommends
        b >= 1,
{
    (2 * a + b) / (2 * b)
}

/// Percentage of issued requests that succeeded, rounded; with no requests
/// yet there is vacuously nothing that failed, so the rate is 100.
pub open spec fn success_rate_of(success: int, request: int) -> int {
    if request == 0 {
        100
    } else {
        rounded_div(100 * success, request)
    }
}

/// Mean response time over the current window, rounded; 0 when the window
/// holds no samples.
pub open spec fn mean_response_time_of(latency_sum: int, sample_count: int) -> int {
    if sample_count == 0 {
        0
    } else {
        rounded_div(latency_sum, sample_count)
    }
}

/// Rounded success percentage. Never a division error: a zero request count
/// yields 100.
pub fn success_rate(success: u64, request: u64) -> (rate: u64)
    requires
        success <= request,
    ensures
        rate == success_rate_of(success as int, request as int),
        rate <= 100,
{
    if request == 0 {
        100
    } else {
        let num: u128 = 200u128 * (success as u128) + (request as u128);
        let den: u128 = 2u128 * (request as u128);
        let q: u128 = num / den;
        proof {
            let s = success as int;
            let r = request as int;
            assert(num as int == 2 * (100 * s) + r);
            assert(den as int == 2 * r);
            assert(2 * (100 * s) + r <= (2 * r) * 100 + (2 * r - 1));
            lemma_div_is_ordered(2 * (100 * s) + r, (2 * r) * 100 + (2 * r - 1), 2 * r);
            lemma_div_multiples_vanish_fancy(100, 2 * r - 1, 2 * r);
        }
        q as u64
    }
}

/// Rounded mean response time. Never a division error: an empty window
/// yields 0.
pub fn mean_response_time(latency_sum: u64, sample_count: u64) -> (mean: u64)
    ensures
        mean == mean_response_time_of(latency_sum as int, sample_count as int),
        mean <= latency_sum,
    {
    if sample_count == 0 {
        0
    } else {
        let num: u128 = 2u128 * (latency_sum as u128) + (sample_count as u128);
        let den: u128 = 2u128 * (sample_count as u128);
        let q: u128 = num / den;
        proof {
            let a = latency_sum as int;
            let c = sample_count as int;
            assert(num as int == 2 * a + c);
            assert(den as int == 2 * c);
            assert((2 * c) * a + (2 * c - 1) >= 2 * a + c) by (nonlinear_arith)
                requires
                    c >= 1,
                    a >= 0,
            ;
            lemma_div_is_ordered(2 * a + c, (2 * c) * a + (2 * c - 1), 2 * c);
            lemma_div_multiples_vanish_fancy(a, 2 * c - 1, 2 * c);
        }
        q as u64
    }
}

/// One periodic summary: the lifetime totals together with the derived
/// statistics of the window that is about to be drained.
pub struct Report {
    pub request_count: u64,
    pub success_count: u64,
    pub error_count: u64,
    pub success_rate: u64,
    pub requests_per_second: u64,
    pub mean_response_time_ms: u64,
}

impl Report {
    /// The fields a report must show for the metrics it was computed from:
    /// totals copied through, the rounded success rate, the window's sample
    /// count as the completions of the last interval, and the rounded mean
    /// response time of the window.
    pub open spec fn describes(self, m: Metrics) -> bool {
        &&& self.request_count == m.request_count
        &&& self.success_count == m.success_count
        &&& self.error_count == m.error_count
        &&& self.success_rate == success_rate_of(m.success_count as int, m.request_count as int)
        &&& self.requests_per_second == m.windowed_sample_count
        &&& self.mean_response_time_ms == mean_response_time_of(
            m.windowed_latency_ms as int,
            m.windowed_sample_count as int,
        )
    }
}

/// Compute one report from a metrics snapshot.
pub fn compute_report(m: &Metrics) -> (rep: Report)
    requires
        m.success_count <= m.request_count,
    ensures
        rep.describes(*m),
{
    Report {
        request_count: m.request_count,
        success_count: m.success_count,
        error_count: m.error_count,
        success_rate: success_rate(m.success_count, m.request_count),
        requests_per_second: m.windowed_sample_count,
        mean_response_time_ms: mean_response_time(m.windowed_latency_ms, m.windowed_sample_count),
    }
}

/// Compute one report if the snapshot is coherent. A reader sampling
/// independently updated counters can observe a torn snapshot in which
/// successes momentarily outnumber requests; such a snapshot yields `None`
/// and the caller skips the tick.
pub fn checked_report(m: &Metrics) -> (rep: Option<Report>)
    ensures
        rep is Some <==> m.success_count <= m.request_count,
        rep matches Some(r) ==> r.describes(*m),
{
    if m.success_count <= m.request_count {
        Some(compute_report(m))
    } else {
        None
    }
}

/// One reporter tick on the metrics: compute the report, then drain the
/// window. Lifetime totals are untouched; both windowed accumulators return
/// to zero.
pub fn report_and_reset(m: &mut Metrics) -> (rep: Report)
    requires
        old(m).success_count <= old(m).request_count,
    ensures
        rep.describes(*old(m)),
        final(m).request_count == old(m).request_count,
        final(m).success_count == old(m).success_count,
        final(m).error_count == old(m).error_count,
        final(m).windowed_latency_ms == 0,
        final(m).windowed_sample_count == 0,
{
    let rep = compute_report(m);
    m.reset_window();
    rep
}

/// The exact text of one summary line for a report.
pub open spec fn summary_line_of(r: Report) -> Seq<char> {
    "Total: "@ + dec_rep(r.request_count as nat) + "; Success: "@ + dec_rep(
        r.success_count as nat,
    ) + "; Error: "@ + dec_rep(r.error_count as nat) + "; Success rate: "@ + dec_rep(
        r.success_rate as nat,
    ) + "%; Requests/s: "@ + dec_rep(r.requests_per_second as nat) + "; Response time: "@
        + dec_rep(r.mean_response_time_ms as nat) + "ms"@
}

impl Report {
    /// Render the human-readable summary line for this report.
    pub fn summary_line(&self) -> (line: String)
        ensures
            line@ == summary_line_of(*self),
    {
        let mut line = String::from_str("Total: ");
        line.append(u64_to_string(self.request_count).as_str());
        line.append("; Success: ");
        line.append(u64_to_string(self.success_count).as_str());
        line.append("; Error: ");
        line.append(u64_to_string(self.error_count).as_str());
        line.append("; Success rate: ");
        line.append(u64_to_string(self.success_rate).as_str());
        line.append("%; Requests/s: ");
        line.append(u64_to_string(self.requests_per_second).as_str());
        line.append("; Response time: ");
        line.append(u64_to_string(self.mean_response_time_ms).as_str());
        line.append("ms");
        line
    }
}

} // verus!
