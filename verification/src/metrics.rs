//! The metrics a load-test run accumulates: lifetime counters for issued
//! requests, successes and errors, plus a windowed latency accumulator that
//! the reporter drains once per reporting interval.
//!
//! All counters are monotonic for the lifetime of a run; only the two
//! windowed fields are ever reset, and only by the reporter.

use vstd::prelude::*;

verus! {

/// The outcome of one request attempt: either the call succeeded after
/// `elapsed_ms` milliseconds, or it failed with a describable error.
pub enum CallOutcome {
    Success { elapsed_ms: u64 },
    Failure { msg: String },
}

/// Milliseconds that a successful outcome contributes to the windowed
/// latency accumulator; failures contribute nothing.
pub open spec fn outcome_latency(o: CallOutcome) -> int {
    match o {
        CallOutcome::Success { elapsed_ms } => elapsed_ms as int,
        CallOutcome::Failure { .. } => 0,
    }
}

/// How many outcomes in `s` are successes.
pub open spec fn count_successes(s: Seq<CallOutcome>) -> nat
    decreases s.len(),
{
    if s.len() == 0 {
        0
    } else {
        count_successes(s.drop_last()) + (if s.last() is Success {
            1nat
        } else {
            0nat
        })
    }
}

/// How many outcomes in `s` are failures.
pub open spec fn count_failures(s: Seq<CallOutcome>) -> nat
    decreases s.len(),
{
    if s.len() == 0 {
        0
    } else {
        count_failures(s.drop_last()) + (if s.last() is Failure {
            1nat
        } else {
            0nat
        })
    }
}

/// Total latency that the successes in `s` contribute.
pub open spec fn total_success_latency(s: Seq<CallOutcome>) -> int
    decreases s.len(),
{
    if s.len() == 0 {
        0
    } else {
        total_success_latency(s.drop_last()) + outcome_latency(s.last())
    }
}

/// Every outcome is a success or a failure, so the two counts always sum to
/// the number of outcomes. This is what makes a completed run balance its
/// books: once each issued request has exactly one recorded outcome,
/// successes and errors together account for every request.
pub proof fn lemma_outcomes_balance(s: Seq<CallOutcome>)
    ensures
        count_successes(s) + count_failures(s) == s.len(),
    decreases s.len(),
{
    if s.len() > 0 {
        lemma_outcomes_balance(s.drop_last());
    }
}

/// The counters shared by every worker and the reporter.
pub struct Metrics {
    /// Requests issued, incremented before each call is made.
    pub request_count: u64,
    /// Requests that completed successfully.
    pub success_count: u64,
    /// Requests that failed.
    pub error_count: u64,
    /// Milliseconds of response time accumulated since the last reporter reset.
    pub windowed_latency_ms: u64,
    /// Successful completions since the last reporter reset.
    pub windowed_sample_count: u64,
}

impl Metrics {
    /// Successes and errors never outnumber issued requests.
    pub open spec fn wf(self) -> bool {
        self.success_count + self.error_count <= self.request_count
    }

    /// No lifetime counter decreases from `pre` to `post`.
    pub open spec fn lifetime_monotonic_from(pre: Metrics, post: Metrics) -> bool {
        &&& pre.request_count <= post.request_count
        &&& pre.success_count <= post.success_count
        &&& pre.error_count <= post.error_count
    }

    /// Neither windowed accumulator decreases from `pre` to `post`.
    pub open spec fn windowed_monotonic_from(pre: Metrics, post: Metrics) -> bool {
        &&& pre.windowed_latency_ms <= post.windowed_latency_ms
        &&& pre.windowed_sample_count <= post.windowed_sample_count
    }

    /// Fresh metrics: everything starts at zero.
    pub fn new() -> (m: Metrics)
        ensures
            m.request_count == 0,
            m.success_count == 0,
            m.error_count == 0,
            m.windowed_latency_ms == 0,
            m.windowed_sample_count == 0,
            m.wf(),
    {
        Metrics {
            request_count: 0,
            success_count: 0,
            error_count: 0,
            windowed_latency_ms: 0,
            windowed_sample_count: 0,
        }
    }

    /// A worker is about to issue one request: count it before the call, so
    /// in-flight requests are already visible to the reporter.
    pub fn record_request(&mut self)
        requires
            old(self).request_count < u64::MAX,
        ensures
            final(self).request_count == old(self).request_count + 1,
            final(self).success_count == old(self).success_count,
            final(self).error_count == old(self).error_count,
            final(self).windowed_latency_ms == old(self).windowed_latency_ms,
            final(self).windowed_sample_count == old(self).windowed_sample_count,
            Metrics::lifetime_monotonic_from(*old(self), *final(self)),
            Metrics::windowed_monotonic_from(*old(self), *final(self)),
    {
        self.request_count = self.request_count + 1;
    }

    /// A request completed successfully after `elapsed_ms` milliseconds.
    pub fn record_success(&mut self, elapsed_ms: u64)
        requires
            old(self).success_count < u64::MAX,
            old(self).windowed_sample_count < u64::MAX,
            old(self).windowed_latency_ms + elapsed_ms <= u64::MAX,
        ensures
            final(self).request_count == old(self).request_count,
            final(self).success_count == old(self).success_count + 1,
            final(self).error_count == old(self).error_count,
            final(self).windowed_latency_ms == old(self).windowed_latency_ms + elapsed_ms,
            final(self).windowed_sample_count == old(self).windowed_sample_count + 1,
            Metrics::lifetime_monotonic_from(*old(self), *final(self)),
            Metrics::windowed_monotonic_from(*old(self), *final(self)),
    {
        self.windowed_latency_ms = self.windowed_latency_ms + elapsed_ms;
        self.success_count = self.success_count + 1;
        self.windowed_sample_count = self.windowed_sample_count + 1;
    }

    /// A request failed.
    pub fn record_error(&mut self)
        requires
            old(self).error_count < u64::MAX,
        ensures
            final(self).request_count == old(self).request_count,
            final(self).success_count == old(self).success_count,
            final(self).error_count == old(self).error_count + 1,
            final(self).windowed_latency_ms == old(self).windowed_latency_ms,
            final(self).windowed_sample_count == old(self).windowed_sample_count,
            Metrics::lifetime_monotonic_from(*old(self), *final(self)),
            Metrics::windowed_monotonic_from(*old(self), *final(self)),
    {
        self.error_count = self.error_count + 1;
    }

    /// Record a completed request's outcome: a success feeds the success
    /// counter and the windowed accumulators, a failure the error counter.
    pub fn record_outcome(&mut self, o: &CallOutcome)
        requires
            *o is Success ==> old(self).success_count < u64::MAX,
            *o is Success ==> old(self).windowed_sample_count < u64::MAX,
            *o is Success ==> old(self).windowed_latency_ms + outcome_latency(*o) <= u64::MAX,
            *o is Failure ==> old(self).error_count < u64::MAX,
        ensures
            final(self).request_count == old(self).request_count,
            final(self).success_count == old(self).success_count + (if *o is Success {
                1int
            } else {
                0int
            }),
            final(self).error_count == old(self).error_count + (if *o is Failure {
                1int
            } else {
                0int
            }),
            final(self).windowed_latency_ms == old(self).windowed_latency_ms + outcome_latency(
                *o,
            ),
            final(self).windowed_sample_count == old(self).windowed_sample_count + (
            if *o is Success {
                1int
            } else {
                0int
            }),
            Metrics::lifetime_monotonic_from(*old(self), *final(self)),
            Metrics::windowed_monotonic_from(*old(self), *final(self)),
    {
        match o {
            CallOutcome::Success { elapsed_ms } => self.record_success(*elapsed_ms),
            CallOutcome::Failure { .. } => self.record_error(),
        }
    }

    /// The reporter drains the window: both windowed accumulators return to
    /// zero and every lifetime counter is left untouched.
    pub fn reset_window(&mut self)
        ensures
            final(self).request_count == old(self).request_count,
            final(self).success_count == old(self).success_count,
            final(self).error_count == old(self).error_count,
            final(self).windowed_latency_ms == 0,
            final(self).windowed_sample_count == 0,
            Metrics::lifetime_monotonic_from(*old(self), *final(self)),
    {
        self.windowed_latency_ms = 0;
        self.windowed_sample_count = 0;
    }
}

/// Record a whole run of completed request attempts: each attempt counts one
/// issued request and exactly one outcome. The final counters are the initial
/// ones plus the run's tallies.
pub fn record_run(m: &mut Metrics, outcomes: &Vec<CallOutcome>)
    requires
        old(m).request_count + outcomes@.len() <= u64::MAX,
        old(m).success_count + count_successes(outcomes@) <= u64::MAX,
        old(m).error_count + count_failures(outcomes@) <= u64::MAX,
        old(m).windowed_sample_count + count_successes(outcomes@) <= u64::MAX,
        old(m).windowed_latency_ms + total_success_latency(outcomes@) <= u64::MAX,
    ensures
        final(m).request_count == old(m).request_count + outcomes@.len(),
        final(m).success_count == old(m).success_count + count_successes(outcomes@),
        final(m).error_count == old(m).error_count + count_failures(outcomes@),
        final(m).windowed_sample_count == old(m).windowed_sample_count + count_successes(
            outcomes@,
        ),
        final(m).windowed_latency_ms == old(m).windowed_latency_ms + total_success_latency(
            outcomes@,
        ),
        Metrics::lifetime_monotonic_from(*old(m), *final(m)),
{
    let ghost m0 = *m;
    let n = outcomes.len();
    for i in 0..n
        invariant
            n == outcomes@.len(),
            m.request_count == m0.request_count + i,
            m.success_count == m0.success_count + count_successes(outcomes@.take(i as int)),
            m.error_count == m0.error_count + count_failures(outcomes@.take(i as int)),
            m.windowed_sample_count == m0.windowed_sample_count + count_successes(
                outcomes@.take(i as int),
            ),
            m.windowed_latency_ms == m0.windowed_latency_ms + total_success_latency(
                outcomes@.take(i as int),
            ),
            m0.request_count + outcomes@.len() <= u64::MAX,
            m0.success_count + count_successes(outcomes@) <= u64::MAX,
            m0.error_count + count_failures(outcomes@) <= u64::MAX,
            m0.windowed_sample_count + count_successes(outcomes@) <= u64::MAX,
            m0.windowed_latency_ms + total_success_latency(outcomes@) <= u64::MAX,
    {
        proof {
            lemma_run_prefix_bounds(outcomes@, i as int);
            lemma_run_prefix_bounds(outcomes@, i + 1);
            assert(outcomes@.take(i + 1).drop_last() =~= outcomes@.take(i as int));
            assert(outcomes@.take(i + 1).last() == outcomes@[i as int]);
        }
        m.record_request();
        m.record_outcome(&outcomes[i]);
    }
    proof {
        assert(outcomes@.take(n as int) =~= outcomes@);
    }
}

/// The tallies of a prefix of a run never exceed those of the whole run.
proof fn lemma_run_prefix_bounds(s: Seq<CallOutcome>, i: int)
    requires
        0 <= i <= s.len(),
    ensures
        count_successes(s.take(i)) <= count_successes(s),
        count_failures(s.take(i)) <= count_failures(s),
        total_success_latency(s.take(i)) <= total_success_latency(s),
        total_success_latency(s.take(i)) >= 0,
        total_success_latency(s) >= 0,
    decreases s.len() - i,
{
    lemma_latency_nonneg(s.take(i));
    lemma_latency_nonneg(s);
    if i < s.len() {
        lemma_run_prefix_bounds(s, i + 1);
        assert(s.take(i + 1).drop_last() =~= s.take(i));
        assert(outcome_latency(s.take(i + 1).last()) >= 0);
    } else {
        assert(s.take(i) =~= s);
    }
}

/// Accumulated latency is never negative.
proof fn lemma_latency_nonneg(s: Seq<CallOutcome>)
    ensures
        total_success_latency(s) >= 0,
    decreases s.len(),
{
    if s.len() > 0 {
        lemma_latency_nonneg(s.drop_last());
    }
}

/// Once every worker has observed shutdown and recorded a final outcome for
/// each of its issued requests, the books balance: successes and errors
/// together equal issued requests. Stated for any run that starts balanced
/// and records complete attempts, as `record_run` ensures.
pub proof fn lemma_terminal_balance(pre: Metrics, post: Metrics, outcomes: Seq<CallOutcome>)
    requires
        pre.success_count + pre.error_count == pre.request_count,
        post.request_count == pre.request_count + outcomes.len(),
        post.success_count == pre.success_count + count_successes(outcomes),
        post.error_count == pre.error_count + count_failures(outcomes),
    ensures
        post.success_count + post.error_count == post.request_count,
        post.wf(),
{
    lemma_outcomes_balance(outcomes);
}

} // verus!
