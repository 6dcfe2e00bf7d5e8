//! The live, shared form of the metrics and the shutdown flag: lock-free
//! counters that every worker task and the reporter update independently
//! through cloned handles.
//!
//! The counters come from the `atomic_counter` crate. A value read from one
//! of them depends on what other tasks have done meanwhile, so the trusted
//! wrappers promise nothing about the values; everything computed from a
//! reading is done by the verified functions that take the reading as an
//! argument (`checked_report` and the rest of `crate::report`).

use vstd::prelude::*;
use atomic_counter::AtomicCounter;
use atomic_counter::RelaxedCounter;
use crate::metrics::CallOutcome;
use crate::metrics::Metrics;
use crate::report::Report;
use crate::report::checked_report;

verus! {

#[verifier::external_type_specification]
#[verifier::external_body]
pub struct ExRelaxedCounter(RelaxedCounter);

/// Relies on atomic_counter::RelaxedCounter::new: a fresh counter. Its later
/// readings depend on every thread that shares it, so nothing is promised.
#[verifier::external_body]
fn counter_new(initial: usize) -> RelaxedCounter {
    RelaxedCounter::new(initial)
}

/// Relies on atomic_counter::AtomicCounter::inc for RelaxedCounter:
/// atomically add one, returning the previous value. The counter is shared,
/// so nothing is promised of that value.
#[verifier::external_body]
fn counter_inc(c: &RelaxedCounter) -> u64 {
    c.inc() as u64
}

/// Relies on atomic_counter::AtomicCounter::add for RelaxedCounter:
/// atomically add `amount`, returning the previous value. The counter is
/// shared, so nothing is promised of that value.
#[verifier::external_body]
fn counter_add(c: &RelaxedCounter, amount: u64) -> u64 {
    c.add(amount as usize) as u64
}

/// Relies on atomic_counter::AtomicCounter::get for RelaxedCounter:
/// atomically read the current value. The counter is shared, so nothing is
/// promised of that value.
#[verifier::external_body]
fn counter_get(c: &RelaxedCounter) -> u64 {
    c.get() as u64
}

/// Relies on atomic_counter::AtomicCounter::reset for RelaxedCounter:
/// atomically reset the counter to zero, returning the value it had. The
/// counter is shared, so nothing is promised of that value.
#[verifier::external_body]
fn counter_reset(c: &RelaxedCounter) -> u64 {
    c.reset() as u64
}

/// The shared metrics: one lock-free counter per field of [`Metrics`]. No
/// two counters are updated as one atomic unit, so a reader sampling several
/// of them may see a torn snapshot; `reporter_tick` accounts for that.
pub struct SharedMetrics {
    request_count: RelaxedCounter,
    success_count: RelaxedCounter,
    error_count: RelaxedCounter,
    windowed_latency_ms: RelaxedCounter,
    windowed_sample_count: RelaxedCounter,
}

impl SharedMetrics {
    /// Fresh shared metrics, every counter at zero.
    pub fn new() -> SharedMetrics {
        SharedMetrics {
            request_count: counter_new(0),
            success_count: counter_new(0),
            error_count: counter_new(0),
            windowed_latency_ms: counter_new(0),
            windowed_sample_count: counter_new(0),
        }
    }

    /// A worker is about to issue one request: count it before the call.
    pub fn record_request(&self) {
        counter_inc(&self.request_count);
    }

    /// A request completed successfully after `elapsed_ms` milliseconds:
    /// feed the windowed accumulators and the success counter.
    pub fn record_success(&self, elapsed_ms: u64) {
        counter_add(&self.windowed_latency_ms, elapsed_ms);
        counter_inc(&self.success_count);
        counter_inc(&self.windowed_sample_count);
    }

    /// A request failed.
    pub fn record_error(&self) {
        counter_inc(&self.error_count);
    }

    /// Record one completed request's outcome, as the worker loop does.
    pub fn record_outcome(&self, o: &CallOutcome) {
        match o {
            CallOutcome::Success { elapsed_ms } => self.record_success(*elapsed_ms),
            CallOutcome::Failure { .. } => self.record_error(),
        }
    }

    /// Sample every counter. The five reads are independent, so the snapshot
    /// may be torn; whatever came back is returned as plain values.
    pub fn snapshot(&self) -> Metrics {
        Metrics {
            request_count: counter_get(&self.request_count),
            success_count: counter_get(&self.success_count),
            error_count: counter_get(&self.error_count),
            windowed_latency_ms: counter_get(&self.windowed_latency_ms),
            windowed_sample_count: counter_get(&self.windowed_sample_count),
        }
    }

    /// One reporter interval: sample the counters, compute the report, and
    /// drain the two windowed accumulators. Whatever snapshot the shared
    /// reads produced, the report is exactly the one that snapshot owes; a
    /// torn snapshot in which successes outnumber requests yields no report,
    /// and the window is then left for the next tick.
    pub fn reporter_tick(&self) -> (r: (Metrics, Option<Report>))
        ensures
            r.1 is Some <==> r.0.success_count <= r.0.request_count,
            r.1 matches Some(rep) ==> rep.describes(r.0),
    {
        let snap = self.snapshot();
        let rep = checked_report(&snap);
        if rep.is_some() {
            counter_reset(&self.windowed_latency_ms);
            counter_reset(&self.windowed_sample_count);
        }
        (snap, rep)
    }
}

/// The shared shutdown flag, counted like the interrupts that raise it, as
/// in [`crate::shutdown::ShutdownFlag`]: the coordinator raises it once and
/// every worker polls it after each completed request.
pub struct SharedShutdown {
    signal: RelaxedCounter,
}

impl SharedShutdown {
    /// A fresh, unset flag.
    pub fn new() -> SharedShutdown {
        SharedShutdown { signal: counter_new(0) }
    }

    /// Request shutdown. Raising the flag again later changes nothing a
    /// reader observes: any reading above zero means the same thing.
    pub fn request(&self) {
        counter_inc(&self.signal);
    }

    /// Poll the flag: has shutdown been requested?
    pub fn is_requested(&self) -> bool {
        counter_get(&self.signal) > 0
    }
}

} // verus!
