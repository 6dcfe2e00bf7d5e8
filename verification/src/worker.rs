//! One worker: it owns one connection, issues requests in an unbounded loop,
//! records each outcome in the shared metrics, buffers failure descriptions
//! locally, and stops once it observes the shutdown flag — draining its
//! buffered failures exactly once on the way out.

use vstd::prelude::*;
use crate::decimal::dec_rep;
use crate::decimal::u64_to_string;
use crate::metrics::CallOutcome;
use crate::metrics::Metrics;
use crate::metrics::outcome_latency;

verus! {

/// The local state of one worker: its index and the failure descriptions it
/// has accumulated and not yet emitted.
pub struct Worker {
    pub index: usize,
    pub error_msgs: Vec<String>,
}

impl Worker {
    /// A fresh worker holds no buffered failures.
    pub fn new(index: usize) -> (w: Worker)
        ensures
            w.index == index,
            w.error_msgs@ =~= Seq::<String>::empty(),
    {
        Worker { index, error_msgs: Vec::new() }
    }

    /// The request payload this worker sends: a label derived from its index.
    pub fn payload_name(&self) -> (name: String)
        ensures
            name@ == "Tester "@ + dec_rep(self.index as nat),
    {
        let mut name = String::from_str("Tester ");
        name.append(u64_to_string(self.index as u64).as_str());
        name
    }

    /// Append one failure description to the local buffer. Failures are never
    /// retried or surfaced individually; they wait here for the final drain.
    pub fn buffer_failure(&mut self, msg: String)
        ensures
            final(self).index == old(self).index,
            final(self).error_msgs@ == old(self).error_msgs@.push(msg),
    {
        self.error_msgs.push(msg);
    }

    /// Hand out every buffered failure description and leave the buffer
    /// empty: the single drain at the worker's terminal transition.
    pub fn drain_failures(&mut self) -> (msgs: Vec<String>)
        ensures
            final(self).index == old(self).index,
            final(self).error_msgs@ =~= Seq::<String>::empty(),
            msgs@ == old(self).error_msgs@,
    {
        let mut msgs = Vec::new();
        core::mem::swap(&mut msgs, &mut self.error_msgs);
        msgs
    }

    /// One iteration of the worker loop, after the call itself has completed:
    /// record the outcome (the issued request was already counted before the
    /// call), buffer a failure's description, then consult the shutdown flag.
    /// Returns whether the loop stops, and — on the terminal transition only,
    /// and only if anything was buffered — the batch of failure descriptions
    /// to emit once.
    pub fn finish_iteration(
        &mut self,
        m: &mut Metrics,
        outcome: CallOutcome,
        shutdown_observed: bool,
    ) -> (r: (bool, Option<Vec<String>>))
        requires
            outcome is Success ==> old(m).success_count < u64::MAX,
            outcome is Success ==> old(m).windowed_sample_count < u64::MAX,
            outcome is Success ==> old(m).windowed_latency_ms + outcome_latency(outcome)
                <= u64::MAX,
            outcome is Failure ==> old(m).error_count < u64::MAX,
        ensures
            final(m).request_count == old(m).request_count,
            final(m).success_count == old(m).success_count + (if outcome is Success {
                1int
            } else {
                0int
            }),
            final(m).error_count == old(m).error_count + (if outcome is Failure {
                1int
            } else {
                0int
            }),
            final(m).windowed_latency_ms == old(m).windowed_latency_ms + outcome_latency(outcome),
            final(m).windowed_sample_count == old(m).windowed_sample_count + (
            if outcome is Success {
                1int
            } else {
                0int
            }),
            r.0 == shutdown_observed,
            final(self).index == old(self).index,
            // While running, every failure stays buffered; the terminal
            // transition drains the buffer exactly once.
            ({
                let buffered = match outcome {
                    CallOutcome::Failure { msg } => old(self).error_msgs@.push(msg),
                    _ => old(self).error_msgs@,
                };
                if shutdown_observed {
                    &&& final(self).error_msgs@ =~= Seq::<String>::empty()
                    &&& (r.1 matches Some(msgs) ==> msgs@ == buffered)
                    &&& (r.1 is Some <==> buffered.len() > 0)
                } else {
                    &&& final(self).error_msgs@ == buffered
                    &&& r.1 is None
                }
            }),
    {
        match outcome {
            CallOutcome::Success { elapsed_ms } => m.record_success(elapsed_ms),
            CallOutcome::Failure { msg } => {
                m.record_error();
                self.buffer_failure(msg);
            },
        }
        if shutdown_observed {
            if self.error_msgs.len() > 0 {
                let msgs = self.drain_failures();
                (true, Some(msgs))
            } else {
                (true, None)
            }
        } else {
            (false, None)
        }
    }
}

} // verus!
