//! The worker supervisor: bookkeeping and decisions for keeping exactly one
//! live decode worker.
//!
//! The supervisor tracks the pending-request count, the time of the last
//! response, the monotonic request id and the restart count. A driver feeds
//! it events — a request submitted, a response received, the worker's
//! liveness and the clock — and acts on its decisions: it spawns and joins
//! the actual worker and owns the channels, which the library cannot.
//! Replacing a worker is wholesale: the old channels and handle are dropped,
//! losing in-flight requests, and the counters start clean.

use vstd::prelude::*;

verus! {

use crate::config::WorkerConfig;

/// Milliseconds elapsed from `last` to `now`, zero when the clock ran
/// backwards.
pub open spec fn spec_elapsed(now_ms: u64, last_ms: u64) -> int {
    if now_ms >= last_ms {
        now_ms - last_ms
    } else {
        0
    }
}

/// The supervisor's health rule: a worker is healthy when it is still
/// running, and — only while requests are pending — it has answered within
/// the configured window. An idle worker is never counted unresponsive,
/// because nothing obliges it to answer.
pub open spec fn spec_healthy(s: WorkerSupervisor, worker_finished: bool, now_ms: u64) -> bool {
    &&& !worker_finished
    &&& (s.pending_requests > 0 ==> spec_elapsed(now_ms, s.last_response_ms)
        <= s.config.max_unresponsive_ms)
}

/// Supervision state for the single decode worker.
#[derive(Debug, Clone, PartialEq, Eq, Structural)]
pub struct WorkerSupervisor {
    /// The thresholds the supervisor applies.
    pub config: WorkerConfig,
    /// Requests submitted and not yet answered. In-flight work lost in a
    /// restart is dropped from this count, never retried.
    pub pending_requests: usize,
    /// When the worker last answered, in driver-clock milliseconds.
    pub last_response_ms: u64,
    /// The id the next request will carry; monotonic across restarts.
    pub next_request_id: u64,
    /// How many times the worker has been replaced; also identifies the
    /// current worker incarnation.
    pub restart_count: u64,
}

impl WorkerSupervisor {
    /// A fresh supervisor for a newly spawned worker.
    pub fn new(config: &WorkerConfig, now_ms: u64) -> (s: Self)
        ensures
            s.config == *config,
            s.pending_requests == 0,
            s.last_response_ms == now_ms,
            s.next_request_id == 0,
            s.restart_count == 0,
    {
        WorkerSupervisor {
            config: *config,
            pending_requests: 0,
            last_response_ms: now_ms,
            next_request_id: 0,
            restart_count: 0,
        }
    }

    /// Draws the next request id and counts the request as pending.
    pub fn note_submitted(&mut self) -> (id: u64)
        requires
            old(self).next_request_id < u64::MAX,
            old(self).pending_requests < usize::MAX,
        ensures
            id == old(self).next_request_id,
            final(self).next_request_id == old(self).next_request_id + 1,
            final(self).pending_requests == old(self).pending_requests + 1,
            final(self).config == old(self).config,
            final(self).last_response_ms == old(self).last_response_ms,
            final(self).restart_count == old(self).restart_count,
    {
        let id = self.next_request_id;
        self.next_request_id = self.next_request_id + 1;
        self.pending_requests = self.pending_requests + 1;
        id
    }

    /// Undoes the pending count after a submission that could not be sent.
    pub fn note_submit_failed(&mut self)
        ensures
            final(self).pending_requests == if old(self).pending_requests > 0 {
                old(self).pending_requests - 1
            } else {
                0
            },
            final(self).config == old(self).config,
            final(self).last_response_ms == old(self).last_response_ms,
            final(self).next_request_id == old(self).next_request_id,
            final(self).restart_count == old(self).restart_count,
    {
        if self.pending_requests > 0 {
            self.pending_requests = self.pending_requests - 1;
        }
    }

    /// Records a worker response: one less pending request, and the response
    /// clock is reset.
    pub fn note_response(&mut self, now_ms: u64)
        ensures
            final(self).pending_requests == if old(self).pending_requests > 0 {
                old(self).pending_requests - 1
            } else {
                0
            },
            final(self).last_response_ms == now_ms,
            final(self).config == old(self).config,
            final(self).next_request_id == old(self).next_request_id,
            final(self).restart_count == old(self).restart_count,
    {
        if self.pending_requests > 0 {
            self.pending_requests = self.pending_requests - 1;
        }
        self.last_response_ms = now_ms;
    }

    /// The health check, run once per interactive tick: healthy exactly when
    /// the worker still runs and, while requests are pending, has answered
    /// within the configured window.
    pub fn health(&self, worker_finished: bool, now_ms: u64) -> (r: bool)
        ensures
            r == spec_healthy(*self, worker_finished, now_ms),
    {
        if worker_finished {
            return false;
        }
        if self.pending_requests > 0 {
            let elapsed: u64 = if now_ms >= self.last_response_ms {
                now_ms - self.last_response_ms
            } else {
                0
            };
            if elapsed > self.config.max_unresponsive_ms {
                return false;
            }
        }
        true
    }

    /// Accounts for a worker replacement: pending requests are written off,
    /// the response clock restarts, and the restart counter — the identity
    /// of the worker incarnation — advances. Request ids keep counting.
    pub fn note_restarted(&mut self, now_ms: u64)
        requires
            old(self).restart_count < u64::MAX,
        ensures
            final(self).pending_requests == 0,
            final(self).last_response_ms == now_ms,
            final(self).restart_count == old(self).restart_count + 1,
            final(self).next_request_id == old(self).next_request_id,
            final(self).config == old(self).config,
    {
        self.pending_requests = 0;
        self.last_response_ms = now_ms;
        self.restart_count = self.restart_count + 1;
    }
}

/// Worker resilience: a worker whose execution has finished fails the health
/// check whatever the rest of the state says; and after a restart the
/// supervisor presents a new worker identity with a clean slate, which a
/// running worker passes as healthy.
pub proof fn lemma_fault_detected_and_restart_recovers(
    before: WorkerSupervisor,
    after: WorkerSupervisor,
    now_ms: u64,
)
    requires
        after.pending_requests == 0,
        after.restart_count == before.restart_count + 1,
    ensures
        !spec_healthy(before, true, now_ms),
        spec_healthy(after, false, now_ms),
        after.restart_count != before.restart_count,
{
}

} // verus!
