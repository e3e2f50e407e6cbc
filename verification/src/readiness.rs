//! The readiness prober: classify a single health probe, and run the
//! fixed-interval poll loop that waits for the first successful probe or for
//! the deadline.
//!
//! Time is modeled in milliseconds. The live driver measures elapsed time on
//! the real clock and performs the HTTP probes and sleeps; the functions here
//! make every decision: whether a probe counts as ready, whether the deadline
//! has passed, and what the whole wait returns for a given run of probe
//! outcomes under the model clock in which each retry costs exactly one poll
//! interval.

use vstd::prelude::*;

use crate::policy::ReadinessPolicy;

verus! {

/// Whether one health probe counts as "ready": any response with a 2xx status.
/// A missing status (connection refused, transport error, per-probe timeout)
/// counts as "not yet ready", never as a fatal error.
pub open spec fn probe_ready(status: Option<u16>) -> bool {
    match status {
        Some(code) => 200 <= code < 300,
        None => false,
    }
}

/// The decision made on each probe's outcome; `status` is the HTTP status of
/// the response, or `None` when the request failed in transport.
pub fn probe_succeeded(status: Option<u16>) -> (r: bool)
    ensures
        r == probe_ready(status),
{
    match status {
        Some(code) => 200 <= code && code < 300,
        None => false,
    }
}

/// The result of the poll loop from probe index `i` at time `elapsed`, with
/// poll interval `interval` and deadline `max_wait`: `Ok(t)` when the first
/// successful probe happens at time `t`, `Err(t)` when the deadline passes at
/// time `t` with no probe having succeeded. A probe index beyond the end of
/// `outcomes` counts as an unsuccessful probe, so a short script behaves like
/// an endpoint that stops answering.
pub open spec fn wait_from(
    interval: int,
    max_wait: int,
    outcomes: Seq<bool>,
    i: int,
    elapsed: int,
) -> Result<int, int>
    decreases (if elapsed < max_wait { max_wait - elapsed } else { 0 }) when 1 <= interval
{
    if elapsed >= max_wait {
        Err(elapsed)
    } else if 0 <= i < outcomes.len() && outcomes[i] {
        Ok(elapsed)
    } else {
        wait_from(interval, max_wait, outcomes, i + 1, elapsed + interval)
    }
}

/// The result of the whole wait for a given run of probe outcomes: the poll
/// loop starting at the first probe and time zero.
pub open spec fn wait_result(policy: ReadinessPolicy, outcomes: Seq<bool>) -> Result<int, int> {
    wait_from(policy.poll_interval_ms as int, policy.max_wait_ms as int, outcomes, 0, 0)
}

impl ReadinessPolicy {
    /// The poll loop over a scripted run of probe outcomes, under the model
    /// clock: probe, and on failure sleep one poll interval and retry, until
    /// the first success (`Ok` with the time it took) or the deadline
    /// (`Err` with the time at which the wait gave up).
    pub fn wait_for_ready(&self, outcomes: &Vec<bool>) -> (r: Result<u64, u64>)
        requires
            self.wf(),
        ensures
            wait_result(*self, outcomes@) == match r {
                Ok(e) => Ok::<int, int>(e as int),
                Err(e) => Err::<int, int>(e as int),
            },
    {
        let interval = self.poll_interval_ms;
        let max_wait = self.max_wait_ms;
        let mut i: u64 = 0;
        let mut elapsed: u64 = 0;
        while elapsed < max_wait
            invariant
                1 <= interval,
                max_wait + interval <= u64::MAX,
                i <= elapsed,
                elapsed <= max_wait + interval,
                wait_from(interval as int, max_wait as int, outcomes@, i as int, elapsed as int)
                    == wait_result(*self, outcomes@),
            decreases max_wait + interval - elapsed,
        {
            let ready = i < outcomes.len() as u64 && outcomes[i as usize];
            if ready {
                return Ok(elapsed);
            }
            elapsed = elapsed + interval;
            i = i + 1;
        }
        Err(elapsed)
    }
}

proof fn lemma_wait_from_first_success(
    interval: int,
    max_wait: int,
    outcomes: Seq<bool>,
    i: int,
    k: int,
    elapsed: int,
)
    requires
        1 <= interval,
        0 <= i <= k < outcomes.len(),
        outcomes[k],
        forall|j: int| i <= j < k ==> !outcomes[j],
        0 <= elapsed,
        elapsed + (k - i) * interval < max_wait,
    ensures
        wait_from(interval, max_wait, outcomes, i, elapsed) == Ok::<int, int>(
            elapsed + (k - i) * interval,
        ),
    decreases k - i,
{
    assert(0 <= (k - i) * interval) by (nonlinear_arith)
        requires
            1 <= interval,
            i <= k,
    ;
    if i == k {
        assert((k - i) * interval == 0) by (nonlinear_arith)
            requires
                i == k,
        ;
    } else {
        assert((k - (i + 1)) * interval + interval == (k - i) * interval) by (nonlinear_arith);
        lemma_wait_from_first_success(interval, max_wait, outcomes, i + 1, k, elapsed + interval);
    }
}

/// Law: when the endpoint first answers successfully at probe `k`, and that
/// probe still falls before the deadline, the wait ends ready after exactly
/// `k` poll intervals — and not earlier.
pub proof fn lemma_ready_at_first_success(policy: ReadinessPolicy, outcomes: Seq<bool>, k: int)
    requires
        policy.wf(),
        0 <= k < outcomes.len(),
        outcomes[k],
        forall|j: int| 0 <= j < k ==> !outcomes[j],
        k * (policy.poll_interval_ms as int) < policy.max_wait_ms,
    ensures
        wait_result(policy, outcomes) == Ok::<int, int>(k * (policy.poll_interval_ms as int)),
{
    lemma_wait_from_first_success(
        policy.poll_interval_ms as int,
        policy.max_wait_ms as int,
        outcomes,
        0,
        k,
        0,
    );
}

proof fn lemma_wait_from_never_ready(
    interval: int,
    max_wait: int,
    outcomes: Seq<bool>,
    i: int,
    elapsed: int,
)
    requires
        1 <= interval,
        0 <= elapsed < max_wait + interval,
        forall|j: int| 0 <= j < outcomes.len() ==> !outcomes[j],
    ensures
        wait_from(interval, max_wait, outcomes, i, elapsed) matches Err(e) && max_wait <= e
            < max_wait + interval,
    decreases (if elapsed < max_wait { max_wait - elapsed } else { 0 }),
{
    if elapsed < max_wait {
        lemma_wait_from_never_ready(interval, max_wait, outcomes, i + 1, elapsed + interval);
    }
}

proof fn lemma_wait_from_ok_iff(
    interval: int,
    max_wait: int,
    outcomes: Seq<bool>,
    i: int,
    elapsed: int,
)
    requires
        1 <= interval,
        0 <= i,
    ensures
        (wait_from(interval, max_wait, outcomes, i, elapsed) is Ok) <==> (exists|k: int|
            i <= k < outcomes.len() && #[trigger] outcomes[k] && elapsed + (k - i) * interval
                < max_wait),
    decreases (if elapsed < max_wait { max_wait - elapsed } else { 0 }),
{
    if elapsed >= max_wait {
        assert forall|k: int| i <= k < outcomes.len() && #[trigger] outcomes[k] implies !(elapsed
            + (k - i) * interval < max_wait) by {
            assert(0 <= (k - i) * interval) by (nonlinear_arith)
                requires
                    1 <= interval,
                    i <= k,
            ;
        }
    } else if 0 <= i < outcomes.len() && outcomes[i] {
        assert(elapsed + (i - i) * interval < max_wait) by (nonlinear_arith)
            requires
                elapsed < max_wait,
        ;
    } else {
        lemma_wait_from_ok_iff(interval, max_wait, outcomes, i + 1, elapsed + interval);
        if wait_from(interval, max_wait, outcomes, i, elapsed) is Ok {
            let k = choose|k: int|
                i + 1 <= k < outcomes.len() && #[trigger] outcomes[k] && (elapsed + interval) + (k
                    - (i + 1)) * interval < max_wait;
            assert(elapsed + (k - i) * interval < max_wait) by (nonlinear_arith)
                requires
                    (elapsed + interval) + (k - (i + 1)) * interval < max_wait,
            ;
        }
        if exists|k: int|
            i <= k < outcomes.len() && #[trigger] outcomes[k] && elapsed + (k - i) * interval
                < max_wait {
            let k = choose|k: int|
                i <= k < outcomes.len() && #[trigger] outcomes[k] && elapsed + (k - i) * interval
                    < max_wait;
            assert(k != i);
            assert((elapsed + interval) + (k - (i + 1)) * interval < max_wait) by (nonlinear_arith)
                requires
                    elapsed + (k - i) * interval < max_wait,
            ;
        }
    }
}

/// Law: the wait ends ready exactly when some probe that falls strictly
/// before the deadline succeeds; a success that would come only at or after
/// the deadline no longer counts.
pub proof fn lemma_ready_iff_success_before_deadline(policy: ReadinessPolicy, outcomes: Seq<bool>)
    requires
        policy.wf(),
    ensures
        (wait_result(policy, outcomes) is Ok) <==> (exists|k: int|
            0 <= k < outcomes.len() && #[trigger] outcomes[k] && k * (
            policy.poll_interval_ms as int) < policy.max_wait_ms),
{
    let interval = policy.poll_interval_ms as int;
    let max_wait = policy.max_wait_ms as int;
    lemma_wait_from_ok_iff(interval, max_wait, outcomes, 0, 0);
    if wait_result(policy, outcomes) is Ok {
        let k = choose|k: int|
            0 <= k < outcomes.len() && #[trigger] outcomes[k] && 0 + (k - 0) * interval < max_wait;
        assert(k * interval < max_wait) by (nonlinear_arith)
            requires
                0 + (k - 0) * interval < max_wait,
        ;
    }
    if exists|k: int|
        0 <= k < outcomes.len() && #[trigger] outcomes[k] && k * interval < max_wait {
        let k = choose|k: int|
            0 <= k < outcomes.len() && #[trigger] outcomes[k] && k * interval < max_wait;
        assert(0 + (k - 0) * interval < max_wait) by (nonlinear_arith)
            requires
                k * interval < max_wait,
        ;
    }
}

/// Law: when no probe ever succeeds, the wait times out: it ends with the
/// timeout error, at an elapsed time at or past the deadline and within one
/// poll interval of it.
pub proof fn lemma_timeout_when_never_ready(policy: ReadinessPolicy, outcomes: Seq<bool>)
    requires
        policy.wf(),
        forall|j: int| 0 <= j < outcomes.len() ==> !outcomes[j],
    ensures
        wait_result(policy, outcomes) matches Err(e) && policy.max_wait_ms <= e
            < policy.max_wait_ms + policy.poll_interval_ms,
{
    lemma_wait_from_never_ready(
        policy.poll_interval_ms as int,
        policy.max_wait_ms as int,
        outcomes,
        0,
        0,
    );
}

} // verus!
