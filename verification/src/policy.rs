//! The immutable configuration groups of the supervisor: how to launch the
//! child process, how to poll it for readiness, and how to escalate a stop.

use vstd::prelude::*;

verus! {

/// How to spawn the managed child process: the resolved executable, its fixed
/// argument list, environment overrides merged on top of the inherited
/// environment, the working directory, and the port the service is told to
/// listen on (the driver appends the port to the argument list at spawn time).
#[derive(Clone, Debug)]
pub struct LaunchSpec {
    pub program: String,
    pub args: Vec<String>,
    pub env_overrides: Vec<(String, String)>,
    pub working_dir: String,
    pub port: u16,
}

/// How to wait for the child to become ready: the health-check URL, the fixed
/// interval between probes, and the deadline after which the wait fails.
#[derive(Clone, Debug)]
pub struct ReadinessPolicy {
    pub url: String,
    pub poll_interval_ms: u64,
    pub max_wait_ms: u64,
}

impl ReadinessPolicy {
    /// A usable policy: the poll interval is positive (so the wait makes
    /// progress toward the deadline) and one interval past the deadline still
    /// fits in the millisecond counter.
    pub open spec fn wf(&self) -> bool {
        &&& 1 <= self.poll_interval_ms
        &&& self.max_wait_ms + self.poll_interval_ms <= u64::MAX
    }

    /// The deadline check made before each probe: once the elapsed time
    /// reaches the maximum wait, no further probe is issued.
    pub fn deadline_passed(&self, elapsed_ms: u64) -> (r: bool)
        ensures
            r == (elapsed_ms >= self.max_wait_ms),
    {
        elapsed_ms >= self.max_wait_ms
    }
}

/// How a stop escalates: the signal number asking the child to exit, the
/// bounded wait granted for it to do so, and the signal number that kills it.
#[derive(Clone, Copy, Debug, PartialEq, Eq, Structural)]
pub struct ShutdownPolicy {
    pub graceful_signal: u32,
    pub grace_period_ms: u64,
    pub force_signal: u32,
}

} // verus!
