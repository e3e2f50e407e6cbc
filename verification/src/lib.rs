//! A single-child process supervisor: spawn a long-running backend service,
//! gate on its readiness by polling a health endpoint, and tear it down with a
//! graceful-then-forced signal escalation.
//!
//! The supervisor itself is a verified state machine over plain values: which
//! pid is tracked, when a readiness poll is ready or timed out, and which
//! signals a stop must deliver in which order. The live driver (process
//! spawning, HTTP probes, sleeps, signal delivery) performs each action the
//! state machine decides and hands the outcome back.

pub mod policy;
pub mod readiness;
pub mod shutdown;
pub mod supervisor;

use vstd::prelude::*;

verus! {

/// An error from the start sequence: either the operating system refused to
/// create the child process, or the child never answered a successful health
/// probe within the configured deadline.
#[derive(Debug, PartialEq, Eq)]
pub enum StartError {
    SpawnFailed { cause: String },
    ReadinessTimeout { elapsed_ms: u64 },
}

} // verus!
