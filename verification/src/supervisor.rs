//! The process supervisor: one long-lived instance owning the lifecycle of a
//! single managed child process. It tracks at most one pid (zero meaning no
//! managed process), decides the start sequence — spawn, then gate on
//! readiness — and decides the stop escalation, which is idempotent and safe
//! to run when nothing is tracked.

use vstd::prelude::*;

use crate::StartError;
use crate::policy::LaunchSpec;
use crate::policy::ReadinessPolicy;
use crate::policy::ShutdownPolicy;
use crate::readiness::wait_result;
use crate::shutdown::ShutdownStep;
use crate::shutdown::escalation_plan;

verus! {

/// The supervisor of one managed backend server process. The configuration
/// is fixed at construction; the only mutable state is the tracked pid.
#[derive(Debug)]
pub struct RailsManager {
    launch: LaunchSpec,
    readiness: ReadinessPolicy,
    shutdown: ShutdownPolicy,
    pid: u32,
}

impl RailsManager {
    /// The pid of the managed child process; zero when none is tracked.
    pub closed spec fn tracked_pid(&self) -> u32 {
        self.pid
    }

    /// The launch configuration, fixed at construction.
    pub closed spec fn launch_spec(&self) -> LaunchSpec {
        self.launch
    }

    /// The readiness-polling configuration, fixed at construction.
    pub closed spec fn readiness_policy(&self) -> ReadinessPolicy {
        self.readiness
    }

    /// The shutdown-escalation configuration, fixed at construction.
    pub closed spec fn shutdown_policy(&self) -> ShutdownPolicy {
        self.shutdown
    }

    /// The launch configuration.
    pub fn launch(&self) -> (r: &LaunchSpec)
        ensures
            *r == self.launch_spec(),
    {
        &self.launch
    }

    /// The readiness-polling configuration.
    pub fn readiness(&self) -> (r: &ReadinessPolicy)
        ensures
            *r == self.readiness_policy(),
    {
        &self.readiness
    }

    /// The shutdown-escalation configuration.
    pub fn shutdown(&self) -> (r: &ShutdownPolicy)
        ensures
            *r == self.shutdown_policy(),
    {
        &self.shutdown
    }

    /// A supervisor with the built-in configuration: launch the backend
    /// server through the version-manager shim in its project directory on
    /// its fixed port, with the in-process job runner switched off; poll its
    /// health endpoint every half second for up to a minute; on stop, ask
    /// politely (SIGTERM), wait two seconds, then kill (SIGKILL).
    pub fn new() -> (r: Self)
        ensures
            r.tracked_pid() == 0,
            r.readiness_policy().wf(),
            r.launch_spec().program@ == "/opt/homebrew/bin/mise"@,
            r.launch_spec().args@.len() == 4,
            r.launch_spec().args@[0]@ == "exec"@,
            r.launch_spec().args@[1]@ == "--"@,
            r.launch_spec().args@[2]@ == "bin/rails"@,
            r.launch_spec().args@[3]@ == "server"@,
            r.launch_spec().env_overrides@.len() == 1,
            r.launch_spec().env_overrides@[0].0@ == "SOLID_QUEUE_IN_PUMA"@,
            r.launch_spec().env_overrides@[0].1@ == "false"@,
            r.launch_spec().working_dir@ == "/Users/jacobbrooke/Projects/fizzy"@,
            r.launch_spec().port == 3006,
            r.readiness_policy().url@ == "http://fizzy.localhost:3006/up"@,
            r.readiness_policy().poll_interval_ms == 500,
            r.readiness_policy().max_wait_ms == 60000,
            r.shutdown_policy() == (ShutdownPolicy {
                graceful_signal: 15,
                grace_period_ms: 2000,
                force_signal: 9,
            }),
    {
        let mut args: Vec<String> = Vec::new();
        args.push("exec".to_owned());
        args.push("--".to_owned());
        args.push("bin/rails".to_owned());
        args.push("server".to_owned());
        let mut env_overrides: Vec<(String, String)> = Vec::new();
        env_overrides.push(("SOLID_QUEUE_IN_PUMA".to_owned(), "false".to_owned()));
        RailsManager {
            launch: LaunchSpec {
                program: "/opt/homebrew/bin/mise".to_owned(),
                args,
                env_overrides,
                working_dir: "/Users/jacobbrooke/Projects/fizzy".to_owned(),
                port: 3006,
            },
            readiness: ReadinessPolicy {
                url: "http://fizzy.localhost:3006/up".to_owned(),
                poll_interval_ms: 500,
                max_wait_ms: 60000,
            },
            shutdown: ShutdownPolicy { graceful_signal: 15, grace_period_ms: 2000, force_signal: 9 },
            pid: 0,
        }
    }

    /// A supervisor with the given configuration and nothing tracked yet.
    pub fn with_policies(
        launch: LaunchSpec,
        readiness: ReadinessPolicy,
        shutdown: ShutdownPolicy,
    ) -> (r: Self)
        requires
            readiness.wf(),
        ensures
            r.launch_spec() == launch,
            r.readiness_policy() == readiness,
            r.shutdown_policy() == shutdown,
            r.tracked_pid() == 0,
    {
        RailsManager { launch, readiness, shutdown, pid: 0 }
    }

    /// The currently tracked pid; zero when no process is managed.
    pub fn pid(&self) -> (r: u32)
        ensures
            r == self.tracked_pid(),
    {
        self.pid
    }

    /// Record the pid of a freshly spawned child, overwriting any previous
    /// value; a child whose pid the operating system did not report is
    /// recorded as zero, that is, as not tracked.
    pub fn record_spawn(&mut self, child_pid: Option<u32>)
        ensures
            final(self).tracked_pid() == (match child_pid {
                Some(p) => p,
                None => 0,
            }),
            final(self).launch_spec() == old(self).launch_spec(),
            final(self).readiness_policy() == old(self).readiness_policy(),
            final(self).shutdown_policy() == old(self).shutdown_policy(),
    {
        self.pid = match child_pid {
            Some(p) => p,
            None => 0,
        };
    }

    /// The whole start sequence over a scripted run of probe outcomes, under
    /// the model clock: record the spawn outcome, then wait for readiness.
    /// A spawn refusal is fatal and recorded nowhere; a readiness timeout is
    /// surfaced with the elapsed time, and the spawned child stays tracked —
    /// the start sequence never kills it. The live driver makes the same
    /// decisions against the real clock and the real endpoint.
    pub fn start_with_probes(&mut self, spawn: Result<Option<u32>, String>, outcomes: &Vec<bool>) -> (r:
        Result<(), StartError>)
        requires
            old(self).readiness_policy().wf(),
        ensures
            final(self).launch_spec() == old(self).launch_spec(),
            final(self).readiness_policy() == old(self).readiness_policy(),
            final(self).shutdown_policy() == old(self).shutdown_policy(),
            match spawn {
                Err(cause) => final(self).tracked_pid() == old(self).tracked_pid() && r == Err::<
                    (),
                    StartError,
                >(StartError::SpawnFailed { cause }),
                Ok(child_pid) => final(self).tracked_pid() == (match child_pid {
                    Some(p) => p,
                    None => 0,
                }) && (match wait_result(old(self).readiness_policy(), outcomes@) {
                    Ok(_) => r == Ok::<(), StartError>(()),
                    Err(e) => r == Err::<(), StartError>(StartError::ReadinessTimeout {
                        elapsed_ms: e as u64,
                    }),
                }),
            },
    {
        match spawn {
            Err(cause) => Err(StartError::SpawnFailed { cause }),
            Ok(child_pid) => {
                self.record_spawn(child_pid);
                match self.readiness.wait_for_ready(outcomes) {
                    Ok(_) => Ok(()),
                    Err(e) => Err(StartError::ReadinessTimeout { elapsed_ms: e }),
                }
            },
        }
    }

    /// The steps a stop must perform now, in order: empty when nothing is
    /// tracked, otherwise the full escalation against the tracked pid. The
    /// driver performs the steps and then calls `finish_stop`.
    pub fn stop_plan(&self) -> (plan: Vec<ShutdownStep>)
        ensures
            plan@ == escalation_plan(self.shutdown_policy(), self.tracked_pid()),
    {
        self.shutdown.escalation(self.pid)
    }

    /// The end of a stop: the tracked pid resets to zero, restoring the idle
    /// state and making a subsequent start legal again. Safe to call any
    /// number of times.
    pub fn finish_stop(&mut self)
        ensures
            final(self).tracked_pid() == 0,
            final(self).launch_spec() == old(self).launch_spec(),
            final(self).readiness_policy() == old(self).readiness_policy(),
            final(self).shutdown_policy() == old(self).shutdown_policy(),
    {
        self.pid = 0;
    }

    /// The safety net for teardown while a process is still tracked: one
    /// best-effort graceful signal, with no grace wait and no escalation,
    /// since the surrounding process may itself be exiting. Nothing to do
    /// when nothing is tracked.
    pub fn cleanup_signal(&self) -> (r: Option<ShutdownStep>)
        ensures
            r == (if self.tracked_pid() == 0 {
                Option::<ShutdownStep>::None
            } else {
                Option::<ShutdownStep>::Some(ShutdownStep::SendSignal {
                    pid: self.tracked_pid(),
                    signal: self.shutdown_policy().graceful_signal,
                })
            }),
    {
        if self.pid == 0 {
            None
        } else {
            Some(ShutdownStep::SendSignal { pid: self.pid, signal: self.shutdown.graceful_signal })
        }
    }
}

/// Law: a stop on a supervisor that tracks nothing is a no-op, any number of
/// consecutive times: its plan is empty, and since finishing a stop always
/// leaves the tracked pid at zero, every later stop sees an empty plan too.
pub proof fn lemma_stop_idempotent(m: RailsManager)
    requires
        m.tracked_pid() == 0,
    ensures
        escalation_plan(m.shutdown_policy(), m.tracked_pid()).len() == 0,
{
}

} // verus!
