//! The shutdown coordinator: the escalation a stop performs, as an explicit
//! plan of steps processed in order. The live driver delivers the signals and
//! takes the wait; the plan fixes which signals go to which pid, and in which
//! order, so the policy is checkable independently of the operating-system
//! call that carries it out.

use vstd::prelude::*;

use crate::policy::ShutdownPolicy;

verus! {

/// One step of a stop: deliver a signal to the tracked process, or wait.
/// Delivering a signal to a process that has already exited is harmless and
/// its failure is ignored.
#[derive(Clone, Copy, Debug, PartialEq, Eq, Structural)]
pub enum ShutdownStep {
    SendSignal { pid: u32, signal: u32 },
    WaitMs { ms: u64 },
}

/// The escalation a stop performs on a tracked pid: nothing when no process
/// is tracked; otherwise the graceful signal, the full grace period, then the
/// force signal, unconditionally — the plan takes no account of whether the
/// child exited during the grace period.
pub open spec fn escalation_plan(policy: ShutdownPolicy, pid: u32) -> Seq<ShutdownStep> {
    if pid == 0 {
        Seq::empty()
    } else {
        seq![
            ShutdownStep::SendSignal { pid, signal: policy.graceful_signal },
            ShutdownStep::WaitMs { ms: policy.grace_period_ms },
            ShutdownStep::SendSignal { pid, signal: policy.force_signal },
        ]
    }
}

impl ShutdownPolicy {
    /// The steps a stop must perform, in order, for the given tracked pid.
    pub fn escalation(&self, pid: u32) -> (plan: Vec<ShutdownStep>)
        ensures
            plan@ == escalation_plan(*self, pid),
    {
        let mut plan: Vec<ShutdownStep> = Vec::new();
        if pid > 0 {
            plan.push(ShutdownStep::SendSignal { pid, signal: self.graceful_signal });
            plan.push(ShutdownStep::WaitMs { ms: self.grace_period_ms });
            plan.push(ShutdownStep::SendSignal { pid, signal: self.force_signal });
        }
        proof {
            assert(plan@ =~= escalation_plan(*self, pid));
        }
        plan
    }
}

/// Law: for a tracked process the escalation is exactly one graceful signal,
/// then a wait of the full grace period, then one force signal.
pub proof fn lemma_escalation_order(policy: ShutdownPolicy, pid: u32)
    requires
        pid > 0,
    ensures
        escalation_plan(policy, pid).len() == 3,
        escalation_plan(policy, pid)[0] == (ShutdownStep::SendSignal {
            pid,
            signal: policy.graceful_signal,
        }),
        escalation_plan(policy, pid)[1] == (ShutdownStep::WaitMs { ms: policy.grace_period_ms }),
        escalation_plan(policy, pid)[2] == (ShutdownStep::SendSignal {
            pid,
            signal: policy.force_signal,
        }),
{
}

/// Law: the escalation is a fixed policy. Whatever the child does on the
/// graceful signal, the plan for any tracked pid takes the full grace period
/// before the force signal: every force-signal step in the plan comes right
/// after the wait of the full grace period. Stated for policies whose two
/// signals differ, as an escalation's do.
pub proof fn lemma_grace_before_force(policy: ShutdownPolicy, pid: u32)
    requires
        pid > 0,
        policy.graceful_signal != policy.force_signal,
    ensures
        forall|k: int|
            0 <= k < escalation_plan(policy, pid).len()
                && #[trigger] escalation_plan(policy, pid)[k] == (ShutdownStep::SendSignal {
                pid,
                signal: policy.force_signal,
            }) ==> escalation_plan(policy, pid)[k - 1] == (ShutdownStep::WaitMs {
                ms: policy.grace_period_ms,
            }),
{
}

} // verus!
