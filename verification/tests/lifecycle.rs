use rails_supervisor::StartError;
use rails_supervisor::policy::LaunchSpec;
use rails_supervisor::policy::ReadinessPolicy;
use rails_supervisor::policy::ShutdownPolicy;
use rails_supervisor::shutdown::ShutdownStep;
use rails_supervisor::supervisor::RailsManager;

fn test_launch() -> LaunchSpec {
    LaunchSpec {
        program: "/usr/bin/env".to_string(),
        args: vec!["sleep".to_string(), "30".to_string()],
        env_overrides: vec![],
        working_dir: "/tmp".to_string(),
        port: 3006,
    }
}

fn test_readiness() -> ReadinessPolicy {
    ReadinessPolicy {
        url: "http://localhost:3006/up".to_string(),
        poll_interval_ms: 200,
        max_wait_ms: 5000,
    }
}

fn test_shutdown() -> ShutdownPolicy {
    ShutdownPolicy { graceful_signal: 15, grace_period_ms: 2000, force_signal: 9 }
}

fn test_manager() -> RailsManager {
    RailsManager::with_policies(test_launch(), test_readiness(), test_shutdown())
}

#[test]
fn stop_is_a_noop_when_nothing_is_tracked() {
    let mut m = test_manager();
    for _ in 0..5 {
        let plan = m.stop_plan();
        assert!(plan.is_empty());
        m.finish_stop();
        assert_eq!(m.pid(), 0);
    }
}

#[test]
fn stop_after_stop_is_still_a_noop() {
    let mut m = test_manager();
    m.record_spawn(Some(1234));
    assert_eq!(m.stop_plan().len(), 3);
    m.finish_stop();
    // A second stop sees nothing tracked and does nothing.
    assert!(m.stop_plan().is_empty());
    m.finish_stop();
    assert_eq!(m.pid(), 0);
}

#[test]
fn escalation_is_graceful_then_grace_wait_then_force() {
    let mut m = test_manager();
    m.record_spawn(Some(77));
    let plan = m.stop_plan();
    assert_eq!(
        plan,
        vec![
            ShutdownStep::SendSignal { pid: 77, signal: 15 },
            ShutdownStep::WaitMs { ms: 2000 },
            ShutdownStep::SendSignal { pid: 77, signal: 9 },
        ]
    );
    m.finish_stop();
    assert_eq!(m.pid(), 0);
}

#[test]
fn escalation_waits_full_grace_period_before_the_force_signal() {
    // The plan is fixed at the moment stop runs: it takes no account of
    // whether the child exits during the grace period, so the full wait
    // always stands between the graceful and the force signal.
    let mut m = test_manager();
    m.record_spawn(Some(9001));
    let plan = m.stop_plan();
    assert_eq!(plan[1], ShutdownStep::WaitMs { ms: 2000 });
    match plan[2] {
        ShutdownStep::SendSignal { pid, signal } => {
            assert_eq!(pid, 9001);
            assert_eq!(signal, 9);
        }
        _ => panic!("the step after the grace wait must be the force signal"),
    }
}

#[test]
fn stop_right_after_a_successful_start() {
    // Scenario: start succeeds on the first probe, then stop runs at once.
    // The child receives the graceful signal first; under the fixed policy
    // the force signal still stands in the plan after the full grace wait
    // (delivering it to a child that already exited is harmless); afterward
    // nothing is tracked.
    let mut m = test_manager();
    let r = m.start_with_probes(Ok(Some(4100)), &vec![true]);
    assert_eq!(r, Ok(()));
    assert_eq!(m.pid(), 4100);
    let plan = m.stop_plan();
    assert_eq!(plan[0], ShutdownStep::SendSignal { pid: 4100, signal: 15 });
    assert_eq!(plan.len(), 3);
    m.finish_stop();
    assert_eq!(m.pid(), 0);
}

#[test]
fn spawn_failure_is_fatal_and_tracks_nothing() {
    let mut m = test_manager();
    let r = m.start_with_probes(Err("no such file".to_string()), &vec![true]);
    assert_eq!(r, Err(StartError::SpawnFailed { cause: "no such file".to_string() }));
    assert_eq!(m.pid(), 0);
    assert!(m.stop_plan().is_empty());
}

#[test]
fn a_child_without_a_reported_pid_is_recorded_as_untracked() {
    let mut m = test_manager();
    m.record_spawn(None);
    assert_eq!(m.pid(), 0);
    assert!(m.stop_plan().is_empty());
}

#[test]
fn cleanup_signal_is_one_graceful_signal_or_nothing() {
    let mut m = test_manager();
    assert_eq!(m.cleanup_signal(), None);
    m.record_spawn(Some(555));
    assert_eq!(m.cleanup_signal(), Some(ShutdownStep::SendSignal { pid: 555, signal: 15 }));
    m.finish_stop();
    assert_eq!(m.cleanup_signal(), None);
}

#[test]
fn built_in_configuration() {
    let m = RailsManager::new();
    assert_eq!(m.pid(), 0);
    let launch = m.launch();
    assert_eq!(launch.program, "/opt/homebrew/bin/mise");
    assert_eq!(launch.args, vec!["exec", "--", "bin/rails", "server"]);
    assert_eq!(
        launch.env_overrides,
        vec![("SOLID_QUEUE_IN_PUMA".to_string(), "false".to_string())]
    );
    assert_eq!(launch.working_dir, "/Users/jacobbrooke/Projects/fizzy");
    assert_eq!(launch.port, 3006);
    let readiness = m.readiness();
    assert_eq!(readiness.url, "http://fizzy.localhost:3006/up");
    assert_eq!(readiness.poll_interval_ms, 500);
    assert_eq!(readiness.max_wait_ms, 60000);
    let shutdown = m.shutdown();
    assert_eq!(shutdown.graceful_signal, 15);
    assert_eq!(shutdown.grace_period_ms, 2000);
    assert_eq!(shutdown.force_signal, 9);
}
