use sherpa_server::daemon::lifecycle::{
    restart_plan, stop_error_text, stop_start, stop_step, RestartPlan, StopAction, StopError,
    StopEvent, StopOutcome, StopState, KILL_WAIT_MS, STOP_MAX_POLLS, STOP_POLL_INTERVAL_MS,
};
use sherpa_server::daemon::pidfile::{
    already_running_message, check_stale_pidfile, daemon_status, parse_pid, pid_file_contents,
    read_pid_contents,
    verify_not_running, DaemonStatus, PriorInstance,
};

#[test]
fn test_check_stale_pidfile() {
    // A PID file recording a process that is gone: stale (and removed).
    assert_eq!(check_stale_pidfile(Some("99999"), "test.pid", false), Ok(true));
    // A PID file recording a running process: not stale.
    assert_eq!(check_stale_pidfile(Some("99999\n"), "test.pid", true), Ok(false));
    // No PID file: not stale.
    assert_eq!(check_stale_pidfile(None, "test.pid", false), Ok(false));
    // A PID file without a PID: refused, nothing removed.
    assert_eq!(
        check_stale_pidfile(Some("not a pid"), "test.pid", false),
        Err("Invalid PID in file: test.pid".to_string())
    );
}

#[test]
fn pid_file_readings() {
    assert_eq!(read_pid_contents(None, "/run/sherpad.pid"), Ok(None));
    assert_eq!(read_pid_contents(Some(" 4242\n"), "/run/sherpad.pid"), Ok(Some(4242)));
    assert_eq!(
        read_pid_contents(Some("-1"), "/run/sherpad.pid"),
        Err("Invalid PID in file: /run/sherpad.pid".to_string())
    );
    assert_eq!(
        read_pid_contents(Some(""), "p"),
        Err("Invalid PID in file: p".to_string())
    );
}

#[test]
fn prior_instances() {
    assert_eq!(verify_not_running(None, true), PriorInstance::Absent);
    assert_eq!(verify_not_running(Some(7), false), PriorInstance::Stale);
    assert_eq!(verify_not_running(Some(7), true), PriorInstance::Running(7));
    assert_eq!(already_running_message(4242), "Server is already running (PID: 4242)");
}

#[test]
fn status_and_exit_codes() {
    assert_eq!(daemon_status(Some(12), true), DaemonStatus::Running(12));
    assert_eq!(daemon_status(Some(12), false), DaemonStatus::Stale);
    assert_eq!(daemon_status(None, false), DaemonStatus::NotRunning);
    assert_eq!(DaemonStatus::Running(12).exit_code(), 0);
    assert_eq!(DaemonStatus::Stale.exit_code(), 1);
    assert_eq!(DaemonStatus::NotRunning.exit_code(), 1);
}

#[test]
fn pid_files_read_back() {
    for pid in [0u32, 1, 12345, u32::MAX] {
        let text = pid_file_contents(pid);
        assert_eq!(text, pid.to_string());
        assert_eq!(parse_pid(&text), Some(pid));
    }
    assert_eq!(parse_pid(" 123\n"), Some(123));
    assert_eq!(parse_pid("abc"), None);
    assert_eq!(parse_pid(""), None);
    assert_eq!(parse_pid("4294967296"), None);
}

fn run(force: bool, events: &[StopEvent]) -> Vec<StopAction> {
    let (mut state, first) = stop_start();
    let mut actions = vec![first];
    for e in events {
        let (s, a) = stop_step(state, force, *e);
        state = s;
        actions.push(a);
    }
    actions
}

#[test]
fn graceful_stop() {
    let actions = run(
        false,
        &[
            StopEvent::PidRead(Some(41)),
            StopEvent::Running(true),
            StopEvent::Signalled(true),
            StopEvent::Slept,
            StopEvent::Running(false),
            StopEvent::Removed(true),
        ],
    );
    assert_eq!(
        actions,
        vec![
            StopAction::ReadPid,
            StopAction::CheckRunning(41),
            StopAction::SendSigterm(41),
            StopAction::Sleep(STOP_POLL_INTERVAL_MS),
            StopAction::CheckRunning(41),
            StopAction::RemovePidFile,
            StopAction::Finish(StopOutcome::Stopped),
        ]
    );
}

#[test]
fn stop_without_pid_file_fails() {
    let actions = run(false, &[StopEvent::PidRead(None)]);
    assert_eq!(actions[1], StopAction::Finish(StopOutcome::Failed(StopError::NotRunning)));
    assert_eq!(stop_error_text(StopError::NotRunning, ""), "Server is not running");
}

#[test]
fn stale_pid_file_is_removed_without_signals() {
    let actions = run(false, &[StopEvent::PidRead(Some(5)), StopEvent::Running(false)]);
    assert_eq!(actions[2], StopAction::RemovePidFile);
}

#[test]
fn timeout_without_force() {
    let mut events = vec![
        StopEvent::PidRead(Some(9)),
        StopEvent::Running(true),
        StopEvent::Signalled(true),
    ];
    for _ in 0..STOP_MAX_POLLS {
        events.push(StopEvent::Slept);
        events.push(StopEvent::Running(true));
    }
    let actions = run(false, &events);
    assert_eq!(
        *actions.last().unwrap(),
        StopAction::Finish(StopOutcome::Failed(StopError::Timeout))
    );
    let probes = actions.iter().filter(|a| **a == StopAction::CheckRunning(9)).count();
    assert_eq!(probes as u32, STOP_MAX_POLLS + 1);
    assert!(!actions.iter().any(|a| matches!(a, StopAction::SendSigkill(_))));
    assert_eq!(
        stop_error_text(StopError::Timeout, ""),
        "Server did not stop gracefully after 10 seconds. Use --force to kill it."
    );
}

#[test]
fn forced_stop_kills_after_timeout() {
    let mut events = vec![
        StopEvent::PidRead(Some(9)),
        StopEvent::Running(true),
        StopEvent::Signalled(true),
    ];
    for _ in 0..STOP_MAX_POLLS {
        events.push(StopEvent::Slept);
        events.push(StopEvent::Running(true));
    }
    events.push(StopEvent::Signalled(true));
    events.push(StopEvent::Slept);
    events.push(StopEvent::Running(false));
    events.push(StopEvent::Removed(true));
    let actions = run(true, &events);
    let n = actions.len();
    assert_eq!(actions[n - 5], StopAction::SendSigkill(9));
    assert_eq!(actions[n - 4], StopAction::Sleep(KILL_WAIT_MS));
    assert_eq!(actions[n - 3], StopAction::CheckRunning(9));
    assert_eq!(actions[n - 2], StopAction::RemovePidFile);
    assert_eq!(actions[n - 1], StopAction::Finish(StopOutcome::Stopped));
}

#[test]
fn sigterm_failure() {
    let plain = run(false, &[StopEvent::PidRead(Some(3)), StopEvent::Running(true), StopEvent::Signalled(false)]);
    assert_eq!(plain[3], StopAction::Finish(StopOutcome::Failed(StopError::TermFailed)));
    assert_eq!(stop_error_text(StopError::TermFailed, "EPERM"), "Failed to stop server: EPERM");
    let forced = run(true, &[StopEvent::PidRead(Some(3)), StopEvent::Running(true), StopEvent::Signalled(false)]);
    assert_eq!(forced[3], StopAction::SendSigkill(3));
}

#[test]
fn kill_failures() {
    let (s, _) = stop_step(StopState::Killing { pid: 2 }, true, StopEvent::Signalled(false));
    assert_eq!(s, StopState::Finished);
    assert_eq!(
        stop_step(StopState::Killing { pid: 2 }, true, StopEvent::Signalled(false)).1,
        StopAction::Finish(StopOutcome::Failed(StopError::KillFailed))
    );
    assert_eq!(
        stop_step(StopState::KillPolling { pid: 2 }, true, StopEvent::Running(true)).1,
        StopAction::Finish(StopOutcome::Failed(StopError::StillAlive))
    );
    assert_eq!(
        stop_step(StopState::Removing, false, StopEvent::Removed(false)).1,
        StopAction::Finish(StopOutcome::Failed(StopError::RemoveFailed))
    );
    assert_eq!(stop_error_text(StopError::KillFailed, ""), "Failed to send SIGKILL");
    assert_eq!(stop_error_text(StopError::StillAlive, ""), "Failed to kill server process");
}

#[test]
fn restart_plans() {
    assert_eq!(restart_plan(None, false), RestartPlan::Start);
    assert_eq!(restart_plan(Some(1), true), RestartPlan::StopThenStart);
    assert_eq!(restart_plan(Some(1), false), RestartPlan::CleanThenStart);
}
