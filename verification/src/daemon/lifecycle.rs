//! Stopping the daemon as a state machine: the caller performs each action
//! (reading the PID file, probing or signalling the process, sleeping,
//! removing the PID file) and feeds back what happened.
use vstd::prelude::*;

verus! {

/// Milliseconds between two probes while waiting for a graceful exit.
pub const STOP_POLL_INTERVAL_MS: u32 = 500;

/// Number of probes before a graceful stop is given up (10 seconds).
pub const STOP_MAX_POLLS: u32 = 20;

/// Milliseconds given to a killed process before it is probed.
pub const KILL_WAIT_MS: u32 = 1000;

/// Where a stop is.
#[derive(Clone, Copy, PartialEq, Eq, Structural, Debug)]
pub enum StopState {
    /// Waiting for the PID file's contents.
    ReadingPid,
    /// Waiting to learn whether the recorded process runs.
    CheckingInitial { pid: u32 },
    /// Waiting for the result of sending SIGTERM.
    Terminating { pid: u32 },
    /// Waiting for the end of a pause before probe number `polls + 1`.
    Sleeping { pid: u32, polls: u32 },
    /// Waiting for the result of probe number `polls`.
    Polling { pid: u32, polls: u32 },
    /// Waiting for the result of sending SIGKILL.
    Killing { pid: u32 },
    /// Waiting for the end of the pause after SIGKILL.
    KillSleeping { pid: u32 },
    /// Waiting for the probe after SIGKILL.
    KillPolling { pid: u32 },
    /// Waiting for the removal of the PID file.
    Removing,
    /// Done.
    Finished,
}

/// What the caller observed.
#[derive(Clone, Copy, PartialEq, Eq, Structural, Debug)]
pub enum StopEvent {
    /// The PID file's contents (`None`: no PID file).
    PidRead(Option<u32>),
    /// Whether the process runs.
    Running(bool),
    /// Whether sending the signal succeeded.
    Signalled(bool),
    /// The pause is over.
    Slept,
    /// Whether removing the PID file succeeded.
    Removed(bool),
}

/// Why stopping failed.
#[derive(Clone, Copy, PartialEq, Eq, Structural, Debug)]
pub enum StopError {
    /// "Server is not running": no PID file.
    NotRunning,
    /// SIGTERM could not be sent and no force was asked.
    TermFailed,
    /// "Server did not stop gracefully after 10 seconds. Use --force to kill it."
    Timeout,
    /// "Failed to send SIGKILL".
    KillFailed,
    /// "Failed to kill server process".
    StillAlive,
    /// The PID file could not be removed.
    RemoveFailed,
}

/// How a stop ended.
#[derive(Clone, Copy, PartialEq, Eq, Structural, Debug)]
pub enum StopOutcome {
    /// The server is stopped and its PID file removed.
    Stopped,
    /// Stopping failed.
    Failed(StopError),
}

/// What the caller does next.
#[derive(Clone, Copy, PartialEq, Eq, Structural, Debug)]
pub enum StopAction {
    /// Read the PID file.
    ReadPid,
    /// Probe whether the process runs.
    CheckRunning(u32),
    /// Send SIGTERM.
    SendSigterm(u32),
    /// Send SIGKILL.
    SendSigkill(u32),
    /// Sleep this many milliseconds.
    Sleep(u32),
    /// Remove the PID file.
    RemovePidFile,
    /// Stop with this outcome.
    Finish(StopOutcome),
}

/// Whether `event` answers the action that led to `state`.
pub open spec fn event_fits(state: StopState, event: StopEvent) -> bool {
    match state {
        StopState::ReadingPid => event is PidRead,
        StopState::CheckingInitial { .. } => event is Running,
        StopState::Terminating { .. } => event is Signalled,
        StopState::Sleeping { .. } => event is Slept,
        StopState::Polling { .. } => event is Running,
        StopState::Killing { .. } => event is Signalled,
        StopState::KillSleeping { .. } => event is Slept,
        StopState::KillPolling { .. } => event is Running,
        StopState::Removing => event is Removed,
        StopState::Finished => false,
    }
}

/// The states a stop can be in: no kill stage without `force`, and probe
/// counts within their bounds.
pub open spec fn stop_state_ok(state: StopState, force: bool) -> bool {
    match state {
        StopState::Sleeping { polls, .. } => polls < STOP_MAX_POLLS,
        StopState::Polling { polls, .. } => 1 <= polls <= STOP_MAX_POLLS,
        StopState::Killing { .. } | StopState::KillSleeping { .. } | StopState::KillPolling {
            ..
        } => force,
        _ => true,
    }
}

/// Whether a stop state is one that a stop can be in (see [`stop_state_ok`]).
pub fn stop_state_valid(state: StopState, force: bool) -> (r: bool)
    ensures
        r == stop_state_ok(state, force),
{
    match state {
        StopState::Sleeping { polls, .. } => polls < STOP_MAX_POLLS,
        StopState::Polling { polls, .. } => 1 <= polls && polls <= STOP_MAX_POLLS,
        StopState::Killing { .. } | StopState::KillSleeping { .. } | StopState::KillPolling {
            ..
        } => force,
        _ => true,
    }
}

/// A measure that every step decreases.
pub open spec fn stop_rank(state: StopState) -> nat {
    match state {
        StopState::ReadingPid => 100,
        StopState::CheckingInitial { .. } => 99,
        StopState::Terminating { .. } => 98,
        StopState::Sleeping { polls, .. } => (9 + 2 * (STOP_MAX_POLLS - polls)) as nat,
        StopState::Polling { polls, .. } => (10 + 2 * (STOP_MAX_POLLS - polls)) as nat,
        StopState::Killing { .. } => 8,
        StopState::KillSleeping { .. } => 7,
        StopState::KillPolling { .. } => 6,
        StopState::Removing => 2,
        StopState::Finished => 0,
    }
}

/// The first state and action of a stop.
pub fn stop_start() -> (r: (StopState, StopAction))
    ensures
        r == (StopState::ReadingPid, StopAction::ReadPid),
{
    (StopState::ReadingPid, StopAction::ReadPid)
}

/// The transition of a stop: from `state`, on `event`, the next state and the
/// action to perform. SIGTERM first, then up to ten seconds of probes every
/// half second, then (only with `force`) SIGKILL; the PID file is removed
/// once the process is seen gone, and a stale file is removed without
/// signalling.
pub open spec fn stop_transition(state: StopState, force: bool, event: StopEvent) -> (
    StopState,
    StopAction,
) {
    match state {
        StopState::ReadingPid => match event {
            StopEvent::PidRead(None) => (
                StopState::Finished,
                StopAction::Finish(StopOutcome::Failed(StopError::NotRunning)),
            ),
            StopEvent::PidRead(Some(pid)) => (
                StopState::CheckingInitial { pid },
                StopAction::CheckRunning(pid),
            ),
            _ => (StopState::Finished, StopAction::Finish(StopOutcome::Failed(StopError::NotRunning))),
        },
        StopState::CheckingInitial { pid } => match event {
            StopEvent::Running(false) => (StopState::Removing, StopAction::RemovePidFile),
            _ => (StopState::Terminating { pid }, StopAction::SendSigterm(pid)),
        },
        StopState::Terminating { pid } => match event {
            StopEvent::Signalled(true) => (
                StopState::Sleeping { pid, polls: 0 },
                StopAction::Sleep(STOP_POLL_INTERVAL_MS),
            ),
            _ => if force {
                (StopState::Killing { pid }, StopAction::SendSigkill(pid))
            } else {
                (StopState::Finished, StopAction::Finish(StopOutcome::Failed(StopError::TermFailed)))
            },
        },
        StopState::Sleeping { pid, polls } => (
            StopState::Polling { pid, polls: (polls + 1) as u32 },
            StopAction::CheckRunning(pid),
        ),
        StopState::Polling { pid, polls } => match event {
            StopEvent::Running(false) => (StopState::Removing, StopAction::RemovePidFile),
            _ => if polls < STOP_MAX_POLLS {
                (StopState::Sleeping { pid, polls }, StopAction::Sleep(STOP_POLL_INTERVAL_MS))
            } else if force {
                (StopState::Killing { pid }, StopAction::SendSigkill(pid))
            } else {
                (StopState::Finished, StopAction::Finish(StopOutcome::Failed(StopError::Timeout)))
            },
        },
        StopState::Killing { pid } => match event {
            StopEvent::Signalled(true) => (
                StopState::KillSleeping { pid },
                StopAction::Sleep(KILL_WAIT_MS),
            ),
            _ => (StopState::Finished, StopAction::Finish(StopOutcome::Failed(StopError::KillFailed))),
        },
        StopState::KillSleeping { pid } => (
            StopState::KillPolling { pid },
            StopAction::CheckRunning(pid),
        ),
        StopState::KillPolling { .. } => match event {
            StopEvent::Running(false) => (StopState::Removing, StopAction::RemovePidFile),
            _ => (StopState::Finished, StopAction::Finish(StopOutcome::Failed(StopError::StillAlive))),
        },
        StopState::Removing => match event {
            StopEvent::Removed(true) => (StopState::Finished, StopAction::Finish(StopOutcome::Stopped)),
            _ => (StopState::Finished, StopAction::Finish(StopOutcome::Failed(StopError::RemoveFailed))),
        },
        StopState::Finished => (StopState::Finished, StopAction::Finish(StopOutcome::Stopped)),
    }
}


/// One step of stopping the daemon (see [`stop_transition`]).
pub fn stop_step(state: StopState, force: bool, event: StopEvent) -> (r: (StopState, StopAction))
    requires
        stop_state_ok(state, force),
    ensures
        r == stop_transition(state, force, event),
{
    match state {
        StopState::ReadingPid => match event {
            StopEvent::PidRead(None) => (
                StopState::Finished,
                StopAction::Finish(StopOutcome::Failed(StopError::NotRunning)),
            ),
            StopEvent::PidRead(Some(pid)) => (
                StopState::CheckingInitial { pid },
                StopAction::CheckRunning(pid),
            ),
            _ => (StopState::Finished, StopAction::Finish(StopOutcome::Failed(StopError::NotRunning))),
        },
        StopState::CheckingInitial { pid } => match event {
            StopEvent::Running(false) => (StopState::Removing, StopAction::RemovePidFile),
            _ => (StopState::Terminating { pid }, StopAction::SendSigterm(pid)),
        },
        StopState::Terminating { pid } => match event {
            StopEvent::Signalled(true) => (
                StopState::Sleeping { pid, polls: 0 },
                StopAction::Sleep(STOP_POLL_INTERVAL_MS),
            ),
            _ => if force {
                (StopState::Killing { pid }, StopAction::SendSigkill(pid))
            } else {
                (StopState::Finished, StopAction::Finish(StopOutcome::Failed(StopError::TermFailed)))
            },
        },
        StopState::Sleeping { pid, polls } => (
            StopState::Polling { pid, polls: polls + 1 },
            StopAction::CheckRunning(pid),
        ),
        StopState::Polling { pid, polls } => match event {
            StopEvent::Running(false) => (StopState::Removing, StopAction::RemovePidFile),
            _ => if polls < STOP_MAX_POLLS {
                (StopState::Sleeping { pid, polls }, StopAction::Sleep(STOP_POLL_INTERVAL_MS))
            } else if force {
                (StopState::Killing { pid }, StopAction::SendSigkill(pid))
            } else {
                (StopState::Finished, StopAction::Finish(StopOutcome::Failed(StopError::Timeout)))
            },
        },
        StopState::Killing { pid } => match event {
            StopEvent::Signalled(true) => (
                StopState::KillSleeping { pid },
                StopAction::Sleep(KILL_WAIT_MS),
            ),
            _ => (StopState::Finished, StopAction::Finish(StopOutcome::Failed(StopError::KillFailed))),
        },
        StopState::KillSleeping { pid } => (
            StopState::KillPolling { pid },
            StopAction::CheckRunning(pid),
        ),
        StopState::KillPolling { .. } => match event {
            StopEvent::Running(false) => (StopState::Removing, StopAction::RemovePidFile),
            _ => (StopState::Finished, StopAction::Finish(StopOutcome::Failed(StopError::StillAlive))),
        },
        StopState::Removing => match event {
            StopEvent::Removed(true) => (StopState::Finished, StopAction::Finish(StopOutcome::Stopped)),
            _ => (StopState::Finished, StopAction::Finish(StopOutcome::Failed(StopError::RemoveFailed))),
        },
        StopState::Finished => (StopState::Finished, StopAction::Finish(StopOutcome::Stopped)),
    }
}


/// Every step of a stop from a reachable state, on the event its action
/// asked for, keeps the stop's state reachable and brings it closer to the
/// end (so a stop always finishes); the PID file is only removed after the
/// process was seen gone; SIGKILL is only sent with `force`; and the stop
/// finishes exactly when its action is to finish.
pub proof fn law_stop_step_progresses(state: StopState, force: bool, event: StopEvent)
    requires
        event_fits(state, event),
        stop_state_ok(state, force),
    ensures
        stop_state_ok(stop_transition(state, force, event).0, force),
        stop_rank(stop_transition(state, force, event).0) < stop_rank(state),
        stop_transition(state, force, event).1 is RemovePidFile ==> event == StopEvent::Running(
            false,
        ),
        !force ==> !(stop_transition(state, force, event).1 is SendSigkill),
        (stop_transition(state, force, event).0 == StopState::Finished) == (stop_transition(
            state,
            force,
            event,
        ).1 is Finish),
{
}

/// The message of a failed stop; `signal_error` is the text of the signalling
/// error for [`StopError::TermFailed`].
pub open spec fn stop_error_message(e: StopError, signal_error: Seq<char>) -> Seq<char> {
    match e {
        StopError::NotRunning => "Server is not running"@,
        StopError::TermFailed => "Failed to stop server: "@ + signal_error,
        StopError::Timeout => "Server did not stop gracefully after 10 seconds. Use --force to kill it."@,
        StopError::KillFailed => "Failed to send SIGKILL"@,
        StopError::StillAlive => "Failed to kill server process"@,
        StopError::RemoveFailed => "Failed to remove PID file"@,
    }
}

/// Builds the message of a failed stop.
pub fn stop_error_text(e: StopError, signal_error: &str) -> (r: String)
    ensures
        r@ == stop_error_message(e, signal_error@),
{
    match e {
        StopError::NotRunning => "Server is not running".to_owned(),
        StopError::TermFailed => {
            let mut out: Vec<char> = Vec::new();
            crate::text::push_str_chars(&mut out, "Failed to stop server: ");
            crate::text::push_str_chars(&mut out, signal_error);
            crate::text::string_from_chars(&out)
        },
        StopError::Timeout => "Server did not stop gracefully after 10 seconds. Use --force to kill it.".to_owned(),
        StopError::KillFailed => "Failed to send SIGKILL".to_owned(),
        StopError::StillAlive => "Failed to kill server process".to_owned(),
        StopError::RemoveFailed => "Failed to remove PID file".to_owned(),
    }
}

/// What a restart does first.
#[derive(Clone, Copy, PartialEq, Eq, Structural, Debug)]
pub enum RestartPlan {
    /// Stop the running server, wait two seconds, then start.
    StopThenStart,
    /// Remove the stale PID file, then start.
    CleanThenStart,
    /// Just start.
    Start,
}

/// Plans a restart from the PID file's contents and whether that process runs.
pub fn restart_plan(recorded_pid: Option<u32>, process_running: bool) -> (r: RestartPlan)
    ensures
        r == match recorded_pid {
            None => RestartPlan::Start,
            Some(_) => if process_running {
                RestartPlan::StopThenStart
            } else {
                RestartPlan::CleanThenStart
            },
        },
{
    match recorded_pid {
        None => RestartPlan::Start,
        Some(_) => if process_running {
            RestartPlan::StopThenStart
        } else {
            RestartPlan::CleanThenStart
        },
    }
}

} // verus!
