//! PID-file contents and the decisions taken on a recorded PID.
use crate::text::{chars_of, parse_u32, parse_u32_spec, push_decimal_i64, push_str_chars, decimal_int, string_from_chars, trim, trim_bounds};
use vstd::prelude::*;

verus! {

/// The PID recorded in a PID file's contents: the trimmed text as a `u32`.
pub fn parse_pid(contents: &str) -> (r: Option<u32>)
    ensures
        r == parse_u32_spec(trim(contents@)),
{
    let v = chars_of(contents);
    assert(v@.subrange(0, v@.len() as int) == v@);
    let (a, b) = trim_bounds(&v, 0, v.len());
    parse_u32(&v, a, b)
}

/// `Invalid PID in file: <path>`.
pub open spec fn invalid_pid_message(path: Seq<char>) -> Seq<char> {
    "Invalid PID in file: "@ + path
}

/// The PID recorded in the PID file at `path`, given the file's contents
/// (`None`: there is no file): `Ok(None)` without a file, the PID when the
/// trimmed contents are a `u32`, and an error naming the file otherwise.
pub fn read_pid_contents(pid_file: Option<&str>, path: &str) -> (r: Result<Option<u32>, String>)
    ensures
        match pid_file {
            None => r == Ok::<Option<u32>, String>(None),
            Some(c) => match parse_u32_spec(trim(c@)) {
                Some(pid) => r == Ok::<Option<u32>, String>(Some(pid)),
                None => r matches Err(e) && e@ == invalid_pid_message(path@),
            },
        },
{
    match pid_file {
        None => Ok(None),
        Some(c) => match parse_pid(c) {
            Some(pid) => Ok(Some(pid)),
            None => {
                let mut out: Vec<char> = Vec::new();
                push_str_chars(&mut out, "Invalid PID in file: ");
                push_str_chars(&mut out, path);
                Err(string_from_chars(&out))
            },
        },
    }
}

/// Whether the PID file at `path` is stale, given its contents (`None`: there
/// is no file) and whether the recorded process runs: a file that records a
/// PID whose process is gone is stale and is removed; without a file nothing
/// is stale; a file that records no PID is refused. `process_running` is only
/// consulted when a PID is recorded.
pub fn check_stale_pidfile(pid_file: Option<&str>, path: &str, process_running: bool) -> (r: Result<
    bool,
    String,
>)
    ensures
        match pid_file {
            None => r == Ok::<bool, String>(false),
            Some(c) => match parse_u32_spec(trim(c@)) {
                Some(_) => r == Ok::<bool, String>(!process_running),
                None => r matches Err(e) && e@ == invalid_pid_message(path@),
            },
        },
{
    match read_pid_contents(pid_file, path) {
        Ok(Some(_)) => Ok(!process_running),
        Ok(None) => Ok(false),
        Err(e) => Err(e),
    }
}

/// What starting the server finds about an earlier instance.
#[derive(Clone, Copy, PartialEq, Eq, Structural, Debug)]
pub enum PriorInstance {
    /// No PID file: nothing to do.
    Absent,
    /// A stale PID file: remove it, then start.
    Stale,
    /// The recorded process runs: refuse to start.
    Running(u32),
}

/// Verifies that the server is not already running, given the PID file's
/// contents and whether that process runs.
pub fn verify_not_running(recorded_pid: Option<u32>, process_running: bool) -> (r: PriorInstance)
    ensures
        r == match recorded_pid {
            None => PriorInstance::Absent,
            Some(pid) => if process_running {
                PriorInstance::Running(pid)
            } else {
                PriorInstance::Stale
            },
        },
{
    match recorded_pid {
        None => PriorInstance::Absent,
        Some(pid) => if process_running {
            PriorInstance::Running(pid)
        } else {
            PriorInstance::Stale
        },
    }
}

/// The refusal to start a second server.
pub fn already_running_message(pid: u32) -> (r: String)
    ensures
        r@ == "Server is already running (PID: "@ + decimal_int(pid as int) + ")"@,
{
    let mut out: Vec<char> = Vec::new();
    push_str_chars(&mut out, "Server is already running (PID: ");
    push_decimal_i64(&mut out, pid as i64);
    push_str_chars(&mut out, ")");
    string_from_chars(&out)
}

/// What `status` reports.
#[derive(Clone, Copy, PartialEq, Eq, Structural, Debug)]
pub enum DaemonStatus {
    /// The recorded process runs.
    Running(u32),
    /// A PID file is left by a process that is gone.
    Stale,
    /// No PID file.
    NotRunning,
}

impl DaemonStatus {
    /// Exit status of the `status` command: 0 when running, 1 otherwise.
    pub fn exit_code(self) -> (r: i32)
        ensures
            r == (if self is Running {
                0i32
            } else {
                1i32
            }),
    {
        match self {
            DaemonStatus::Running(_) => 0,
            _ => 1,
        }
    }
}

/// The status of the daemon from its PID file and process.
pub fn daemon_status(recorded_pid: Option<u32>, process_running: bool) -> (r: DaemonStatus)
    ensures
        r == match recorded_pid {
            None => DaemonStatus::NotRunning,
            Some(pid) => if process_running {
                DaemonStatus::Running(pid)
            } else {
                DaemonStatus::Stale
            },
        },
{
    match recorded_pid {
        None => DaemonStatus::NotRunning,
        Some(pid) => if process_running {
            DaemonStatus::Running(pid)
        } else {
            DaemonStatus::Stale
        },
    }
}

/// The decimal text written to a PID file.
pub fn pid_file_contents(pid: u32) -> (r: String)
    ensures
        r@ == decimal_int(pid as int),
{
    let mut out: Vec<char> = Vec::new();
    push_decimal_i64(&mut out, pid as i64);
    string_from_chars(&out)
}

} // verus!

verus! {

/// Reading back a PID file gives the PID that was written to it.
pub proof fn law_pid_file_round_trip(pid: u32)
    ensures
        parse_u32_spec(trim(decimal_int(pid as int))) == Some(pid),
{
    crate::text::lemma_decimal_trimmed(pid as nat);
    crate::text::lemma_decimal_nat(pid as nat);
}

} // verus!
