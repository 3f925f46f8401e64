//! WebSocket and progress messages: log levels, status kinds and progress.
use crate::text::str_is;
use vstd::prelude::*;

verus! {

/// Log levels matching tracing levels.
#[derive(Clone, Copy, PartialEq, Eq, Structural, Debug)]
pub enum LogLevel {
    Trace,
    Debug,
    Info,
    Warn,
    Error,
}

impl LogLevel {
    /// The level's name on the wire (lowercase).
    pub fn as_str(self) -> (r: &'static str)
        ensures
            r@ == match self {
                LogLevel::Trace => "trace"@,
                LogLevel::Debug => "debug"@,
                LogLevel::Info => "info"@,
                LogLevel::Warn => "warn"@,
                LogLevel::Error => "error"@,
            },
    {
        match self {
            LogLevel::Trace => "trace",
            LogLevel::Debug => "debug",
            LogLevel::Info => "info",
            LogLevel::Warn => "warn",
            LogLevel::Error => "error",
        }
    }
}

/// Progress information for status updates.
pub struct StatusProgress {
    pub current_phase: String,
    pub phase_number: u8,
    pub total_phases: u8,
}

/// The kind of a status message.
#[derive(Clone, Copy, PartialEq, Eq, Structural, Debug)]
pub enum StatusKind {
    Progress,
    Done,
    Info,
    Waiting,
}

/// The emoji shown before a status line.
pub open spec fn emoji_of(kind: StatusKind) -> Seq<char> {
    match kind {
        StatusKind::Progress => "\u{1F504}"@,
        StatusKind::Done => "\u{2705}"@,
        StatusKind::Info => "\u{2139}\u{FE0F}"@,
        StatusKind::Waiting => "\u{23F3}"@,
    }
}

/// Maps a status kind to its emoji.
pub fn status_emoji(kind: StatusKind) -> (r: &'static str)
    ensures
        r@ == emoji_of(kind),
{
    match kind {
        StatusKind::Progress => "\u{1F504}",
        StatusKind::Done => "\u{2705}",
        StatusKind::Info => "\u{2139}\u{FE0F}",
        StatusKind::Waiting => "\u{23F3}",
    }
}

/// The status kind named in a status message; unknown names are informational.
pub fn status_kind_from_name(name: &str) -> (r: StatusKind)
    ensures
        r == if name@ == "progress"@ {
            StatusKind::Progress
        } else if name@ == "done"@ {
            StatusKind::Done
        } else if name@ == "waiting"@ {
            StatusKind::Waiting
        } else {
            StatusKind::Info
        },
{
    if str_is(name, "progress") {
        StatusKind::Progress
    } else if str_is(name, "done") {
        StatusKind::Done
    } else if str_is(name, "waiting") {
        StatusKind::Waiting
    } else {
        StatusKind::Info
    }
}

} // verus!
