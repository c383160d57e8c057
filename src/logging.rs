//! Messages for the database log writer. A shutdown request is a message
//! of its own kind, never a log text that happens to read like one.

use vstd::prelude::*;

use crate::program::Timestamp;

verus! {

/// Log levels, most severe first.
#[derive(Debug, Clone, Copy, PartialEq, Eq, Structural)]
pub enum LogLevel {
    Error,
    Warn,
    Info,
    Debug,
    Trace,
}

impl LogLevel {
    /// 1 for `Error` up to 5 for `Trace`.
    pub open spec fn rank(self) -> nat {
        match self {
            LogLevel::Error => 1,
            LogLevel::Warn => 2,
            LogLevel::Info => 3,
            LogLevel::Debug => 4,
            LogLevel::Trace => 5,
        }
    }

    pub fn rank_exec(&self) -> (r: u8)
        ensures
            r == self.rank(),
    {
        match self {
            LogLevel::Error => 1,
            LogLevel::Warn => 2,
            LogLevel::Info => 3,
            LogLevel::Debug => 4,
            LogLevel::Trace => 5,
        }
    }

    /// A record at this level passes a logger set to `max`.
    pub fn enabled(&self, max: LogLevel) -> (r: bool)
        ensures
            r == (self.rank() <= max.rank()),
    {
        self.rank_exec() <= max.rank_exec()
    }

    pub open spec fn name_spec(self) -> Seq<char> {
        match self {
            LogLevel::Error => "ERROR"@,
            LogLevel::Warn => "WARN"@,
            LogLevel::Info => "INFO"@,
            LogLevel::Debug => "DEBUG"@,
            LogLevel::Trace => "TRACE"@,
        }
    }

    /// The level's name as stored in the log table.
    pub fn as_str(&self) -> (r: &'static str)
        ensures
            r@ == self.name_spec(),
    {
        match self {
            LogLevel::Error => "ERROR",
            LogLevel::Warn => "WARN",
            LogLevel::Info => "INFO",
            LogLevel::Debug => "DEBUG",
            LogLevel::Trace => "TRACE",
        }
    }
}

/// One row of the log table.
#[derive(Debug)]
pub struct LogEntry {
    pub timestamp: Timestamp,
    pub app: String,
    pub level: LogLevel,
    pub message: String,
}

/// What the log writer receives.
#[derive(Debug)]
pub enum LogMessage {
    Entry(LogEntry),
    ShutdownRequest,
}

/// What the log writer does with a message.
#[derive(Debug)]
pub enum WorkerAction {
    /// Insert the entry into the log table.
    Insert(LogEntry),
    /// Stop reading messages and close the channel.
    Stop,
}

/// The log writer inserts every entry and stops on a shutdown request.
pub fn worker_action(msg: LogMessage) -> (r: WorkerAction)
    ensures
        msg is ShutdownRequest <==> r is Stop,
        msg matches LogMessage::Entry(e) ==> r matches WorkerAction::Insert(f) && f == e,
{
    match msg {
        LogMessage::Entry(e) => WorkerAction::Insert(e),
        LogMessage::ShutdownRequest => WorkerAction::Stop,
    }
}

} // verus!
