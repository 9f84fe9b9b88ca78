//! Severity levels of the installation log.

use vstd::prelude::*;

verus! {

/// How severe a log entry is.
#[derive(Clone, Copy, Debug, PartialEq, Eq, Structural)]
pub enum LogLevel {
    Debug,
    Info,
    Warn,
    Error,
    Success,
    Critical,
}

/// The upper-case name of a level, as it appears in logs.
pub open spec fn level_name(l: LogLevel) -> Seq<char> {
    match l {
        LogLevel::Debug => "DEBUG"@,
        LogLevel::Info => "INFO"@,
        LogLevel::Warn => "WARN"@,
        LogLevel::Error => "ERROR"@,
        LogLevel::Success => "SUCCESS"@,
        LogLevel::Critical => "CRITICAL"@,
    }
}

impl LogLevel {
    /// The upper-case name of the level.
    pub fn as_str(&self) -> (r: &'static str)
        ensures
            r@ == level_name(*self),
    {
        match self {
            LogLevel::Debug => "DEBUG",
            LogLevel::Info => "INFO",
            LogLevel::Warn => "WARN",
            LogLevel::Error => "ERROR",
            LogLevel::Success => "SUCCESS",
            LogLevel::Critical => "CRITICAL",
        }
    }

    /// The level of a step's end: success or error.
    pub fn for_outcome(success: bool) -> (r: LogLevel)
        ensures
            success ==> r is Success,
            !success ==> r is Error,
    {
        if success {
            LogLevel::Success
        } else {
            LogLevel::Error
        }
    }

    /// The level of a remote command's log line: debug when it exited 0,
    /// error otherwise.
    pub fn for_exit_code(exit_code: i32) -> (r: LogLevel)
        ensures
            exit_code == 0 ==> r is Debug,
            exit_code != 0 ==> r is Error,
    {
        if exit_code == 0 {
            LogLevel::Debug
        } else {
            LogLevel::Error
        }
    }
}

} // verus!
