//! The decisions of the logger: the level named by the environment, which
//! records pass, where they go, and the line written for one.
use vstd::prelude::*;
use vstd::string::StringExecFns;
use crate::text::{equals, to_lowercase, lowercase, push_char};

verus! {

/// Log levels, from the most to the least severe.
#[derive(Clone, Copy, Debug, PartialEq, Eq, Structural)]
pub enum LogLevel {
    Error,
    Warn,
    Info,
    Debug,
    Trace,
}

pub open spec fn rank(l: LogLevel) -> int {
    match l {
        LogLevel::Error => 1,
        LogLevel::Warn => 2,
        LogLevel::Info => 3,
        LogLevel::Debug => 4,
        LogLevel::Trace => 5,
    }
}

/// The maximum level named by the value of `RUST_LOG`, in any case: `trace`,
/// `debug`, `warn` or `error`; anything else means `info`.
pub open spec fn spec_level_from_env(value: Seq<char>) -> LogLevel {
    let v = lowercase(value);
    if v == "trace"@ {
        LogLevel::Trace
    } else if v == "debug"@ {
        LogLevel::Debug
    } else if v == "warn"@ {
        LogLevel::Warn
    } else if v == "error"@ {
        LogLevel::Error
    } else {
        LogLevel::Info
    }
}

pub fn level_from_env(value: &str) -> (l: LogLevel)
    ensures
        l == spec_level_from_env(value@),
{
    let lower = to_lowercase(value);
    let v = lower.as_str();
    if equals(v, "trace") {
        LogLevel::Trace
    } else if equals(v, "debug") {
        LogLevel::Debug
    } else if equals(v, "warn") {
        LogLevel::Warn
    } else if equals(v, "error") {
        LogLevel::Error
    } else {
        LogLevel::Info
    }
}

fn rank_of(l: LogLevel) -> (r: u8)
    ensures
        r == rank(l),
{
    match l {
        LogLevel::Error => 1,
        LogLevel::Warn => 2,
        LogLevel::Info => 3,
        LogLevel::Debug => 4,
        LogLevel::Trace => 5,
    }
}

/// The logger: writes each record that passes the level named by the
/// environment, to the log file if there is one, else to the terminal.
pub struct SimpleLogger;

impl SimpleLogger {
    /// A record passes when its level is at most as verbose as the maximum.
    pub fn enabled(&self, level: LogLevel, max: LogLevel) -> (b: bool)
        ensures
            b == (rank(level) <= rank(max)),
    {
        enabled(level, max)
    }

    /// Where the line of a record goes.
    pub fn sink(&self, has_file: bool, level: LogLevel) -> (s: LogSink)
        ensures
            s == (if has_file {
                LogSink::File
            } else if level == LogLevel::Error {
                LogSink::Stderr
            } else {
                LogSink::Stdout
            }),
    {
        sink(has_file, level)
    }

    /// The line written for a record.
    pub fn format_record(&self, timestamp: &str, level: LogLevel, target: &str, message: &str) -> (s: String)
        ensures
            s@ == timestamp@ + seq![' '] + level_name(level) + seq![' '] + target@ + seq![':', ' ']
                + message@ + seq!['\n'],
    {
        log_line(timestamp, level, target, message)
    }
}

/// A record passes when its level is at most as verbose as the maximum.
pub fn enabled(level: LogLevel, max: LogLevel) -> (b: bool)
    ensures
        b == (rank(level) <= rank(max)),
{
    rank_of(level) <= rank_of(max)
}

/// Where a log line goes.
#[derive(Clone, Copy, Debug, PartialEq, Eq, Structural)]
pub enum LogSink {
    File,
    Stderr,
    Stdout,
}

/// The log file when there is one; else errors to standard error and the
/// rest to standard output.
pub fn sink(has_file: bool, level: LogLevel) -> (s: LogSink)
    ensures
        s == (if has_file {
            LogSink::File
        } else if level == LogLevel::Error {
            LogSink::Stderr
        } else {
            LogSink::Stdout
        }),
{
    if has_file {
        LogSink::File
    } else if level == LogLevel::Error {
        LogSink::Stderr
    } else {
        LogSink::Stdout
    }
}

pub open spec fn level_name(l: LogLevel) -> Seq<char> {
    match l {
        LogLevel::Error => "ERROR"@,
        LogLevel::Warn => "WARN"@,
        LogLevel::Info => "INFO"@,
        LogLevel::Debug => "DEBUG"@,
        LogLevel::Trace => "TRACE"@,
    }
}

fn level_str(l: LogLevel) -> (s: &'static str)
    ensures
        s@ == level_name(l),
{
    match l {
        LogLevel::Error => "ERROR",
        LogLevel::Warn => "WARN",
        LogLevel::Info => "INFO",
        LogLevel::Debug => "DEBUG",
        LogLevel::Trace => "TRACE",
    }
}

/// `"TIMESTAMP LEVEL TARGET: MESSAGE\n"`.
pub fn log_line(timestamp: &str, level: LogLevel, target: &str, message: &str) -> (s: String)
    ensures
        s@ == timestamp@ + seq![' '] + level_name(level) + seq![' '] + target@ + seq![':', ' ']
            + message@ + seq!['\n'],
{
    let mut s = String::from_str(timestamp);
    push_char(&mut s, ' ');
    s.append(level_str(level));
    push_char(&mut s, ' ');
    s.append(target);
    push_char(&mut s, ':');
    push_char(&mut s, ' ');
    s.append(message);
    push_char(&mut s, '\n');
    s
}

} // verus!
