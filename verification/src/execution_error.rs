//! Errors of the commands that drive `adb`, how grave they are, what to do
//! about them, and the line that reports them.
use vstd::prelude::*;
use vstd::string::StringExecFns;
use crate::text::{push_char, push_signed_decimal, signed_decimal};

verus! {

// ANSI colour codes for terminal output.
pub const YELLOW: &'static str = "\x1b[33m";
pub const RED: &'static str = "\x1b[31m";
pub const RESET: &'static str = "\x1b[0m";

/// How grave a failure is for the user.
#[derive(Clone, Copy, Debug, PartialEq, Eq, Structural)]
pub enum Severity {
    /// Something is suboptimal but recoverable (latency, packet loss).
    Warning,
    /// Something failed and needs the user to act (disconnect, missing adb).
    Error,
}

/// The kinds of I/O failure that the classification tells apart; any other
/// kind is `Other`.
#[derive(Clone, Copy, Debug, PartialEq, Eq, Structural)]
pub enum ErrorKind {
    NotFound,
    ConnectionRefused,
    ConnectionReset,
    ConnectionAborted,
    TimedOut,
    WouldBlock,
    Other,
}

/// An I/O failure: its kind and its description.
#[derive(Debug)]
pub struct IoError {
    pub kind: ErrorKind,
    pub message: String,
}

impl IoError {
    pub fn new(kind: ErrorKind, message: String) -> (e: Self)
        ensures
            e.kind == kind,
            e.message@ == message@,
    {
        IoError { kind, message }
    }

    pub fn kind(&self) -> (k: ErrorKind)
        ensures
            k == self.kind,
    {
        self.kind
    }
}

/// How a process ended: with an exit code, or killed by a signal.
#[derive(Clone, Copy, Debug, PartialEq, Eq, Structural)]
pub enum Termination {
    Value(i32),
    Signal(i32),
}

/// The termination of a process from its exit code, or else from the signal
/// that killed it (-1 when unknown).
pub open spec fn spec_termination(code: Option<i32>, signal: Option<i32>) -> Termination {
    match code {
        Some(c) => Termination::Value(c),
        None => Termination::Signal(
            match signal {
                Some(s) => s,
                None => -1i32,
            },
        ),
    }
}

impl Termination {
    /// The termination of a process from its exit code, or else from the
    /// signal that killed it (-1 when unknown).
    pub fn from(code: Option<i32>, signal: Option<i32>) -> (t: Self)
        ensures
            t == spec_termination(code, signal),
    {
        match code {
            Some(c) => Termination::Value(c),
            None => Termination::Signal(
                match signal {
                    Some(s) => s,
                    None => -1i32,
                },
            ),
        }
    }
}

/// A command line: the program and its arguments.
#[derive(Debug)]
pub struct Cmd {
    pub command: String,
    pub args: Vec<String>,
}

/// `Debug` formatting of a string: quoted, with escapes (named, not spelt out).
pub uninterp spec fn debug_quoted(s: Seq<char>) -> Seq<char>;

/// The `Debug` formatting of a string, through `format!("{:?}", ..)`.
#[verifier::external_body]
fn debug_string(s: &String) -> (r: String)
    ensures
        r@ == debug_quoted(s@),
{
    format!("{:?}", s)
}

/// The items joined with ", ", each formatted with `debug_quoted`.
pub open spec fn debug_items(args: Seq<Seq<char>>) -> Seq<char>
    decreases args.len(),
{
    if args.len() == 0 {
        Seq::empty()
    } else if args.len() == 1 {
        debug_quoted(args[0])
    } else {
        debug_items(args.drop_last()) + seq![',', ' '] + debug_quoted(args.last())
    }
}

/// The text of a command: the program, a space, and the arguments as a list.
pub open spec fn cmd_text(command: Seq<char>, args: Seq<Seq<char>>) -> Seq<char> {
    command + seq![' ', '['] + debug_items(args) + seq![']']
}

pub open spec fn strings_view(v: Seq<String>) -> Seq<Seq<char>> {
    v.map_values(|s: String| s@)
}

impl Cmd {
    pub fn new(command: String, args: Vec<String>) -> (c: Cmd)
        ensures
            c.command@ == command@,
            strings_view(c.args@) == strings_view(args@),
    {
        Cmd { command, args }
    }

    /// `"program [\"arg\", ...]"`.
    pub fn to_string(&self) -> (s: String)
        ensures
            s@ == cmd_text(self.command@, strings_view(self.args@)),
    {
        let mut s = String::new();
        s.append(self.command.as_str());
        push_char(&mut s, ' ');
        push_char(&mut s, '[');
        let ghost prefix = s@;
        let mut i: usize = 0;
        while i < self.args.len()
            invariant
                i <= self.args@.len(),
                s@ == prefix + debug_items(strings_view(self.args@).take(i as int)),
            decreases self.args@.len() - i,
        {
            let ghost before = s@;
            if i != 0 {
                push_char(&mut s, ',');
                push_char(&mut s, ' ');
            }
            let quoted = debug_string(&self.args[i]);
            s.append(quoted.as_str());
            proof {
                let all = strings_view(self.args@);
                assert(all.take(i + 1).drop_last() =~= all.take(i as int));
                assert(all.take(i + 1).last() == self.args@[i as int]@);
                assert(s@ =~= prefix + debug_items(all.take(i + 1)));
            }
            i = i + 1;
        }
        push_char(&mut s, ']');
        proof {
            assert(strings_view(self.args@).take(self.args@.len() as int) =~= strings_view(self.args@));
            assert(s@ =~= cmd_text(self.command@, strings_view(self.args@)));
        }
        s
    }
}

/// A process that ended with a failure status.
#[derive(Debug)]
pub struct ProcessStatusError {
    pub cmd: Cmd,
    pub termination: Termination,
}

impl ProcessStatusError {
    /// The failure of `cmd`, which ended with exit code `code`, or else was
    /// killed by `signal`.
    pub fn new(cmd: Cmd, code: Option<i32>, signal: Option<i32>) -> (e: Self)
        ensures
            e.cmd == cmd,
            e.termination == spec_termination(code, signal),
    {
        ProcessStatusError { cmd, termination: Termination::from(code, signal) }
    }

    /// `"CMD returned CODE"` or `"CMD killed by signal SIG"`.
    pub fn to_string(&self) -> (s: String)
        ensures
            s@ == status_text(cmd_text(self.cmd.command@, strings_view(self.cmd.args@)), self.termination),
    {
        let mut s = self.cmd.to_string();
        match self.termination {
            Termination::Value(code) => {
                s.append(" returned ");
                push_signed_decimal(&mut s, code);
            },
            Termination::Signal(sig) => {
                s.append(" killed by signal ");
                push_signed_decimal(&mut s, sig);
            },
        }
        s
    }
}

pub open spec fn status_text(cmd: Seq<char>, t: Termination) -> Seq<char> {
    match t {
        Termination::Value(code) => cmd + " returned "@ + signed_decimal(code as int),
        Termination::Signal(sig) => cmd + " killed by signal "@ + signed_decimal(sig as int),
    }
}

/// A process that could not be run.
#[derive(Debug)]
pub struct ProcessIoError {
    pub cmd: Cmd,
    pub error: IoError,
}

impl ProcessIoError {
    pub fn new(cmd: Cmd, error: IoError) -> (e: Self)
        ensures
            e.cmd == cmd,
            e.error == error,
    {
        ProcessIoError { cmd, error }
    }

    /// `"CMD failed: ERROR"`.
    pub fn to_string(&self) -> (s: String)
        ensures
            s@ == cmd_text(self.cmd.command@, strings_view(self.cmd.args@)) + " failed: "@
                + self.error.message@,
    {
        let mut s = self.cmd.to_string();
        s.append(" failed: ");
        s.append(self.error.message.as_str());
        s
    }
}

#[derive(Debug)]
pub enum CommandExecutionError {
    ProcessIo(ProcessIoError),
    ProcessStatus(ProcessStatusError),
    Io(IoError),
}

/// The severity of an error: connection resets, aborts, timeouts and
/// would-block I/O failures are warnings, and so is exit code 1 of a process
/// (often a missing device or a refused command); everything else is an error.
pub open spec fn spec_severity(e: CommandExecutionError) -> Severity {
    match e {
        CommandExecutionError::Io(err) => match err.kind {
            ErrorKind::ConnectionReset | ErrorKind::ConnectionAborted | ErrorKind::TimedOut
            | ErrorKind::WouldBlock => Severity::Warning,
            _ => Severity::Error,
        },
        CommandExecutionError::ProcessStatus(err) => if err.termination == Termination::Value(1) {
            Severity::Warning
        } else {
            Severity::Error
        },
        CommandExecutionError::ProcessIo(_) => Severity::Error,
    }
}

/// The suggestion shown for an error.
pub open spec fn spec_suggestion(e: CommandExecutionError) -> Seq<char> {
    match e {
        CommandExecutionError::ProcessIo(err) => if err.error.kind == ErrorKind::NotFound {
            "Install adb or set the ADB env var"@
        } else {
            "Run `adb start-server`. Try a different USB cable or port"@
        },
        CommandExecutionError::ProcessStatus(err) => match err.termination {
            Termination::Value(1) => "Check `adb devices` shows your device and USB debugging is enabled"@,
            Termination::Value(_) => "Restart ADB: `adb kill-server && adb start-server`"@,
            Termination::Signal(_) => "ADB was killed by the system. Restart the daemon"@,
        },
        CommandExecutionError::Io(err) => match err.kind {
            ErrorKind::NotFound => "APK not found. Download from releases, build with `make apk`, or set GNIREHTET_APK"@,
            ErrorKind::ConnectionRefused => "Port in use or no device connected. Use `-p PORT` to change it"@,
            ErrorKind::TimedOut => "High latency or device disconnected. Check the cable"@,
            ErrorKind::ConnectionReset => "Connection reset. Cable issue or device unplugged"@,
            _ => "Check USB connection and try again"@,
        },
    }
}

/// The text of an error.
pub open spec fn error_text(e: CommandExecutionError) -> Seq<char> {
    match e {
        CommandExecutionError::ProcessIo(err) => cmd_text(err.cmd.command@, strings_view(err.cmd.args@))
            + " failed: "@ + err.error.message@,
        CommandExecutionError::ProcessStatus(err) => status_text(
            cmd_text(err.cmd.command@, strings_view(err.cmd.args@)),
            err.termination,
        ),
        CommandExecutionError::Io(err) => "IO: "@ + err.message@,
    }
}

/// The one-line report of an error: coloured by severity, a `!` for an error
/// or a `?` for a warning, the error, and the suggestion.
pub open spec fn error_line_text(e: CommandExecutionError) -> Seq<char> {
    let (prefix, mark) = if spec_severity(e) == Severity::Error {
        (RED@, seq!['!'])
    } else {
        (YELLOW@, seq!['?'])
    };
    prefix + mark + seq![' '] + error_text(e) + seq!['.', ' '] + spec_suggestion(e) + RESET@
}

/// Connection-level I/O failures (a reset or aborted connection, a timeout, an
/// operation that would block) are recoverable: warnings, whatever their
/// message. Missing files, refused connections and other I/O failures need the
/// user to act: errors.
pub proof fn lemma_io_severity(e: IoError)
    ensures
        (e.kind == ErrorKind::ConnectionAborted || e.kind == ErrorKind::ConnectionReset
            || e.kind == ErrorKind::TimedOut || e.kind == ErrorKind::WouldBlock) ==> spec_severity(
            CommandExecutionError::Io(e),
        ) == Severity::Warning,
        (e.kind == ErrorKind::NotFound || e.kind == ErrorKind::ConnectionRefused || e.kind
            == ErrorKind::Other) ==> spec_severity(CommandExecutionError::Io(e)) == Severity::Error,
{
}

/// The severity of an I/O failure depends on its kind alone, not on its
/// message.
pub proof fn lemma_io_severity_by_kind(e1: IoError, e2: IoError)
    requires
        e1.kind == e2.kind,
    ensures
        spec_severity(CommandExecutionError::Io(e1)) == spec_severity(CommandExecutionError::Io(e2)),
{
}

/// A command that could not be started is always an error; a command that
/// ended with status 1 is a warning, and any other status or a signal is an
/// error.
pub proof fn lemma_process_severity(p: ProcessIoError, s: ProcessStatusError)
    ensures
        spec_severity(CommandExecutionError::ProcessIo(p)) == Severity::Error,
        spec_severity(CommandExecutionError::ProcessStatus(s)) == Severity::Warning <==> s.termination
            == Termination::Value(1),
{
}

impl CommandExecutionError {
    pub fn severity(&self) -> (s: Severity)
        ensures
            s == spec_severity(*self),
    {
        match self {
            CommandExecutionError::Io(err) => {
                match err.kind {
                    ErrorKind::ConnectionReset | ErrorKind::ConnectionAborted | ErrorKind::TimedOut
                    | ErrorKind::WouldBlock => Severity::Warning,
                    _ => Severity::Error,
                }
            },
            CommandExecutionError::ProcessStatus(err) => {
                match err.termination {
                    Termination::Value(1) => Severity::Warning,
                    _ => Severity::Error,
                }
            },
            CommandExecutionError::ProcessIo(_) => Severity::Error,
        }
    }

    /// A human-readable suggestion for fixing this error.
    pub fn suggestion(&self) -> (s: &'static str)
        ensures
            s@ == spec_suggestion(*self),
    {
        match self {
            CommandExecutionError::ProcessIo(err) => {
                if err.error.kind == ErrorKind::NotFound {
                    "Install adb or set the ADB env var"
                } else {
                    "Run `adb start-server`. Try a different USB cable or port"
                }
            },
            CommandExecutionError::ProcessStatus(err) => match err.termination {
                Termination::Value(1) => {
                    "Check `adb devices` shows your device and USB debugging is enabled"
                },
                Termination::Value(_) => "Restart ADB: `adb kill-server && adb start-server`",
                Termination::Signal(_) => "ADB was killed by the system. Restart the daemon",
            },
            CommandExecutionError::Io(err) => match err.kind {
                ErrorKind::NotFound => {
                    "APK not found. Download from releases, build with `make apk`, or set GNIREHTET_APK"
                },
                ErrorKind::ConnectionRefused => {
                    "Port in use or no device connected. Use `-p PORT` to change it"
                },
                ErrorKind::TimedOut => "High latency or device disconnected. Check the cable",
                ErrorKind::ConnectionReset => "Connection reset. Cable issue or device unplugged",
                _ => "Check USB connection and try again",
            },
        }
    }

    /// The text of the error.
    pub fn to_string(&self) -> (s: String)
        ensures
            s@ == error_text(*self),
    {
        match self {
            CommandExecutionError::ProcessIo(err) => err.to_string(),
            CommandExecutionError::ProcessStatus(err) => err.to_string(),
            CommandExecutionError::Io(err) => {
                let mut s = String::from_str("IO: ");
                s.append(err.message.as_str());
                s
            },
        }
    }
}

/// The line that reports an error to the user.
pub fn error_line(err: &CommandExecutionError) -> (s: String)
    ensures
        s@ == error_line_text(*err),
{
    let is_error = err.severity() == Severity::Error;
    let mut s = String::from_str(if is_error { RED } else { YELLOW });
    push_char(&mut s, if is_error { '!' } else { '?' });
    push_char(&mut s, ' ');
    let text = err.to_string();
    s.append(text.as_str());
    push_char(&mut s, '.');
    push_char(&mut s, ' ');
    s.append(err.suggestion());
    s.append(RESET);
    s
}

impl From<ProcessIoError> for CommandExecutionError {
    fn from(error: ProcessIoError) -> (r: Self) {
        CommandExecutionError::ProcessIo(error)
    }
}

impl vstd::std_specs::convert::FromSpecImpl<ProcessIoError> for CommandExecutionError {
    open spec fn obeys_from_spec() -> bool {
        true
    }

    open spec fn from_spec(error: ProcessIoError) -> Self {
        CommandExecutionError::ProcessIo(error)
    }
}

impl From<ProcessStatusError> for CommandExecutionError {
    fn from(error: ProcessStatusError) -> (r: Self) {
        CommandExecutionError::ProcessStatus(error)
    }
}

impl vstd::std_specs::convert::FromSpecImpl<ProcessStatusError> for CommandExecutionError {
    open spec fn obeys_from_spec() -> bool {
        true
    }

    open spec fn from_spec(error: ProcessStatusError) -> Self {
        CommandExecutionError::ProcessStatus(error)
    }
}

impl From<IoError> for CommandExecutionError {
    fn from(error: IoError) -> (r: Self) {
        CommandExecutionError::Io(error)
    }
}

impl vstd::std_specs::convert::FromSpecImpl<IoError> for CommandExecutionError {
    open spec fn obeys_from_spec() -> bool {
        true
    }

    open spec fn from_spec(error: IoError) -> Self {
        CommandExecutionError::Io(error)
    }
}

} // verus!
