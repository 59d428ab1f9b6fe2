//! Severities of the native runtime's log, how they map to log levels, and
//! the shape in which its messages are passed on.

use crate::foreign::{ForeignCall, ForeignReply, Rs2Failure};
use crate::kind::Rs2Exception;
use vstd::prelude::*;
use vstd::string::*;

verus! {

/// `log::Level`, the level of a record of the `log` crate, declared with the
/// five variants that the crate gives it: `Error`, `Warn`, `Info`, `Debug` and
/// `Trace`. Nothing more is claimed of it.
#[verifier::external_type_specification]
pub struct ExLevel(log::Level);

/// The severity level of a log message.
#[derive(Debug, Clone, Copy, PartialEq, Eq, Structural)]
pub enum Rs2LogSeverity {
    /// Detailed information about ordinary operations.
    Debug,
    /// Terse information about ordinary operations.
    Info,
    /// Indication of possible failure.
    Warn,
    /// Indication of definite failure.
    Error,
    /// Indication of unrecoverable failure.
    Fatal,
    /// No logging will occur.
    Off,
    /// Include any and all log messages.
    All,
}

impl Rs2LogSeverity {
    /// The ordinal by which the native runtime knows this severity. `All` is
    /// the lowest severity there is, and shares its ordinal.
    pub open spec fn ordinal(self) -> u32 {
        match self {
            Rs2LogSeverity::Debug => 0,
            Rs2LogSeverity::Info => 1,
            Rs2LogSeverity::Warn => 2,
            Rs2LogSeverity::Error => 3,
            Rs2LogSeverity::Fatal => 4,
            Rs2LogSeverity::Off => 5,
            Rs2LogSeverity::All => 0,
        }
    }

    /// The severity that an ordinal of the native runtime stands for; every
    /// ordinal beyond the named ones stands for `All`.
    pub open spec fn of_ordinal(ordinal: u32) -> Rs2LogSeverity {
        match ordinal {
            0 => Rs2LogSeverity::Debug,
            1 => Rs2LogSeverity::Info,
            2 => Rs2LogSeverity::Warn,
            3 => Rs2LogSeverity::Error,
            4 => Rs2LogSeverity::Fatal,
            5 => Rs2LogSeverity::Off,
            _ => Rs2LogSeverity::All,
        }
    }

    /// The log level at which messages of this severity are passed on.
    pub open spec fn level_spec(self) -> log::Level {
        match self {
            Rs2LogSeverity::Debug => log::Level::Debug,
            Rs2LogSeverity::Info => log::Level::Info,
            Rs2LogSeverity::Warn => log::Level::Warn,
            Rs2LogSeverity::Error => log::Level::Error,
            Rs2LogSeverity::Fatal => log::Level::Error,
            Rs2LogSeverity::Off => log::Level::Error,
            Rs2LogSeverity::All => log::Level::Trace,
        }
    }

    /// The least severity that has to be asked of the native runtime for a
    /// log level to be served.
    pub open spec fn of_level(level: log::Level) -> Rs2LogSeverity {
        match level {
            log::Level::Debug => Rs2LogSeverity::Debug,
            log::Level::Info => Rs2LogSeverity::Info,
            log::Level::Warn => Rs2LogSeverity::Warn,
            log::Level::Error => Rs2LogSeverity::Error,
            log::Level::Trace => Rs2LogSeverity::All,
        }
    }

    /// The ordinal by which the native runtime knows this severity.
    pub fn to_u32(&self) -> (ordinal: u32)
        ensures
            ordinal == self.ordinal(),
    {
        match self {
            Rs2LogSeverity::Debug => 0,
            Rs2LogSeverity::Info => 1,
            Rs2LogSeverity::Warn => 2,
            Rs2LogSeverity::Error => 3,
            Rs2LogSeverity::Fatal => 4,
            Rs2LogSeverity::Off => 5,
            Rs2LogSeverity::All => 0,
        }
    }

    /// The severity that an ordinal of the native runtime stands for.
    pub fn from_u32(ordinal: u32) -> (severity: Rs2LogSeverity)
        ensures
            severity == Self::of_ordinal(ordinal),
    {
        match ordinal {
            0 => Rs2LogSeverity::Debug,
            1 => Rs2LogSeverity::Info,
            2 => Rs2LogSeverity::Warn,
            3 => Rs2LogSeverity::Error,
            4 => Rs2LogSeverity::Fatal,
            5 => Rs2LogSeverity::Off,
            _ => Rs2LogSeverity::All,
        }
    }

    /// The log level at which messages of this severity are passed on.
    pub fn to_level(&self) -> (level: log::Level)
        ensures
            level == self.level_spec(),
    {
        match self {
            Rs2LogSeverity::Debug => log::Level::Debug,
            Rs2LogSeverity::Info => log::Level::Info,
            Rs2LogSeverity::Warn => log::Level::Warn,
            Rs2LogSeverity::Error => log::Level::Error,
            Rs2LogSeverity::Fatal => log::Level::Error,
            Rs2LogSeverity::Off => log::Level::Error,
            Rs2LogSeverity::All => log::Level::Trace,
        }
    }

    /// The least severity that has to be asked of the native runtime for a
    /// log level to be served.
    pub fn from_level(level: log::Level) -> (severity: Rs2LogSeverity)
        ensures
            severity == Self::of_level(level),
    {
        match level {
            log::Level::Debug => Rs2LogSeverity::Debug,
            log::Level::Info => Rs2LogSeverity::Info,
            log::Level::Warn => Rs2LogSeverity::Warn,
            log::Level::Error => Rs2LogSeverity::Error,
            log::Level::Trace => Rs2LogSeverity::All,
        }
    }
}

impl From<log::Level> for Rs2LogSeverity {
    fn from(level: log::Level) -> (severity: Rs2LogSeverity) {
        Rs2LogSeverity::from_level(level)
    }
}

impl vstd::std_specs::convert::FromSpecImpl<log::Level> for Rs2LogSeverity {
    open spec fn obeys_from_spec() -> bool {
        true
    }

    open spec fn from_spec(level: log::Level) -> Rs2LogSeverity {
        Rs2LogSeverity::of_level(level)
    }
}

impl From<Rs2LogSeverity> for log::Level {
    fn from(severity: Rs2LogSeverity) -> (level: log::Level) {
        severity.to_level()
    }
}

impl vstd::std_specs::convert::FromSpecImpl<Rs2LogSeverity> for log::Level {
    open spec fn obeys_from_spec() -> bool {
        true
    }

    open spec fn from_spec(severity: Rs2LogSeverity) -> log::Level {
        severity.level_spec()
    }
}

impl From<u32> for Rs2LogSeverity {
    fn from(ordinal: u32) -> (severity: Rs2LogSeverity) {
        Rs2LogSeverity::from_u32(ordinal)
    }
}

impl vstd::std_specs::convert::FromSpecImpl<u32> for Rs2LogSeverity {
    open spec fn obeys_from_spec() -> bool {
        true
    }

    open spec fn from_spec(ordinal: u32) -> Rs2LogSeverity {
        Rs2LogSeverity::of_ordinal(ordinal)
    }
}

impl From<Rs2LogSeverity> for u32 {
    fn from(severity: Rs2LogSeverity) -> (ordinal: u32) {
        severity.to_u32()
    }
}

impl vstd::std_specs::convert::FromSpecImpl<Rs2LogSeverity> for u32 {
    open spec fn obeys_from_spec() -> bool {
        true
    }

    open spec fn from_spec(severity: Rs2LogSeverity) -> u32 {
        severity.ordinal()
    }
}

/// A log level, turned into a severity and back, is the level it was. A
/// severity, read back from its ordinal, is the severity it was, but for
/// `All`, which comes back as the lowest severity.
pub proof fn lemma_severity_round_trips(level: log::Level, severity: Rs2LogSeverity)
    ensures
        Rs2LogSeverity::of_level(level).level_spec() == level,
        severity != Rs2LogSeverity::All ==> Rs2LogSeverity::of_ordinal(severity.ordinal())
            == severity,
        Rs2LogSeverity::of_ordinal(Rs2LogSeverity::All.ordinal()) == Rs2LogSeverity::Debug,
{
}

/// The errors that can occur when the log is set up or read.
#[derive(Debug, PartialEq, Eq)]
pub enum LogError {
    /// Failed to log to callback.
    LogToCallbackFailed(Rs2Exception, String),
    /// Failed to create the log directory.
    CreateLogDirectoryFailed(String),
    /// Failed to log to console.
    LogToConsoleFailed(Rs2Exception, String),
    /// Failed to log to file.
    LogToFileFailed(Rs2Exception, String),
    /// Failed to reset logger.
    ResetLoggerFailed(Rs2Exception, String),
    /// Failed to enable rolling log file.
    EnableRollingLogFileFailed(Rs2Exception, String),
    /// Failed to log a message.
    LogFailed(Rs2Exception, String),
    /// Failed to get full log message.
    GetFullLogMessageFailed(Rs2Exception, String),
}

/// A message of the native runtime's log.
#[derive(Debug, Default, Clone, PartialEq, Eq)]
pub struct LogMessage {
    /// The source file that logged the message.
    pub filename: String,
    /// The line of that file.
    pub line_number: u32,
    /// The text of the message.
    pub message: String,
}

/// The decimal digit `digit`, as a character.
pub open spec fn digit_char(digit: nat) -> char {
    if digit == 0 {
        '0'
    } else if digit == 1 {
        '1'
    } else if digit == 2 {
        '2'
    } else if digit == 3 {
        '3'
    } else if digit == 4 {
        '4'
    } else if digit == 5 {
        '5'
    } else if digit == 6 {
        '6'
    } else if digit == 7 {
        '7'
    } else if digit == 8 {
        '8'
    } else {
        '9'
    }
}

/// The decimal numeral of `n`, without leading zeros.
pub open spec fn decimal(n: nat) -> Seq<char>
    decreases n,
{
    if n < 10 {
        seq![digit_char(n)]
    } else {
        decimal(n / 10).push(digit_char(n % 10))
    }
}

/// The target under which a message of the native runtime is logged: the
/// runtime's name, the source file and the line.
pub open spec fn log_target_spec(filename: Seq<char>, line_number: u32) -> Seq<char> {
    "librealsense::"@ + filename + ":"@ + decimal(line_number as nat)
}

/// The numeral of one decimal digit.
fn digit_str(digit: u32) -> (numeral: &'static str)
    requires
        digit < 10,
    ensures
        numeral@ == seq![digit_char(digit as nat)],
{
    proof {
        reveal_strlit("0");
        reveal_strlit("1");
        reveal_strlit("2");
        reveal_strlit("3");
        reveal_strlit("4");
        reveal_strlit("5");
        reveal_strlit("6");
        reveal_strlit("7");
        reveal_strlit("8");
        reveal_strlit("9");
    }
    let numeral = match digit {
        0 => "0",
        1 => "1",
        2 => "2",
        3 => "3",
        4 => "4",
        5 => "5",
        6 => "6",
        7 => "7",
        8 => "8",
        _ => "9",
    };
    numeral
}

/// Appends the decimal numeral of `n` to `text`.
fn append_decimal(text: &mut String, n: u32)
    ensures
        final(text)@ == old(text)@ + decimal(n as nat),
    decreases n,
{
    if n >= 10 {
        append_decimal(text, n / 10);
    }
    text.append(digit_str(n % 10));
}

impl LogMessage {
    /// The target under which this message is logged.
    pub fn log_target(&self) -> (target: String)
        ensures
            target@ == log_target_spec(self.filename@, self.line_number),
    {
        let mut target = String::from_str("librealsense::");
        target.append(self.filename.as_str());
        target.append(":");
        append_decimal(&mut target, self.line_number);
        target
    }
}

/// What a call that sets up the log makes of its reply: the failure of the
/// call, if it failed.
pub open spec fn setup_failure(reply: ForeignReply) -> Option<Rs2Failure> {
    reply.failure_spec()
}

/// Puts together a message of the native runtime's log from what was read of
/// it: the text, the source file and the line. A failure to read the file
/// name comes before one to read the line.
pub fn get_full_log_message(
    message: String,
    filename: Result<String, Rs2Failure>,
    line_number: Result<u32, Rs2Failure>,
) -> (result: Result<LogMessage, LogError>)
    ensures
        result == (match (filename, line_number) {
            (Err(failure), _) => Err::<LogMessage, LogError>(
                LogError::GetFullLogMessageFailed(failure.kind, failure.message),
            ),
            (Ok(_), Err(failure)) => Err(
                LogError::GetFullLogMessageFailed(failure.kind, failure.message),
            ),
            (Ok(filename), Ok(line_number)) => Ok(LogMessage { filename, line_number, message }),
        }),
{
    match filename {
        Err(failure) => Err(LogError::GetFullLogMessageFailed(failure.kind, failure.message)),
        Ok(filename) => match line_number {
            Err(failure) => Err(
                LogError::GetFullLogMessageFailed(failure.kind, failure.message),
            ),
            Ok(line_number) => Ok(LogMessage { filename, line_number, message }),
        },
    }
}

/// The call that makes the native runtime hand its log messages of
/// `min_severity` and above to a callback.
pub fn log_to_callback(min_severity: Rs2LogSeverity) -> (call: ForeignCall)
    ensures
        call == (ForeignCall::LogToCallback { min_severity }),
{
    ForeignCall::LogToCallback { min_severity }
}

/// The outcome of `log_to_callback`, from the reply to its call.
pub fn log_to_callback_reply(reply: ForeignReply) -> (result: Result<(), LogError>)
    ensures
        result == (match setup_failure(reply) {
            Some(failure) => Err::<(), LogError>(
                LogError::LogToCallbackFailed(failure.kind, failure.message),
            ),
            None => Ok(()),
        }),
{
    match reply.into_failure() {
        Some(failure) => Err(LogError::LogToCallbackFailed(failure.kind, failure.message)),
        None => Ok(()),
    }
}

/// The call that passes the native runtime's log on to the log of this
/// program, for messages that `level` lets through.
pub fn inject_rs_log_to_rust(level: log::Level) -> (call: ForeignCall)
    ensures
        call == (ForeignCall::LogToCallback { min_severity: Rs2LogSeverity::of_level(level) }),
{
    log_to_callback(Rs2LogSeverity::from_level(level))
}

/// The call that makes the native runtime write its log messages of
/// `min_severity` and above to the console.
pub fn log_to_console(min_severity: Rs2LogSeverity) -> (call: ForeignCall)
    ensures
        call == (ForeignCall::LogToConsole { min_severity }),
{
    ForeignCall::LogToConsole { min_severity }
}

/// The outcome of `log_to_console`, from the reply to its call.
pub fn log_to_console_reply(reply: ForeignReply) -> (result: Result<(), LogError>)
    ensures
        result == (match setup_failure(reply) {
            Some(failure) => Err::<(), LogError>(
                LogError::LogToConsoleFailed(failure.kind, failure.message),
            ),
            None => Ok(()),
        }),
{
    match reply.into_failure() {
        Some(failure) => Err(LogError::LogToConsoleFailed(failure.kind, failure.message)),
        None => Ok(()),
    }
}

/// The parent of a path, as `std::path::Path::parent` gives it: the path
/// without its last component, and none for a path that ends in a root or is
/// empty.
pub uninterp spec fn path_parent(path: Seq<char>) -> Option<Seq<char>>;

/// `std::path::Path::parent` on the path that `path` spells. What it returns
/// depends on the path alone, and is named here, not written out; the parent
/// of a path that is text is text.
#[verifier::external_body]
fn parent_of(path: &str) -> (parent: Option<String>)
    ensures
        (match parent {
            Some(directory) => path_parent(path@) == Some(directory@),
            None => path_parent(path@) is None,
        }),
{
    match std::path::Path::new(path).parent() {
        Some(parent) => Some(parent.to_string_lossy().into_owned()),
        None => None,
    }
}

/// The directory that has to be there before the log can be written to the
/// file at `file_path`: the parent of the path. A path without a parent is
/// refused, with the path as the reason.
pub fn log_directory(file_path: &str) -> (result: Result<String, LogError>)
    ensures
        (match path_parent(file_path@) {
            Some(directory) => result matches Ok(found) && found@ == directory,
            None => result matches Err(LogError::CreateLogDirectoryFailed(reason)) && reason@
                == file_path@,
        }),
{
    log_directory_from(file_path, parent_of(file_path))
}

/// The directory of the log file at `file_path`, from the parent that was
/// found for the path.
pub fn log_directory_from(file_path: &str, parent: Option<String>) -> (result: Result<
    String,
    LogError,
>)
    ensures
        (match parent {
            Some(directory) => result == Ok::<String, LogError>(directory),
            None => result matches Err(LogError::CreateLogDirectoryFailed(reason)) && reason@
                == file_path@,
        }),
{
    match parent {
        Some(directory) => Ok(directory),
        None => Err(LogError::CreateLogDirectoryFailed(String::from_str(file_path))),
    }
}

/// Whether `text` holds a NUL character, which no path handed to the native
/// runtime may hold.
pub fn contains_nul(text: &str) -> (found: bool)
    ensures
        found == text@.contains('\0'),
{
    let n = text.unicode_len();
    let mut i: usize = 0;
    while i < n
        invariant
            i <= n,
            n == text@.len(),
            forall|j: int| 0 <= j < i ==> text@[j] != '\0',
        decreases n - i,
    {
        if text.get_char(i) == '\0' {
            return true;
        }
        i += 1;
    }
    false
}

/// The call that makes the native runtime write its log messages of
/// `min_severity` and above to the file at `file_path`, once the directory
/// that `log_directory` names is there. `directory` says how making it went:
/// the error's text if it failed. A directory that could not be made is the
/// first error; a path with a NUL character in it is the second.
pub fn log_to_file(min_severity: Rs2LogSeverity, file_path: &str, directory: Result<(), String>)
    -> (result: Result<ForeignCall, LogError>)
    ensures
        (match directory {
            Err(reason) => result == Err::<ForeignCall, LogError>(
                LogError::CreateLogDirectoryFailed(reason),
            ),
            Ok(()) => if file_path@.contains('\0') {
                result matches Err(LogError::LogToFileFailed(kind, reason)) && kind
                    == Rs2Exception::InvalidValue && reason@
                    == "Failed to convert file path to CString."@
            } else {
                result == Ok::<ForeignCall, LogError>(ForeignCall::LogToFile { min_severity })
            },
        }),
{
    match directory {
        Err(reason) => Err(LogError::CreateLogDirectoryFailed(reason)),
        Ok(()) => {
            if contains_nul(file_path) {
                Err(
                    LogError::LogToFileFailed(
                        Rs2Exception::InvalidValue,
                        String::from_str("Failed to convert file path to CString."),
                    ),
                )
            } else {
                Ok(ForeignCall::LogToFile { min_severity })
            }
        },
    }
}

/// The outcome of `log_to_file`, from the reply to its call.
pub fn log_to_file_reply(reply: ForeignReply) -> (result: Result<(), LogError>)
    ensures
        result == (match setup_failure(reply) {
            Some(failure) => Err::<(), LogError>(
                LogError::LogToFileFailed(failure.kind, failure.message),
            ),
            None => Ok(()),
        }),
{
    match reply.into_failure() {
        Some(failure) => Err(LogError::LogToFileFailed(failure.kind, failure.message)),
        None => Ok(()),
    }
}

/// The call that stops all logging of the native runtime.
pub fn reset_logger() -> (call: ForeignCall)
    ensures
        call == ForeignCall::ResetLogger,
{
    ForeignCall::ResetLogger
}

/// The outcome of `reset_logger`, from the reply to its call.
pub fn reset_logger_reply(reply: ForeignReply) -> (result: Result<(), LogError>)
    ensures
        result == (match setup_failure(reply) {
            Some(failure) => Err::<(), LogError>(
                LogError::ResetLoggerFailed(failure.kind, failure.message),
            ),
            None => Ok(()),
        }),
{
    match reply.into_failure() {
        Some(failure) => Err(LogError::ResetLoggerFailed(failure.kind, failure.message)),
        None => Ok(()),
    }
}

/// The call that makes the native runtime roll its log file over: once the
/// file reaches half of `max_size` bytes it is renamed, and a new one begun.
pub fn enable_rolling_log_file(max_size: u32) -> (call: ForeignCall)
    ensures
        call == (ForeignCall::EnableRollingLogFile { max_size }),
{
    ForeignCall::EnableRollingLogFile { max_size }
}

/// The outcome of `enable_rolling_log_file`, from the reply to its call.
pub fn enable_rolling_log_file_reply(reply: ForeignReply) -> (result: Result<(), LogError>)
    ensures
        result == (match setup_failure(reply) {
            Some(failure) => Err::<(), LogError>(
                LogError::EnableRollingLogFileFailed(failure.kind, failure.message),
            ),
            None => Ok(()),
        }),
{
    match reply.into_failure() {
        Some(failure) => Err(LogError::EnableRollingLogFileFailed(failure.kind, failure.message)),
        None => Ok(()),
    }
}

} // verus!
