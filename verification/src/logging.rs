//! Log levels and log lines.

use crate::text::{self, concat3, nat_to_text, same_text, to_lower};
use vstd::prelude::*;
use vstd::string::*;

verus! {

/// How much is logged, and how grave a message is.
#[derive(Clone, Copy, Debug, PartialEq, Eq, PartialOrd, Ord, Structural)]
pub enum LogLevel {
    Error,
    Info,
    Debug,
    Trace,
}

/// The number of a level: the higher, the more is logged.
pub open spec fn level_code(level: LogLevel) -> u8 {
    match level {
        LogLevel::Error => 0,
        LogLevel::Info => 1,
        LogLevel::Debug => 2,
        LogLevel::Trace => 3,
    }
}

/// The level at which a program starts.
pub const DEFAULT_LEVEL: LogLevel = LogLevel::Info;

/// The number to store when the level is set to `level`.
pub fn set_level(level: LogLevel) -> (code: u8)
    ensures
        code == level_code(level),
{
    match level {
        LogLevel::Error => 0,
        LogLevel::Info => 1,
        LogLevel::Debug => 2,
        LogLevel::Trace => 3,
    }
}

/// The level that a stored number stands for; a number beyond the last level
/// stands for the last one.
pub open spec fn stored_level(code: u8) -> LogLevel {
    if code == 0 {
        LogLevel::Error
    } else if code == 1 {
        LogLevel::Info
    } else if code == 2 {
        LogLevel::Debug
    } else {
        LogLevel::Trace
    }
}

/// The level that a stored number stands for.
pub fn level(code: u8) -> (level: LogLevel)
    ensures
        level == stored_level(code),
{
    match code {
        0 => LogLevel::Error,
        1 => LogLevel::Info,
        2 => LogLevel::Debug,
        _ => LogLevel::Trace,
    }
}

/// The level that was set is the level that is read.
pub proof fn level_reads_back(level: LogLevel)
    ensures
        stored_level(level_code(level)) == level,
{
}

/// The level that `word` names, whatever its case.
pub open spec fn named_level(word: Seq<char>) -> Option<LogLevel> {
    if text::lower(word) == "error"@ {
        Some(LogLevel::Error)
    } else if text::lower(word) == "info"@ {
        Some(LogLevel::Info)
    } else if text::lower(word) == "debug"@ {
        Some(LogLevel::Debug)
    } else if text::lower(word) == "trace"@ {
        Some(LogLevel::Trace)
    } else {
        None
    }
}

/// The level that `value` names, whatever its case.
pub fn parse_level(value: &str) -> (level: Option<LogLevel>)
    ensures
        level == named_level(value@),
{
    let word: String = to_lower(value);
    if same_text(word.as_str(), "error") {
        Some(LogLevel::Error)
    } else if same_text(word.as_str(), "info") {
        Some(LogLevel::Info)
    } else if same_text(word.as_str(), "debug") {
        Some(LogLevel::Debug)
    } else if same_text(word.as_str(), "trace") {
        Some(LogLevel::Trace)
    } else {
        None
    }
}

/// A line to write, and where.
#[derive(Debug)]
pub struct LogLine {
    /// Whether the line goes to standard error; the others go to standard output.
    pub to_stderr: bool,
    pub text: String,
}

/// A [`LogLine`] as a value.
pub struct LogLineView {
    pub to_stderr: bool,
    pub text: Seq<char>,
}

impl View for LogLine {
    type V = LogLineView;

    open spec fn view(&self) -> LogLineView {
        LogLineView { to_stderr: self.to_stderr, text: self.text@ }
    }
}

/// An optional line as a value.
pub open spec fn line_of(line: Option<LogLine>) -> Option<LogLineView> {
    match line {
        Some(l) => Some(l@),
        None => None,
    }
}

/// How a level is written at the head of a line.
pub open spec fn level_prefix(level: LogLevel) -> Seq<char> {
    match level {
        LogLevel::Error => "ERROR"@,
        LogLevel::Info => "INFO"@,
        LogLevel::Debug => "DEBUG"@,
        LogLevel::Trace => "TRACE"@,
    }
}

/// The line for `message` at `level` while the program logs at `current`: none
/// if the message is of a finer level.
pub open spec fn log_line(
    current: LogLevel,
    level: LogLevel,
    message: Seq<char>,
) -> Option<LogLineView> {
    if level_code(level) > level_code(current) {
        None
    } else {
        Some(
            LogLineView {
                to_stderr: level == LogLevel::Error,
                text: "["@ + level_prefix(level) + "] "@ + message,
            },
        )
    }
}

/// The line for `message` at `level` while the program logs at `current`.
pub fn log(current: LogLevel, level: LogLevel, message: &str) -> (line: Option<LogLine>)
    ensures
        line_of(line) == log_line(current, level, message@),
{
    if set_level(level) > set_level(current) {
        return None;
    }
    let prefix = match level {
        LogLevel::Error => "ERROR",
        LogLevel::Info => "INFO",
        LogLevel::Debug => "DEBUG",
        LogLevel::Trace => "TRACE",
    };
    let to_stderr: bool = match level {
        LogLevel::Error => true,
        _ => false,
    };
    let mut text: String = concat3("[", prefix, "] ");
    text.append(message);
    Some(LogLine { to_stderr, text })
}

/// The line for an error.
pub fn error(current: LogLevel, message: &str) -> (line: Option<LogLine>)
    ensures
        line_of(line) == log_line(current, LogLevel::Error, message@),
{
    log(current, LogLevel::Error, message)
}

/// The line for a notice.
pub fn info(current: LogLevel, message: &str) -> (line: Option<LogLine>)
    ensures
        line_of(line) == log_line(current, LogLevel::Info, message@),
{
    log(current, LogLevel::Info, message)
}

/// The line for a detail.
pub fn debug(current: LogLevel, message: &str) -> (line: Option<LogLine>)
    ensures
        line_of(line) == log_line(current, LogLevel::Debug, message@),
{
    log(current, LogLevel::Debug, message)
}

/// The line for the finest detail.
pub fn trace(current: LogLevel, message: &str) -> (line: Option<LogLine>)
    ensures
        line_of(line) == log_line(current, LogLevel::Trace, message@),
{
    log(current, LogLevel::Trace, message)
}

/// How a request is named in the log.
pub open spec fn request_label(method: Seq<char>, endpoint: Seq<char>) -> Seq<char> {
    "HTTP "@ + method + " "@ + endpoint
}

/// How a request is named in the log and in errors.
pub fn request_name(method: &str, endpoint: &str) -> (text: String)
    ensures
        text@ == request_label(method@, endpoint@),
{
    let mut text: String = concat3("HTTP ", method, " ");
    text.append(endpoint);
    text
}

/// What is logged of a request that was answered with a success status.
pub open spec fn success_message(
    method: Seq<char>,
    endpoint: Seq<char>,
    status: u16,
) -> Seq<char> {
    request_label(method, endpoint) + " -> "@ + text::decimal_nat(status as nat)
}

/// What is logged of the body of an answer.
pub open spec fn body_message(
    method: Seq<char>,
    endpoint: Seq<char>,
    body: Seq<char>,
) -> Seq<char> {
    request_label(method, endpoint) + " response body:\n"@ + body
}

/// What is logged of a request that failed.
pub open spec fn failure_message(
    method: Seq<char>,
    endpoint: Seq<char>,
    message: Seq<char>,
) -> Seq<char> {
    request_label(method, endpoint) + ": "@ + message
}

/// The line for a request that is about to be sent.
pub fn http_request(current: LogLevel, method: &str, endpoint: &str) -> (line: Option<LogLine>)
    ensures
        line_of(line) == log_line(current, LogLevel::Debug, request_label(method@, endpoint@)),
{
    debug(current, request_name(method, endpoint).as_str())
}

/// The line for a request that was answered with a success status.
pub fn http_success(current: LogLevel, method: &str, endpoint: &str, status: u16) -> (line: Option<
    LogLine,
>)
    ensures
        line_of(line) == log_line(
            current,
            LogLevel::Debug,
            success_message(method@, endpoint@, status),
        ),
{
    let mut text: String = request_name(method, endpoint);
    text.append(" -> ");
    text.append(nat_to_text(status as u128).as_str());
    debug(current, text.as_str())
}

/// The line for the body of an answer.
pub fn http_trace_response(
    current: LogLevel,
    method: &str,
    endpoint: &str,
    body: &str,
) -> (line: Option<LogLine>)
    ensures
        line_of(line) == log_line(
            current,
            LogLevel::Trace,
            body_message(method@, endpoint@, body@),
        ),
{
    let mut text: String = request_name(method, endpoint);
    text.append(" response body:\n");
    text.append(body);
    trace(current, text.as_str())
}

/// The line for a request that failed.
pub fn http_error(current: LogLevel, method: &str, endpoint: &str, message: &str) -> (line: Option<
    LogLine,
>)
    ensures
        line_of(line) == log_line(
            current,
            LogLevel::Error,
            failure_message(method@, endpoint@, message@),
        ),
{
    let mut text: String = request_name(method, endpoint);
    text.append(": ");
    text.append(message);
    error(current, text.as_str())
}

/// A program that logs more never drops a line: what is written at one level is
/// written, word for word, at every higher one. Errors are always written.
pub proof fn finer_levels_add_lines(
    coarse: LogLevel,
    fine: LogLevel,
    level: LogLevel,
    message: Seq<char>,
)
    requires
        level_code(coarse) <= level_code(fine),
    ensures
        log_line(coarse, level, message) is Some ==> log_line(fine, level, message) == log_line(
            coarse,
            level,
            message,
        ),
        log_line(coarse, LogLevel::Error, message) is Some,
{
}

/// Levels are named without regard to case.
pub proof fn level_names_ignore_case(word: Seq<char>)
    ensures
        named_level(text::lower(word)) == named_level(word),
{
    assert(text::lower(text::lower(word)) =~= text::lower(word));
}

} // verus!
