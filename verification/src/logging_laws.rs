//! What logging promises: what is written, where, and how it looks.

use crate::logging::{self, LogLevel, LogLine};
use crate::text;
use vstd::prelude::*;
use vstd::string::*;

verus! {

/// Errors are gravest, then come notices, details and the finest details; no two levels
/// have the same number.
pub proof fn levels_are_ordered(one: LogLevel, other: LogLevel)
    ensures
        logging::level_code(LogLevel::Error) < logging::level_code(LogLevel::Info),
        logging::level_code(LogLevel::Info) < logging::level_code(LogLevel::Debug),
        logging::level_code(LogLevel::Debug) < logging::level_code(LogLevel::Trace),
        logging::level_code(one) == logging::level_code(other) ==> one == other,
{
}

/// A stored number never stands for less than the level stored: numbers in between are
/// those of the levels, and all beyond stand for the finest.
pub proof fn stored_numbers_stand_for_levels(code: u8)
    ensures
        code <= 3 ==> logging::level_code(logging::stored_level(code)) == code,
        code > 3 ==> logging::stored_level(code) == LogLevel::Trace,
{
}

/// A message is written exactly if it is at least as grave as what is logged: errors
/// always, the finest details only at the finest level. Errors alone go to standard
/// error. The line is the message behind the level in brackets.
pub proof fn a_line_says_its_level(current: LogLevel, level: LogLevel, message: Seq<char>)
    ensures
        ({
            let line = logging::log_line(current, level, message);
            &&& level is Error ==> line is Some
            &&& level is Info ==> (line is Some <==> !(current is Error))
            &&& level is Debug ==> (line is Some <==> current is Debug || current is Trace)
            &&& level is Trace ==> (line is Some <==> current is Trace)
            &&& line is Some ==> {
                &&& line->0.to_stderr <==> level is Error
                &&& level is Error ==> line->0.text == "[ERROR] "@ + message
                &&& level is Info ==> line->0.text == "[INFO] "@ + message
                &&& level is Debug ==> line->0.text == "[DEBUG] "@ + message
                &&& level is Trace ==> line->0.text == "[TRACE] "@ + message
            }
        }),
{
    reveal_strlit("[");
    reveal_strlit("] ");
    reveal_strlit("ERROR");
    reveal_strlit("INFO");
    reveal_strlit("DEBUG");
    reveal_strlit("TRACE");
    reveal_strlit("[ERROR] ");
    reveal_strlit("[INFO] ");
    reveal_strlit("[DEBUG] ");
    reveal_strlit("[TRACE] ");
    assert("["@ + "ERROR"@ + "] "@ =~= "[ERROR] "@);
    assert("["@ + "INFO"@ + "] "@ =~= "[INFO] "@);
    assert("["@ + "DEBUG"@ + "] "@ =~= "[DEBUG] "@);
    assert("["@ + "TRACE"@ + "] "@ =~= "[TRACE] "@);
}

/// Each level is named by the word at the head of its lines, in any case, and a word
/// that names a level is that word.
pub proof fn levels_are_named_as_they_are_written(level: LogLevel, word: Seq<char>)
    ensures
        logging::named_level(logging::level_prefix(level)) == Some(level),
        logging::named_level(text::lower(logging::level_prefix(level))) == Some(level),
        logging::named_level(word) == Some(level) ==> text::lower(word) == text::lower(
            logging::level_prefix(level),
        ),
{
    reveal_strlit("ERROR");
    reveal_strlit("INFO");
    reveal_strlit("DEBUG");
    reveal_strlit("TRACE");
    reveal_strlit("error");
    reveal_strlit("info");
    reveal_strlit("debug");
    reveal_strlit("trace");
    assert(text::lower("ERROR"@) =~= "error"@);
    assert(text::lower("INFO"@) =~= "info"@);
    assert(text::lower("DEBUG"@) =~= "debug"@);
    assert(text::lower("TRACE"@) =~= "trace"@);
    assert("error"@[0] == 'e' && "info"@[0] == 'i' && "debug"@[0] == 'd' && "trace"@[0] == 't');
    logging::level_names_ignore_case(logging::level_prefix(level));
}

/// A line as a value is the line.
pub proof fn a_line_is_written_as_it_is(line: Option<LogLine>)
    ensures
        logging::line_of(line) is Some <==> line is Some,
        line is Some ==> {
            &&& logging::line_of(line)->0.to_stderr == line->0.to_stderr
            &&& logging::line_of(line)->0.text == line->0.text@
        },
{
}

/// A request is named by its method and its endpoint.
pub proof fn a_request_is_named_by_method_and_endpoint(method: Seq<char>, endpoint: Seq<char>)
    ensures
        ({
            let label = logging::request_label(method, endpoint);
            &&& label.len() == method.len() + endpoint.len() + 6
            &&& label.take(5) == "HTTP "@
            &&& label.subrange(5, 5 + method.len() as int) == method
            &&& label[5 + method.len() as int] == ' '
            &&& label.skip(6 + method.len() as int) == endpoint
        }),
{
    reveal_strlit("HTTP ");
    reveal_strlit(" ");
    let label = logging::request_label(method, endpoint);
    assert(label.take(5) =~= "HTTP "@);
    assert(label.subrange(5, 5 + method.len() as int) =~= method);
    assert(label.skip(6 + method.len() as int) =~= endpoint);
}

/// What is logged of a request names it first, and ends in what came of it: the status in
/// digits, the body, or why it failed.
pub proof fn messages_end_in_what_came_of_a_request(
    method: Seq<char>,
    endpoint: Seq<char>,
    status: u16,
    words: Seq<char>,
)
    ensures
        ({
            let label = "HTTP "@ + method + " "@ + endpoint;
            &&& logging::success_message(method, endpoint, status) == label + (" -> "@
                + text::decimal(status as int))
            &&& logging::body_message(method, endpoint, words) == label + (" response body:\n"@
                + words)
            &&& logging::failure_message(method, endpoint, words) == label + (": "@ + words)
        }),
{
    let label = logging::request_label(method, endpoint);
    let digits = text::decimal(status as int);
    assert(label + " -> "@ + digits =~= label + (" -> "@ + digits));
    assert(label + " response body:\n"@ + words =~= label + (" response body:\n"@ + words));
    assert(label + ": "@ + words =~= label + (": "@ + words));
}

} // verus!
