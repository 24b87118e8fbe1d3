//! Log records as the client shows them: a time, a level label and the
//! record's message.
use vstd::prelude::*;
use vstd::string::StringExecFns;

use crate::text::same_text;

verus! {

/// The level of a log record.
#[derive(PartialEq, Eq, Structural, Clone, Copy, Debug)]
pub enum LogLevel {
    Error,
    Warn,
    Info,
    Debug,
    Trace,
}

/// The label shown for a level.
pub open spec fn label_text(level: LogLevel) -> Seq<char> {
    match level {
        LogLevel::Error => "ERROR"@,
        LogLevel::Warn => "WARN"@,
        LogLevel::Info => "INFO"@,
        _ => "OTHER"@,
    }
}

/// A record as one line: `"<time> [<label>] <message>"`.
pub open spec fn log_line_text(time: Seq<char>, level: LogLevel, message: Seq<char>) -> Seq<
    char,
> {
    time + " ["@ + label_text(level) + "] "@ + message
}

/// The colour a record is shown in.
#[derive(PartialEq, Eq, Structural, Clone, Copy, Debug)]
pub enum LogColor {
    Red,
    Green,
    Yellow,
    White,
}

/// Errors red, information green, warnings yellow, the rest white.
pub open spec fn color_of(level: LogLevel) -> LogColor {
    match level {
        LogLevel::Error => LogColor::Red,
        LogLevel::Info => LogColor::Green,
        LogLevel::Warn => LogColor::Yellow,
        _ => LogColor::White,
    }
}

/// A log record as the client keeps it: its level, which gives its colour,
/// and its formatted line.
#[derive(Clone, Debug)]
pub struct LogRecord {
    pub level: LogLevel,
    pub line: String,
}

/// The colour shown for `level`.
pub fn level_color(level: LogLevel) -> (r: LogColor)
    ensures
        r == color_of(level),
{
    match level {
        LogLevel::Error => LogColor::Red,
        LogLevel::Info => LogColor::Green,
        LogLevel::Warn => LogColor::Yellow,
        _ => LogColor::White,
    }
}

/// The record kept for an event of `level` with `message`, logged at `time`.
pub fn log_record(time: &str, level: LogLevel, message: &str) -> (r: LogRecord)
    ensures
        r.level == level,
        r.line@ == log_line_text(time@, level, message@),
{
    LogRecord { level, line: format_log_line(time, level, message) }
}

/// The label shown for `level`.
pub fn level_label(level: LogLevel) -> (r: String)
    ensures
        r@ == label_text(level),
{
    match level {
        LogLevel::Error => String::from_str("ERROR"),
        LogLevel::Warn => String::from_str("WARN"),
        LogLevel::Info => String::from_str("INFO"),
        _ => String::from_str("OTHER"),
    }
}

/// The line shown for a record.
pub fn format_log_line(time: &str, level: LogLevel, message: &str) -> (r: String)
    ensures
        r@ == log_line_text(time@, level, message@),
{
    let label = level_label(level);
    let mut r = String::from_str(time);
    r.append(" [");
    r.append(label.as_str());
    r.append("] ");
    r.append(message);
    r
}

/// Collects the text of a record's `message` field while its fields are
/// visited.
pub struct MessageVisitor {
    pub message: String,
    pub is_message_field: bool,
}

impl MessageVisitor {
    /// A visitor that appends to `message`.
    pub fn new(message: String) -> (r: Self)
        ensures
            r.message == message,
            !r.is_message_field,
    {
        MessageVisitor { message, is_message_field: false }
    }

    /// Visits one field, given by its name and its rendered value: the
    /// `message` field's value is appended; other fields are passed over.
    pub fn record(&mut self, field_name: &str, rendered: &str)
        ensures
            field_name@ == "message"@ ==> final(self).message@ == old(self).message@ + rendered@
                && final(self).is_message_field,
            field_name@ != "message"@ ==> *final(self) == *old(self),
    {
        if same_text(field_name, "message") {
            self.message.append(rendered);
            self.is_message_field = true;
        }
    }
}

} // verus!
