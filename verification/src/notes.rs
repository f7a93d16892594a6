//! Notes on the progress of an operation, for display or for a log. The
//! caller adds the time.

use vstd::prelude::*;
use vstd::string::*;

verus! {

/// How much a note matters.
#[derive(Clone, Copy, Debug, PartialEq, Eq, Structural)]
pub enum LogLevel {
    Debug,
    Info,
    Warn,
    Error,
    Success,
}

/// One note: its level and its text.
#[derive(Debug, Clone, PartialEq, Eq)]
pub struct LogNote {
    pub level: LogLevel,
    pub message: String,
}

pub struct LogNoteView {
    pub level: LogLevel,
    pub message: Seq<char>,
}

impl View for LogNote {
    type V = LogNoteView;

    open spec fn view(&self) -> LogNoteView {
        LogNoteView { level: self.level, message: self.message@ }
    }
}

/// The views of a sequence of notes.
pub open spec fn notes_view(notes: Seq<LogNote>) -> Seq<LogNoteView> {
    notes.map_values(|n: LogNote| n@)
}

/// The name under which a level is written.
pub open spec fn level_text(level: LogLevel) -> Seq<char> {
    match level {
        LogLevel::Debug => "DEBUG"@,
        LogLevel::Info => "INFO"@,
        LogLevel::Warn => "WARN"@,
        LogLevel::Error => "ERROR"@,
        LogLevel::Success => "SUCCESS"@,
    }
}

/// A note of level `Info`.
pub open spec fn info(message: Seq<char>) -> LogNoteView {
    LogNoteView { level: LogLevel::Info, message }
}

/// A note of level `Warn`.
pub open spec fn warn(message: Seq<char>) -> LogNoteView {
    LogNoteView { level: LogLevel::Warn, message }
}

/// A note of level `Error`.
pub open spec fn error(message: Seq<char>) -> LogNoteView {
    LogNoteView { level: LogLevel::Error, message }
}

/// A note of level `Success`.
pub open spec fn success(message: Seq<char>) -> LogNoteView {
    LogNoteView { level: LogLevel::Success, message }
}

/// One line of a log file: time and level in square brackets, then the text
/// and a line feed.
pub open spec fn log_line_text(time: Seq<char>, level: Seq<char>, message: Seq<char>) -> Seq<char> {
    "["@ + time + "]["@ + level + "] "@ + message + "\n"@
}

impl LogLevel {
    /// The name under which this level is written.
    pub fn name(self) -> (r: String)
        ensures
            r@ == level_text(self),
    {
        match self {
            LogLevel::Debug => "DEBUG".to_owned(),
            LogLevel::Info => "INFO".to_owned(),
            LogLevel::Warn => "WARN".to_owned(),
            LogLevel::Error => "ERROR".to_owned(),
            LogLevel::Success => "SUCCESS".to_owned(),
        }
    }
}

/// One line of a log file.
pub fn log_line(time: &str, level: &str, message: &str) -> (r: String)
    ensures
        r@ == log_line_text(time@, level@, message@),
{
    let mut r = "[".to_owned();
    r.append(time);
    r.append("][");
    r.append(level);
    r.append("] ");
    r.append(message);
    r.append("\n");
    r
}

/// Appends a note.
pub fn add_note(notes: &mut Vec<LogNote>, level: LogLevel, message: String)
    ensures
        notes_view(final(notes)@) == notes_view(old(notes)@).push(
            LogNoteView { level, message: message@ },
        ),
{
    notes.push(LogNote { level, message });
    proof {
        assert(notes_view(notes@) =~= notes_view(old(notes)@).push(
            LogNoteView { level, message: message@ },
        ));
    }
}

} // verus!
