//! Lines for the log, as values: the library says what is to be logged and
//! its caller writes it.

use vstd::prelude::*;

verus! {

/// How much a line matters.
#[derive(Debug, Clone, Copy, PartialEq, Eq, Structural, Hash)]
pub enum LogLevel {
    Trace,
    Debug,
    Info,
    Error,
}

/// One line for the log.
#[derive(Debug, Clone, PartialEq, Eq)]
pub struct LogLine {
    pub level: LogLevel,
    pub message: String,
}

/// Whether the lines are as many as expected and each has the level and
/// the text that is expected of it, in this order.
pub open spec fn say_all(lines: Seq<LogLine>, expected: Seq<(LogLevel, Seq<char>)>) -> bool {
    &&& lines.len() == expected.len()
    &&& forall|i: int|
        0 <= i < lines.len() ==> (#[trigger] lines[i]).says(expected[i].0, expected[i].1)
}

/// Whether a text begins with the given text.
pub open spec fn begins_with(text: Seq<char>, prefix: Seq<char>) -> bool {
    prefix.len() <= text.len() && text.subrange(0, prefix.len() as int) == prefix
}

impl LogLine {
    /// Whether the line has the given level and text.
    pub open spec fn says(self, level: LogLevel, message: Seq<char>) -> bool {
        self.level == level && self.message@ == message
    }

    /// The line with the given level and text.
    pub fn new(level: LogLevel, message: String) -> (r: Self)
        ensures
            r.says(level, message@),
            r.message == message,
    {
        LogLine { level, message }
    }
}

} // verus!
