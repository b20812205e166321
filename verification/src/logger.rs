//! The lines the tracer writes about its own doing.

use vstd::prelude::*;

verus! {

/// How much a message matters.
#[derive(Clone, Copy, Debug, PartialEq, Eq, Structural)]
pub enum Level {
    Error,
    Warn,
    Info,
    Debug,
    Trace,
}

/// The logger of the tracer. It has no state and lets every message through.
#[derive(Clone, Copy, Debug, PartialEq, Eq, Structural)]
pub struct JtraceLogger;

/// What a line of the given level begins with: errors and notices are
/// marked as such, everything else is marked as detail.
pub open spec fn level_prefix(level: Level) -> Seq<char> {
    match level {
        Level::Error => "[ERROR] "@,
        Level::Info => "[INFO] "@,
        _ => "[DEBUG] "@,
    }
}

impl JtraceLogger {
    /// Whether a message of this level is written. Every message is.
    pub fn enabled(&self, level: Level) -> (b: bool)
        ensures
            b,
    {
        true
    }

    /// The line to write for `message`: the mark of its level, then the
    /// message as it is.
    pub fn log(&self, level: Level, message: &str) -> (line: Option<String>)
        ensures
            line matches Some(text) && text@ == level_prefix(level) + message@,
    {
        let prefix = match level {
            Level::Error => "[ERROR] ",
            Level::Info => "[INFO] ",
            _ => "[DEBUG] ",
        };
        if self.enabled(level) {
            let mut text = String::from_str(prefix);
            text.append(message);
            Some(text)
        } else {
            None
        }
    }
}

} // verus!
