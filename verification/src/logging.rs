//! The settings of the log: which level a name stands for, and where the
//! log goes.

use crate::text::same_text;
use vstd::prelude::*;

verus! {

/// How much is logged.
#[derive(Clone, Copy, Debug)]
pub enum LogLevel {
    Off,
    Error,
    Warn,
    Info,
    Debug,
    Trace,
}

/// The name of the appender that writes the log file.
pub const FILE_APPENDER_NAME: &'static str = "file";

/// The path of the log file.
pub const LOG_FILE_PATH: &'static str = "wszl.log";

/// How a line of the log is laid out.
pub const LOG_LINE_PATTERN: &'static str = "{d(%Y-%m-%d %H:%M:%S)} - {l} - [{M}] - {m}{n}";

/// The name of the tool's own logger.
pub const DEFAULT_LOGGER_NAME: &'static str = "default";

/// The name of the logger of the HTTP machinery, which is kept at `Info`.
pub const TRANSPORT_LOGGER_NAME: &'static str = "hyper";

/// The level that a name stands for. A name that is none of the known ones
/// stands for `Info`.
pub open spec fn level_named(name: Seq<char>) -> LogLevel {
    if name == "debug"@ {
        LogLevel::Debug
    } else if name == "error"@ {
        LogLevel::Error
    } else if name == "warn"@ {
        LogLevel::Warn
    } else if name == "trace"@ {
        LogLevel::Trace
    } else if name == "off"@ {
        LogLevel::Off
    } else {
        LogLevel::Info
    }
}

/// Reads the level that a name stands for.
pub fn get_logging_level_from_string(level: &str) -> (out: LogLevel)
    ensures
        out == level_named(level@),
{
    if same_text(level, "debug") {
        LogLevel::Debug
    } else if same_text(level, "error") {
        LogLevel::Error
    } else if same_text(level, "warn") {
        LogLevel::Warn
    } else if same_text(level, "trace") {
        LogLevel::Trace
    } else if same_text(level, "off") {
        LogLevel::Off
    } else {
        LogLevel::Info
    }
}

} // verus!
