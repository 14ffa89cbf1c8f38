//! The logger core.
//!
//! It decides, from the logger's state and a leveled message, exactly
//! which line to append to the log file.  The caller owns the file,
//! performs the writes, and swallows their failures; construction with
//! `file_created == false` disables every later call.

use vstd::prelude::*;
use vstd::string::StringExecFns;

verus! {

/// The log level enum.
///
/// It is used with the logger struct, and determines the severity of the
/// message it carries.
#[derive(Copy, Clone)]
pub enum LogLevel {
    /// Used for logging debug messages (skipped unless debug logging is on).
    Debug(&'static str),
    /// Used for normal logging messages.
    Info(&'static str),
    /// Used for warnings (non-critical errors).
    Warning(&'static str),
    /// Used for critical errors.
    Error(&'static str),
}

/// The level tag, padded so every tag is eight columns wide, and the
/// opening parenthesis of the timestamp.
pub open spec fn level_prefix_spec(level: LogLevel) -> Seq<char> {
    match level {
        LogLevel::Debug(_) => "DEBUG   ("@,
        LogLevel::Info(_) => "INFO    ("@,
        LogLevel::Warning(_) => "WARNING ("@,
        LogLevel::Error(_) => "ERROR   ("@,
    }
}

/// The message a level carries.
pub open spec fn message_spec(level: LogLevel) -> Seq<char> {
    match level {
        LogLevel::Debug(m) => m@,
        LogLevel::Info(m) => m@,
        LogLevel::Warning(m) => m@,
        LogLevel::Error(m) => m@,
    }
}

/// A full log line: level tag, timestamp in parentheses, the message,
/// and a line break.
pub open spec fn log_line_spec(level: LogLevel, timestamp: Seq<char>) -> Seq<char> {
    level_prefix_spec(level) + timestamp + ") "@ + message_spec(level) + "\n"@
}

/// Renders one log line from a level and a timestamp.
pub fn log_line(level: LogLevel, timestamp: &str) -> (r: String)
    ensures
        r@ == log_line_spec(level, timestamp@),
{
    let prefix: &'static str = match level {
        LogLevel::Debug(_) => "DEBUG   (",
        LogLevel::Info(_) => "INFO    (",
        LogLevel::Warning(_) => "WARNING (",
        LogLevel::Error(_) => "ERROR   (",
    };
    let message: &'static str = match level {
        LogLevel::Debug(m) => m,
        LogLevel::Info(m) => m,
        LogLevel::Warning(m) => m,
        LogLevel::Error(m) => m,
    };
    let mut s: String = String::from_str(prefix);
    s.append(timestamp);
    s.append(") ");
    s.append(message);
    s.append("\n");
    proof {
        assert(s@ =~= log_line_spec(level, timestamp@));
    }
    s
}

/// Relies on `time::now` and `time::Tm::asctime`: the current local
/// time, rendered in the ISO C `asctime` shape.  Nothing is promised of
/// the result: it depends on the clock.
#[verifier::external_body]
fn now_asctime() -> String {
    format!("{}", time::now().asctime())
}

/// The logger struct.
///
/// It allows for basic logging capabilities: its methods decide which
/// line the caller has to append to the log file.
pub struct Logger {
    is_enabled: bool,
    is_logging: bool,
    debug_enabled: bool,
}

impl Logger {
    /// Whether the logger was given a usable log file.
    pub closed spec fn enabled(&self) -> bool {
        self.is_enabled
    }

    /// Whether a log was begun and not yet ended.
    pub closed spec fn logging(&self) -> bool {
        self.is_logging
    }

    /// Whether debug-level messages are kept rather than skipped.
    pub closed spec fn debug_on(&self) -> bool {
        self.debug_enabled
    }

    /// Creates a new logger instance.
    ///
    /// The caller creates the log file and reports whether that worked;
    /// logging is disabled on failure.  `debug_enabled` decides whether
    /// debug-level messages are kept.
    pub fn new(file_created: bool, debug_enabled: bool) -> (r: Logger)
        ensures
            r.enabled() == file_created,
            !r.logging(),
            r.debug_on() == debug_enabled,
    {
        Logger { is_enabled: file_created, is_logging: false, debug_enabled }
    }

    /// Starts file logging: returns the opening banner to write, if the
    /// logger is enabled.
    pub fn begin_log(&mut self) -> (r: Option<&'static str>)
        ensures
            final(self).enabled() == old(self).enabled(),
            final(self).debug_on() == old(self).debug_on(),
            final(self).logging() == (old(self).enabled() || old(self).logging()),
            (r is Some) <==> old(self).enabled(),
            r matches Some(banner) ==> banner@ == "---BEGIN LOG---\n\n"@,
    {
        if self.is_enabled {
            self.is_logging = true;
            Some("---BEGIN LOG---\n\n")
        } else {
            None
        }
    }

    /// Logs a message: returns the line to write, if the logger is
    /// enabled and logging and the level is not a skipped debug level.
    /// The line carries the timestamp the clock gave.
    pub fn log(&mut self, log_level: LogLevel) -> (r: Option<String>)
        ensures
            *final(self) == *old(self),
            (r is Some) <==> (old(self).enabled() && old(self).logging() && (old(
                self,
            ).debug_on() || !(log_level is Debug))),
            r matches Some(line) ==> exists|ts: Seq<char>| line@ == log_line_spec(log_level, ts),
    {
        if self.is_enabled && self.is_logging {
            let skip: bool = match log_level {
                LogLevel::Debug(_) => !self.debug_enabled,
                _ => false,
            };
            if skip {
                return None;
            }
            let timestamp: String = now_asctime();
            let line: String = log_line(log_level, timestamp.as_str());
            proof {
                assert(line@ == log_line_spec(log_level, timestamp@));
            }
            Some(line)
        } else {
            None
        }
    }

    /// Stops file logging: returns the closing banner to write, if the
    /// logger is enabled.
    pub fn end_log(&mut self) -> (r: Option<&'static str>)
        ensures
            final(self).enabled() == old(self).enabled(),
            final(self).debug_on() == old(self).debug_on(),
            final(self).logging() == (!old(self).enabled() && old(self).logging()),
            (r is Some) <==> old(self).enabled(),
            r matches Some(banner) ==> banner@ == "\n---END LOG---\n"@,
    {
        if self.is_enabled {
            self.is_logging = false;
            Some("\n---END LOG---\n")
        } else {
            None
        }
    }
}

} // verus!
