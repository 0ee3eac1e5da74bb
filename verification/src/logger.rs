//! The log of the locker: which records are written, and how a line reads.

use vstd::prelude::*;
use vstd::string::StringExecFns;
use crate::text::{str_view, string_view};

verus! {

/// How grave a record is, the gravest first.
#[derive(Debug, Clone, Copy, PartialEq, Eq)]
pub enum Level {
    Error,
    Warn,
    Info,
    Debug,
    Trace,
}

/// The least grave level that is still written.
#[derive(Debug, Clone, Copy, PartialEq, Eq)]
pub enum LevelFilter {
    /// Nothing is written.
    Off,
    Error,
    Warn,
    Info,
    Debug,
    Trace,
}

impl Level {
    /// The place of the level in the order of levels, from 1 for an error.
    pub open spec fn rank(self) -> nat {
        match self {
            Level::Error => 1,
            Level::Warn => 2,
            Level::Info => 3,
            Level::Debug => 4,
            Level::Trace => 5,
        }
    }

    /// The name of the level in a log line.
    pub open spec fn spec_text(self) -> Seq<char> {
        match self {
            Level::Error => "ERROR"@,
            Level::Warn => "WARNING"@,
            Level::Info => "INFO"@,
            Level::Debug => "DEBUG"@,
            Level::Trace => "TRACE"@,
        }
    }

    /// The place of the level in the order of levels, from 1 for an error.
    pub fn number(self) -> (n: u8)
        ensures
            n == self.rank(),
    {
        match self {
            Level::Error => 1,
            Level::Warn => 2,
            Level::Info => 3,
            Level::Debug => 4,
            Level::Trace => 5,
        }
    }

    /// The name of the level in a log line.
    pub fn text(self) -> (text: &'static str)
        ensures
            text@ == self.spec_text(),
    {
        match self {
            Level::Error => "ERROR",
            Level::Warn => "WARNING",
            Level::Info => "INFO",
            Level::Debug => "DEBUG",
            Level::Trace => "TRACE",
        }
    }
}

impl LevelFilter {
    /// The rank of the least grave level that is written; 0 if none is.
    pub open spec fn rank(self) -> nat {
        match self {
            LevelFilter::Off => 0,
            LevelFilter::Error => 1,
            LevelFilter::Warn => 2,
            LevelFilter::Info => 3,
            LevelFilter::Debug => 4,
            LevelFilter::Trace => 5,
        }
    }

    /// The rank of the least grave level that is written; 0 if none is.
    pub fn number(self) -> (n: u8)
        ensures
            n == self.rank(),
    {
        match self {
            LevelFilter::Off => 0,
            LevelFilter::Error => 1,
            LevelFilter::Warn => 2,
            LevelFilter::Info => 3,
            LevelFilter::Debug => 4,
            LevelFilter::Trace => 5,
        }
    }
}

/// First second that the timestamp of a log line cannot show: the start of
/// the year 10000.
pub const TIMESTAMP_END: u64 = 253_402_300_800;

/// The RFC 3339 timestamp, in UTC and to the second, of the moment `secs`
/// seconds after the start of 1970.
pub uninterp spec fn rfc3339_seconds(secs: u64) -> Seq<char>;

/// The timestamp of the moment `secs` seconds after the start of 1970, as
/// `humantime::format_rfc3339_seconds` writes it. Its text is not stated
/// here, only that it depends on nothing but `secs`. The formatter fails
/// from the year 10000 on, which `requires` leaves out.
#[verifier::external_body]
fn format_timestamp(secs: u64) -> (text: String)
    requires
        secs < TIMESTAMP_END,
    ensures
        text@ == rfc3339_seconds(secs),
{
    let moment = std::time::UNIX_EPOCH + std::time::Duration::from_secs(secs);
    humantime::format_rfc3339_seconds(moment).to_string()
}

/// The module that a record without a module is written under.
pub open spec fn spec_unknown_module() -> Seq<char> {
    "<unknown>"@
}

/// A log line: `[timestamp][module] LEVEL: message`.
pub open spec fn spec_line(
    timestamp: Seq<char>,
    module: Option<Seq<char>>,
    level: Level,
    message: Seq<char>,
) -> Seq<char> {
    let origin = match module {
        Some(path) => path,
        None => spec_unknown_module(),
    };
    "["@ + timestamp + "]["@ + origin + "] "@ + level.spec_text() + ": "@ + message
}

/// Puts a log line together.
pub fn format_line(timestamp: &str, module: Option<&str>, level: Level, message: &str) -> (line:
    String)
    ensures
        line@ == spec_line(timestamp@, str_view(module), level, message@),
{
    let mut line = "[".to_owned();
    line.append(timestamp);
    line.append("][");
    match module {
        Some(path) => line.append(path),
        None => line.append("<unknown>"),
    }
    line.append("] ");
    line.append(level.text());
    line.append(": ");
    line.append(message);
    line
}

/// Writes the records that are at least as grave as its level.
#[derive(Debug, Clone, Copy, PartialEq, Eq)]
pub struct Logger {
    level_filter: LevelFilter,
}

impl View for Logger {
    type V = LevelFilter;

    closed spec fn view(&self) -> LevelFilter {
        self.level_filter
    }
}

impl Logger {
    /// Whether a record of `level` is written.
    pub open spec fn spec_enabled(self, level: Level) -> bool {
        level.rank() <= self@.rank()
    }

    /// A logger that writes down to `level_filter`.
    pub fn new(level_filter: LevelFilter) -> (logger: Logger)
        ensures
            logger@ == level_filter,
    {
        Logger { level_filter }
    }

    /// The logger to install for the whole process, and the least grave
    /// level that the process has to hand to it.
    pub fn init(level_filter: LevelFilter) -> (installed: (Logger, LevelFilter))
        ensures
            installed.0@ == level_filter,
            installed.1 == level_filter,
    {
        (Logger::new(level_filter), level_filter)
    }

    /// The least grave level that is written.
    pub fn level_filter(&self) -> (level_filter: LevelFilter)
        ensures
            level_filter == self@,
    {
        self.level_filter
    }

    /// Whether a record of `level` is written.
    pub fn enabled(&self, level: Level) -> (enabled: bool)
        ensures
            enabled == self.spec_enabled(level),
    {
        level.number() <= self.level_filter.number()
    }

    /// The line to write for a record that was made `now` seconds after the
    /// start of 1970, or nothing if the record is not grave enough.
    pub fn log(&self, now: u64, level: Level, module: Option<&str>, message: &str) -> (line:
        Option<String>)
        requires
            now < TIMESTAMP_END,
        ensures
            string_view(line) == if self.spec_enabled(level) {
                Some(spec_line(rfc3339_seconds(now), str_view(module), level, message@))
            } else {
                None
            },
    {
        if self.enabled(level) {
            let timestamp = format_timestamp(now);
            Some(format_line(timestamp.as_str(), module, level, message))
        } else {
            None
        }
    }
}

} // verus!
