//! Configuration of the logger: what a log line shows, how it is laid out,
//! how much is logged and where it goes.

use vstd::prelude::*;

verus! {

/// The value of a boolean setting that is on unless a configuration says otherwise.
pub fn default_as_true() -> (r: bool)
    ensures
        r == true,
{
    true
}

/// The value of a boolean setting that is off unless a configuration says otherwise.
pub fn default_as_false() -> (r: bool)
    ensures
        r == false,
{
    false
}

/// How log lines are laid out.
#[derive(Clone, Copy, Debug, PartialEq, Eq, Structural)]
pub enum LoggerFormat {
    COMPACT,
    PRETTY,
    JSON,
    FULL,
}

impl Default for LoggerFormat {
    fn default() -> (r: LoggerFormat)
        ensures
            r == LoggerFormat::FULL,
    {
        LoggerFormat::FULL
    }
}

/// The most verbose level that is still logged.
#[derive(Clone, Copy, Debug, PartialEq, Eq, Structural)]
pub enum LoggerLevel {
    OFF,
    ERROR,
    WARN,
    INFO,
    DEBUG,
    TRACE,
}

impl Default for LoggerLevel {
    fn default() -> (r: LoggerLevel)
        ensures
            r == LoggerLevel::TRACE,
    {
        LoggerLevel::TRACE
    }
}

/// Where log lines are written.
#[derive(Debug)]
pub enum WriteTarget {
    /// The standard output.
    STDOUT,
    /// A file of the given name.
    FILE { file_name: String },
}

impl Default for WriteTarget {
    fn default() -> (r: WriteTarget)
        ensures
            r == WriteTarget::STDOUT,
    {
        WriteTarget::STDOUT
    }
}

/// Settings of the logger.
#[derive(Debug)]
pub struct LoggerConfig {
    /// Put the time in front of each line.
    pub show_time: bool,
    /// Show the name of the thread that logs.
    pub show_thread_names: bool,
    /// Show the id of the thread that logs.
    pub show_thread_ids: bool,
    /// How lines are laid out.
    pub log_format: LoggerFormat,
    /// The most verbose level that is still logged.
    pub log_level: LoggerLevel,
    /// Where lines are written.
    pub write_target: WriteTarget,
}

impl LoggerConfig {
    /// The settings of a logger that a configuration says nothing about: time
    /// and thread ids shown, thread names not, full lines, every level, on
    /// the standard output.
    pub open spec fn spec_default() -> LoggerConfig {
        LoggerConfig {
            show_time: true,
            show_thread_names: false,
            show_thread_ids: true,
            log_format: LoggerFormat::FULL,
            log_level: LoggerLevel::TRACE,
            write_target: WriteTarget::STDOUT,
        }
    }
}

impl Default for LoggerConfig {
    fn default() -> (r: LoggerConfig)
        ensures
            r == LoggerConfig::spec_default(),
    {
        LoggerConfig {
            show_time: default_as_true(),
            show_thread_names: default_as_false(),
            show_thread_ids: default_as_true(),
            log_format: LoggerFormat::default(),
            log_level: LoggerLevel::default(),
            write_target: WriteTarget::default(),
        }
    }
}

} // verus!
