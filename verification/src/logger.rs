//! Logging settings: the verbosity levels the CLI accepts and where the log
//! file goes. Installing the logger (file handles, timestamps, the session
//! id) happens outside the library.

use vstd::prelude::*;
use crate::text::join_path;
use crate::text::spec_join;

verus! {

/// The verbosity levels the CLI accepts in its settings file.
#[derive(Debug, Clone, Copy, PartialEq, Eq, Structural)]
pub enum LoggerLevel {
    DEBUG,
    INFO,
    WARN,
    ERROR,
}

/// Relies on log's `LevelFilter` being a plain public enum of unit variants.
#[verifier::external_type_specification]
pub struct ExLevelFilter(log::LevelFilter);

impl LoggerLevel {
    /// The log-crate filter this level denotes.
    pub fn to_log_level(&self) -> (f: log::LevelFilter)
        ensures
            *self is DEBUG ==> f == log::LevelFilter::Debug,
            *self is INFO ==> f == log::LevelFilter::Info,
            *self is WARN ==> f == log::LevelFilter::Warn,
            *self is ERROR ==> f == log::LevelFilter::Error,
    {
        match self {
            LoggerLevel::DEBUG => log::LevelFilter::Debug,
            LoggerLevel::INFO => log::LevelFilter::Info,
            LoggerLevel::WARN => log::LevelFilter::Warn,
            LoggerLevel::ERROR => log::LevelFilter::Error,
        }
    }
}

/// Where the log file goes by default: `cli.log` in the user directory.
pub fn default_log_file(user_dir: &str) -> (f: String)
    ensures
        f@ == spec_join(user_dir@, "cli.log"@),
{
    join_path(user_dir, "cli.log")
}

/// The default verbosity.
pub fn default_log_level() -> (l: LoggerLevel)
    ensures
        l == LoggerLevel::INFO,
{
    LoggerLevel::INFO
}

/// The logging settings: where the log file goes and the level above which
/// records are kept.
#[derive(Debug, Clone)]
pub struct LoggerSettings {
    pub log_file: String,
    pub level: LoggerLevel,
}

} // verus!
