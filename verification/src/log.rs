//! Log levels, and the process-wide level ceiling.

use vstd::prelude::*;

verus! {

/// The level of one log message.
#[derive(Copy, Clone, Debug, PartialEq, Eq, Structural)]
pub enum LogLevel {
    Error,
    Warn,
    Info,
    Debug,
    Trace,
}

/// A ceiling on log levels: `Off` lets nothing through, `Trace` everything.
#[derive(Copy, Clone, Debug, PartialEq, Eq, Structural)]
pub enum LogLevelFilter {
    Off,
    Error,
    Warn,
    Info,
    Debug,
    Trace,
}

impl LogLevel {
    /// The number a level crosses the boundary as: 1 for `Error` up to 5
    /// for `Trace`.
    pub open spec fn index(self) -> int {
        match self {
            LogLevel::Error => 1,
            LogLevel::Warn => 2,
            LogLevel::Info => 3,
            LogLevel::Debug => 4,
            LogLevel::Trace => 5,
        }
    }

    /// The level for a number from the boundary. A number that names no
    /// level reads as the most verbose one, `Trace`.
    pub fn from_index(index: usize) -> (level: LogLevel)
        ensures
            1 <= index <= 5 ==> level.index() == index,
            !(1 <= index <= 5) ==> level == LogLevel::Trace,
    {
        if index == 1 {
            LogLevel::Error
        } else if index == 2 {
            LogLevel::Warn
        } else if index == 3 {
            LogLevel::Info
        } else if index == 4 {
            LogLevel::Debug
        } else {
            LogLevel::Trace
        }
    }
}

impl LogLevelFilter {
    /// The number a ceiling crosses the boundary as: 0 for `Off` up to 5
    /// for `Trace`.
    pub open spec fn index(self) -> int {
        match self {
            LogLevelFilter::Off => 0,
            LogLevelFilter::Error => 1,
            LogLevelFilter::Warn => 2,
            LogLevelFilter::Info => 3,
            LogLevelFilter::Debug => 4,
            LogLevelFilter::Trace => 5,
        }
    }

    /// The ceiling for a number from the boundary. A number that names no
    /// ceiling reads as `Off`.
    pub fn from_index(index: usize) -> (filter: LogLevelFilter)
        ensures
            index <= 5 ==> filter.index() == index,
            index > 5 ==> filter == LogLevelFilter::Off,
    {
        if index == 1 {
            LogLevelFilter::Error
        } else if index == 2 {
            LogLevelFilter::Warn
        } else if index == 3 {
            LogLevelFilter::Info
        } else if index == 4 {
            LogLevelFilter::Debug
        } else if index == 5 {
            LogLevelFilter::Trace
        } else {
            LogLevelFilter::Off
        }
    }
}

/// `log::max_level`, read as the number of the ceiling it returns. The
/// ceilings of the `log` crate are numbered 0 (`Off`) to 5 (`Trace`), so the
/// number is at most 5; which one it is depends on what the process last
/// set.
#[verifier::external_body]
fn max_level_index() -> (index: usize)
    ensures
        index <= 5,
{
    ::log::max_level() as usize
}

/// `log::set_max_level`, called with the ceiling of the `log` crate that
/// stands for `level`, variant for variant: stores the ceiling for the whole
/// process.
#[verifier::external_body]
fn set_max_level(level: LogLevelFilter) {
    ::log::set_max_level(
        match level {
            LogLevelFilter::Off => ::log::LevelFilter::Off,
            LogLevelFilter::Error => ::log::LevelFilter::Error,
            LogLevelFilter::Warn => ::log::LevelFilter::Warn,
            LogLevelFilter::Info => ::log::LevelFilter::Info,
            LogLevelFilter::Debug => ::log::LevelFilter::Debug,
            LogLevelFilter::Trace => ::log::LevelFilter::Trace,
        },
    )
}

/// The ceiling that is in force for the process.
pub fn f_log_max_level() -> (filter: LogLevelFilter)
    ensures
        0 <= filter.index() <= 5,
{
    LogLevelFilter::from_index(max_level_index())
}

/// Puts a ceiling in force for the process.
pub fn f_log_set_max_level(level: LogLevelFilter) {
    set_max_level(level);
}

} // verus!
