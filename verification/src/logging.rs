//! The logging configuration that the bootstrap installs.

use vstd::prelude::*;

verus! {

/// Minimum severity that the log sink lets through.
#[derive(Clone, Copy, PartialEq, Eq, Structural, Debug)]
pub enum LogLevel {
    Debug,
    Info,
}

/// The log sink configuration: where lines go and the minimum severity.
pub struct LogConfig {
    /// Lines are written to the console.
    pub console: bool,
    /// Lines are written to a rotating file in the per-install log directory.
    pub log_dir_file: bool,
    /// Minimum severity let through.
    pub min_level: LogLevel,
}

/// The minimum severity a build profile asks for: everything from debug
/// upward in a development build, info and above in a release build.
pub open spec fn level_for_build(debug_build: bool) -> LogLevel {
    if debug_build {
        LogLevel::Debug
    } else {
        LogLevel::Info
    }
}

/// Builds the log configuration for a build profile: both sinks are always
/// on, and the severity follows the profile.
pub fn log_config(debug_build: bool) -> (cfg: LogConfig)
    ensures
        cfg.console,
        cfg.log_dir_file,
        cfg.min_level == level_for_build(debug_build),
{
    LogConfig {
        console: true,
        log_dir_file: true,
        min_level: if debug_build {
            LogLevel::Debug
        } else {
            LogLevel::Info
        },
    }
}

/// The base name of the rotating file in the log directory.
pub fn log_file_name() -> (name: &'static str)
    ensures
        name@ == "qube"@,
{
    "qube"
}

} // verus!
