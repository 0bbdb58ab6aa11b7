//! Logging configuration: one of two fixed profiles, chosen by build mode.
//!
//! A verbose profile for debug builds and a terse one for release builds.
//! Both pin the two noisy GPU subsystems to `warn`. The runtime shell
//! hands the selected level and filter string to the engine's log plugin
//! before the engine starts.

use vstd::prelude::*;

verus! {

/// Build mode that selects the logging profile.
#[derive(Clone, Copy, Debug, PartialEq, Eq, Structural)]
pub enum BuildMode {
    DebugBuild,
    ReleaseBuild,
}

/// Minimum severity the log plugin is configured with.
#[derive(Clone, Copy, Debug, PartialEq, Eq, Structural)]
pub enum LogLevel {
    DebugLevel,
    InfoLevel,
}

/// A complete logging configuration: global level plus per-subsystem filter.
#[derive(Clone, Debug, PartialEq, Eq)]
pub struct LogConfig {
    pub level: LogLevel,
    pub filter: String,
}

/// Filter for debug builds: debug-level tracing everywhere except the two
/// GPU subsystems, which stay at `warn`; the game's own logs at `debug`.
pub open spec fn spec_debug_filter() -> Seq<char> {
    "debug,wgpu_core=warn,wgpu_hal=warn,mygame=debug"@
}

/// Filter for release builds: info-level tracing, with the same two GPU
/// subsystems pinned to `warn`.
pub open spec fn spec_release_filter() -> Seq<char> {
    "info,wgpu_core=warn,wgpu_hal=warn"@
}

/// Level that each build mode selects.
pub open spec fn spec_log_level(mode: BuildMode) -> LogLevel {
    match mode {
        BuildMode::DebugBuild => LogLevel::DebugLevel,
        BuildMode::ReleaseBuild => LogLevel::InfoLevel,
    }
}

/// Filter string that each build mode selects.
pub open spec fn spec_log_filter(mode: BuildMode) -> Seq<char> {
    match mode {
        BuildMode::DebugBuild => spec_debug_filter(),
        BuildMode::ReleaseBuild => spec_release_filter(),
    }
}

/// Selects the logging configuration for the given build mode. Pure
/// selection between two fixed profiles; applying it is the shell's job.
pub fn init_logging(mode: BuildMode) -> (cfg: LogConfig)
    ensures
        cfg.level == spec_log_level(mode),
        cfg.filter@ == spec_log_filter(mode),
{
    match mode {
        BuildMode::DebugBuild => LogConfig {
            level: LogLevel::DebugLevel,
            filter: String::from_str("debug,wgpu_core=warn,wgpu_hal=warn,mygame=debug"),
        },
        BuildMode::ReleaseBuild => LogConfig {
            level: LogLevel::InfoLevel,
            filter: String::from_str("info,wgpu_core=warn,wgpu_hal=warn"),
        },
    }
}

} // verus!
