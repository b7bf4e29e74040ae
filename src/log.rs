//! Mapping of log records onto nginx's logger.
use vstd::prelude::*;

verus! {

pub const NGX_LOG_STDERR: usize = 0;
pub const NGX_LOG_EMERG: usize = 1;
pub const NGX_LOG_ALERT: usize = 2;
pub const NGX_LOG_CRIT: usize = 3;
pub const NGX_LOG_ERR: usize = 4;
pub const NGX_LOG_WARN: usize = 5;
pub const NGX_LOG_NOTICE: usize = 6;
pub const NGX_LOG_INFO: usize = 7;
pub const NGX_LOG_DEBUG: usize = 8;

/// The debug mask of the cycle log.
pub const NGX_LOG_DEBUG_CORE: usize = 0x010;

/// The level of a log record, most severe first.
#[derive(PartialEq, Eq, Structural, Clone, Copy, Debug)]
pub enum LogLevel {
    Error,
    Warn,
    Info,
    Debug,
    Trace,
}

/// The nginx level a record level maps to; trace records become debug.
pub open spec fn ngx_level(level: LogLevel) -> usize {
    match level {
        LogLevel::Error => NGX_LOG_ERR,
        LogLevel::Warn => NGX_LOG_WARN,
        LogLevel::Info => NGX_LOG_INFO,
        LogLevel::Debug => NGX_LOG_DEBUG,
        LogLevel::Trace => NGX_LOG_DEBUG,
    }
}

/// Converts a record level to nginx's level.
pub fn to_ngx_level(value: LogLevel) -> (r: usize)
    ensures
        r == ngx_level(value),
{
    match value {
        LogLevel::Error => NGX_LOG_ERR,
        LogLevel::Warn => NGX_LOG_WARN,
        LogLevel::Info => NGX_LOG_INFO,
        LogLevel::Debug => NGX_LOG_DEBUG,
        LogLevel::Trace => NGX_LOG_DEBUG,
    }
}

/// Where the current thread's records go.
#[derive(PartialEq, Eq, Structural, Clone, Copy, Debug)]
pub enum LogTarget {
    /// Nowhere: logging is not set up on this thread.
    Unset,
    /// The cycle log.
    Cycle,
    /// A specific nginx log, with the debug mask for debug records.
    Specific(usize, usize),
}

/// Whether a record of `level` is written to `target`, whose log has level
/// `log_level`: records above debug go by level, debug and trace records
/// by the target's debug mask.
pub open spec fn log_enabled(target: LogTarget, level: LogLevel, log_level: usize) -> bool {
    match target {
        LogTarget::Unset => false,
        _ => {
            let mask = match target {
                LogTarget::Specific(mask, _) => mask,
                _ => NGX_LOG_DEBUG_CORE,
            };
            match level {
                LogLevel::Error | LogLevel::Warn | LogLevel::Info => ngx_level(level) < log_level,
                _ => log_level & mask != 0,
            }
        },
    }
}

/// The logger behind the `log` facade.
pub struct Logger;

impl Logger {
    /// Whether a record of `level` is written to `target`, whose log has level `log_level`.
    pub fn enabled(&self, target: LogTarget, level: LogLevel, log_level: usize) -> (r: bool)
        ensures
            r == log_enabled(target, level, log_level),
    {
        let mask = match target {
            LogTarget::Unset => {
                return false;
            },
            LogTarget::Cycle => NGX_LOG_DEBUG_CORE,
            LogTarget::Specific(mask, _) => mask,
        };
        match level {
            LogLevel::Error | LogLevel::Warn | LogLevel::Info => to_ngx_level(level) < log_level,
            _ => log_level & mask != 0,
        }
    }
}

} // verus!
