//! Startup configuration: the command-line options, the poll interval, and
//! the verbosity-to-log-level mapping. Argument parsing itself is the
//! shell's business; this module holds the parsed values and the two small
//! rules derived from them.

use vstd::prelude::*;

verus! {

/// The agent's startup options.
pub struct Opts {
    /// The enode of the monitored pool node.
    pub pool_enode: String,
    /// The pool's display name.
    pub name: String,
    /// The monitored node's RPC URL.
    pub geth_http: String,
    /// The remote collector's URL.
    pub taichi_grpc: String,
    /// How often to poll, in minutes.
    pub poll_interval_minutes: u64,
    /// The enode of the push node whose identity the monitored node should
    /// track; the target identity is derived from it.
    pub taichi_enode: String,
    /// Log verbosity: warnings by default, each step adding detail.
    pub verbose: u8,
}

/// The detail a log level admits, least detailed first.
#[derive(Clone, Copy, PartialEq, Eq, Structural, Debug)]
pub enum LogLevel {
    Warn,
    Info,
    Debug,
    Trace,
}

/// The log level for a verbosity count: one step gives information, two
/// debugging, three tracing; anything else only warnings.
pub fn log_level(verbose: u8) -> (l: LogLevel)
    ensures
        verbose == 1 ==> l is Info,
        verbose == 2 ==> l is Debug,
        verbose == 3 ==> l is Trace,
        (verbose == 0 || verbose > 3) ==> l is Warn,
{
    if verbose == 1 {
        LogLevel::Info
    } else if verbose == 2 {
        LogLevel::Debug
    } else if verbose == 3 {
        LogLevel::Trace
    } else {
        LogLevel::Warn
    }
}

/// The poll interval in seconds for an interval given in minutes; `None`
/// where sixty times the minutes does not fit in a `u64`, which is a
/// startup-fatal configuration error for the caller.
pub fn poll_interval_secs(minutes: u64) -> (r: Option<u64>)
    ensures
        r is Some <==> 60 * minutes <= u64::MAX,
        r is Some ==> r.unwrap() == 60 * minutes,
{
    if minutes <= u64::MAX / 60 {
        Some(60 * minutes)
    } else {
        None
    }
}

} // verus!
