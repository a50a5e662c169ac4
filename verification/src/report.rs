//! What the operator gets to see: log levels and exit codes.

use vstd::prelude::*;

verus! {

/// Exit code of a run that the operator ended.
pub const EXIT_CODE_OK: i32 = 0;

/// Exit code where the tunnel agent could not be started.
pub const EXIT_CODE_WARP_ERR: i32 = 1;

/// Exit code where the proxy could not be started.
pub const EXIT_CODE_GOST_ERR: i32 = 2;

/// Exit code where a process could not be stopped in time.
pub const EXIT_CODE_STOP_ERR: i32 = 3;

/// Exit code where the tunnel could not be activated.
pub const EXIT_CODE_CONNECT_ERR: i32 = 4;

/// Level at which the caller logs an occurrence.
#[derive(Clone, Copy, Debug, PartialEq, Eq, Structural)]
pub enum Severity {
    /// Ordinary life of the supervisor.
    Info,
    /// A failure that is absorbed or answered by a restart.
    Warn,
    /// A failure that ends the program, or one that the operator has to see.
    Error,
}

/// The exit code written to the log for a process that ended by itself: its
/// own code, or -1 where it has none because a signal ended it.
pub fn logged_exit_code(code: Option<i32>) -> (shown: i32)
    ensures
        shown == match code {
            Some(c) => c,
            None => -1i32,
        },
{
    match code {
        Some(c) => c,
        None => -1,
    }
}

/// The process id written to the log: 0 for a process that has been reaped
/// and has no id any more.
pub fn logged_pid(id: Option<u32>) -> (shown: u32)
    ensures
        shown == match id {
            Some(pid) => pid,
            None => 0u32,
        },
{
    match id {
        Some(pid) => pid,
        None => 0,
    }
}

} // verus!
