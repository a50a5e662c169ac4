//! Run-time configuration of the supervisor.

use vstd::prelude::*;

verus! {

/// Settings of one supervisor run. Durations are in seconds.
#[derive(Clone, Copy, Debug, PartialEq, Eq, Structural)]
pub struct Args {
    /// Port on which the proxy listens.
    pub listen_port: u16,
    /// Pause before each health request.
    pub healthcheck_interval: u64,
    /// Grace period before the first health request.
    pub healthcheck_start_period: u64,
    /// Consecutive failed requests after which the tunnel counts as down.
    pub healthcheck_retries: usize,
    /// Deadline of one health request.
    pub healthcheck_timeout: u64,
    /// Delay between spawning the processes and activating the tunnel.
    pub warp_cli_delay: u64,
    /// `1` lets the proxy write to the supervisor's output streams.
    pub display_gost_logs: u8,
}

} // verus!
