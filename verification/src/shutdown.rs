//! Stopping the managed processes: in which order, with how much patience,
//! and what follows from each result.

use vstd::prelude::*;
use crate::launch::Managed;

verus! {

/// Seconds granted to a process to stop when the operator asked for the stop.
pub const EXTERNAL_STOP_TIMEOUT: u64 = 3;

/// Seconds granted to a process to stop before a restart.
pub const INTERNAL_STOP_TIMEOUT: u64 = 5;

/// Seconds of rest between the end of a shutdown and a restart.
pub const SETTLE_DELAY: u64 = 1;

/// Who asked for a shutdown.
#[derive(Clone, Copy, Debug, PartialEq, Eq, Structural)]
pub enum StopCause {
    /// The operator, by an interrupt: the program ends afterwards.
    External,
    /// The supervisor, after a process ended or the probe gave up: a restart
    /// follows.
    Internal,
}

/// How the request to stop one process ended.
#[derive(Clone, Copy, Debug, PartialEq, Eq, Structural)]
pub enum StopOutcome {
    /// The process is gone and the request reported no error.
    Stopped,
    /// The request reported an error within the time granted.
    StopFailed,
    /// The time granted passed without an answer.
    StopTimedOut,
}

/// What a shutdown does next.
#[derive(Clone, Copy, Debug, PartialEq, Eq, Structural)]
pub enum ShutdownStep {
    /// Stop this process.
    Stop(Managed),
    /// All processes are stopped; rest before the restart.
    Settle,
    /// All processes are stopped; the program may end.
    Done,
    /// A process could not be stopped in time; nothing more is attempted.
    Fatal,
}

/// Seconds granted to each process in a shutdown with this cause.
pub open spec fn stop_timeout(cause: StopCause) -> u64 {
    match cause {
        StopCause::External => EXTERNAL_STOP_TIMEOUT,
        StopCause::Internal => INTERNAL_STOP_TIMEOUT,
    }
}

/// The processes in the order in which a shutdown stops them.
pub open spec fn stop_order() -> Seq<Managed> {
    seq![Managed::Proxy, Managed::Tunnel]
}

/// What follows when all processes are stopped.
pub open spec fn when_all_stopped(cause: StopCause) -> ShutdownStep {
    match cause {
        StopCause::External => ShutdownStep::Done,
        StopCause::Internal => ShutdownStep::Settle,
    }
}

/// What a shutdown does after the request to stop the process at place
/// `index` of the stop order ended with `outcome`.
pub open spec fn step_after(cause: StopCause, index: int, outcome: StopOutcome) -> ShutdownStep {
    if outcome == StopOutcome::StopTimedOut {
        ShutdownStep::Fatal
    } else if 0 <= index && index + 1 < stop_order().len() {
        ShutdownStep::Stop(stop_order()[index + 1])
    } else {
        when_all_stopped(cause)
    }
}

/// Place of `target` in the stop order.
pub open spec fn stop_index(target: Managed) -> int {
    match target {
        Managed::Proxy => 0,
        Managed::Tunnel => 1,
    }
}

/// Seconds granted to each process in a shutdown with this cause: less for
/// the operator, who waits for the answer, than before a restart.
pub fn timeout_for(cause: StopCause) -> (secs: u64)
    ensures
        secs == stop_timeout(cause),
{
    match cause {
        StopCause::External => EXTERNAL_STOP_TIMEOUT,
        StopCause::Internal => INTERNAL_STOP_TIMEOUT,
    }
}

/// The process that a shutdown stops first.
pub fn first_to_stop() -> (target: Managed)
    ensures
        target == stop_order()[0],
{
    Managed::Proxy
}

/// What a shutdown does after the request to stop `target` ended with
/// `outcome`.
///
/// A request that timed out is fatal, whichever process it was for. Any
/// other result lets the shutdown go on with the next process of the stop
/// order; after the last one the shutdown is complete.
pub fn after_stop(cause: StopCause, target: Managed, outcome: StopOutcome) -> (step: ShutdownStep)
    ensures
        step == step_after(cause, stop_index(target), outcome),
        outcome == StopOutcome::StopTimedOut <==> step == ShutdownStep::Fatal,
{
    match outcome {
        StopOutcome::StopTimedOut => ShutdownStep::Fatal,
        _ => match target {
            Managed::Proxy => ShutdownStep::Stop(Managed::Tunnel),
            Managed::Tunnel => match cause {
                StopCause::External => ShutdownStep::Done,
                StopCause::Internal => ShutdownStep::Settle,
            },
        },
    }
}

/// Every process has its place in the stop order, and the proxy is stopped
/// before the tunnel.
pub proof fn lemma_stop_order(target: Managed)
    ensures
        0 <= stop_index(target) < stop_order().len(),
        stop_order()[stop_index(target)] == target,
        stop_index(Managed::Proxy) < stop_index(Managed::Tunnel),
{
}

/// The operator waits less for a stop than a restart does.
pub proof fn lemma_operator_waits_less()
    ensures
        stop_timeout(StopCause::External) < stop_timeout(StopCause::Internal),
{
}

} // verus!
