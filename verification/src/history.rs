//! What the events reported to a cycle tell about it.
//!
//! The laws of this module speak of every sequence of events that can be
//! reported to a cycle from its beginning, whether the cycle was waiting for
//! them or not.

use vstd::prelude::*;
use crate::command::Args;
use crate::cycle::{CycleModel, Event, Phase};
use crate::launch::Managed;
use crate::report::{
    EXIT_CODE_CONNECT_ERR,
    EXIT_CODE_GOST_ERR,
    EXIT_CODE_OK,
    EXIT_CODE_STOP_ERR,
    EXIT_CODE_WARP_ERR,
};
use crate::shutdown::{StopCause, StopOutcome};

verus! {

/// The state of a cycle after the first `k` of `events`.
pub open spec fn state_at(args: Args, events: Seq<Event>, k: int) -> CycleModel {
    CycleModel::fresh(args).run(events.take(k))
}

/// Whether event `i` of `events` is `event`, reported to a cycle that was in
/// `phase`.
pub open spec fn answered_at(
    args: Args,
    events: Seq<Event>,
    phase: Phase,
    event: Event,
    i: int,
) -> bool {
    &&& 0 <= i < events.len()
    &&& events[i] == event
    &&& state_at(args, events, i).phase == phase
}

/// Whether `events` hold, in this order, what a cycle needs to have come as
/// far as `phase`: the spawn of the tunnel, the spawn of the proxy, the end of
/// the activation delay, the activation.
pub open spec fn came_in_order(args: Args, events: Seq<Event>, phase: Phase) -> bool {
    let tunnel = Phase::Starting(Managed::Tunnel);
    let proxy = Phase::Starting(Managed::Proxy);
    match phase {
        Phase::Starting(Managed::Proxy) => exists|i: int|
            answered_at(args, events, tunnel, Event::Spawned, i),
        Phase::AwaitingActivation => exists|i: int, j: int|
            i < j && answered_at(args, events, tunnel, Event::Spawned, i) && answered_at(
                args,
                events,
                proxy,
                Event::Spawned,
                j,
            ),
        Phase::Activating => exists|i: int, j: int, d: int|
            i < j < d && answered_at(args, events, tunnel, Event::Spawned, i) && answered_at(
                args,
                events,
                proxy,
                Event::Spawned,
                j,
            ) && answered_at(args, events, Phase::AwaitingActivation, Event::DelayElapsed, d),
        Phase::Monitoring => exists|i: int, j: int, d: int, k: int|
            i < j < d < k && answered_at(args, events, tunnel, Event::Spawned, i) && answered_at(
                args,
                events,
                proxy,
                Event::Spawned,
                j,
            ) && answered_at(args, events, Phase::AwaitingActivation, Event::DelayElapsed, d)
                && answered_at(args, events, Phase::Activating, Event::Activated, k),
        _ => true,
    }
}

/// What has been answered stays answered when more is reported, and the
/// last event answers the state before it.
proof fn lemma_history_grows(args: Args, events: Seq<Event>)
    requires
        events.len() > 0,
    ensures
        forall|phase: Phase, event: Event, i: int| #[trigger]
            answered_at(args, events.drop_last(), phase, event, i) ==> answered_at(
                args,
                events,
                phase,
                event,
                i,
            ) && i < events.len() - 1,
        state_at(args, events, events.len() - 1) == CycleModel::fresh(args).run(
            events.drop_last(),
        ),
{
    assert forall|phase: Phase, event: Event, i: int| #[trigger]
        answered_at(args, events.drop_last(), phase, event, i) implies answered_at(
        args,
        events,
        phase,
        event,
        i,
    ) && i < events.len() - 1 by {
        assert(events.drop_last().take(i) =~= events.take(i));
    }
    assert(events.take(events.len() - 1) =~= events.drop_last());
}

/// Whatever is reported to a cycle, in whatever order: where it monitors,
/// the spawn of the tunnel has come back, after it the spawn of the proxy,
/// after that the activation delay has passed, and last the activation
/// command has run. Nothing is watched before both spawns have returned, and
/// the activation comes before the monitoring.
pub proof fn lemma_monitoring_comes_last(args: Args, events: Seq<Event>)
    ensures
        came_in_order(args, events, CycleModel::fresh(args).run(events).phase),
    decreases events.len(),
{
    if events.len() > 0 {
        let last = events.len() - 1;
        lemma_monitoring_comes_last(args, events.drop_last());
        lemma_history_grows(args, events);
        let was = CycleModel::fresh(args).run(events.drop_last());
        assert(answered_at(args, events, was.phase, events[last], last));
    }
}

/// Whether `events` hold what brings a cycle to its end in `phase`.
///
/// Before a restart the stop of the proxy was answered in time, after it
/// that of the tunnel, and the rest has passed. Before the program ends with
/// the code of success both stops were answered in time, for the operator.
/// Each code of failure has its own cause: a stop that timed out, the proxy
/// that could not be spawned, the tunnel that could not be spawned, the
/// tunnel that could not be activated. The program ends with no other code.
pub open spec fn ended_in_order(args: Args, events: Seq<Event>, phase: Phase) -> bool {
    let late = StopOutcome::StopTimedOut;
    match phase {
        Phase::Stopping(cause, Managed::Tunnel) => exists|p: int, a: StopOutcome|
            a != late && answered_at(
                args,
                events,
                Phase::Stopping(cause, Managed::Proxy),
                Event::StopFinished(a),
                p,
            ),
        Phase::Settling => exists|p: int, a: StopOutcome, t: int, b: StopOutcome|
            p < t && a != late && b != late && answered_at(
                args,
                events,
                Phase::Stopping(StopCause::Internal, Managed::Proxy),
                Event::StopFinished(a),
                p,
            ) && answered_at(
                args,
                events,
                Phase::Stopping(StopCause::Internal, Managed::Tunnel),
                Event::StopFinished(b),
                t,
            ),
        Phase::Restarting => exists|p: int, a: StopOutcome, t: int, b: StopOutcome, s: int|
            p < t < s && a != late && b != late && answered_at(
                args,
                events,
                Phase::Stopping(StopCause::Internal, Managed::Proxy),
                Event::StopFinished(a),
                p,
            ) && answered_at(
                args,
                events,
                Phase::Stopping(StopCause::Internal, Managed::Tunnel),
                Event::StopFinished(b),
                t,
            ) && answered_at(args, events, Phase::Settling, Event::Settled, s),
        Phase::Terminated(code) => {
            if code == EXIT_CODE_OK {
                exists|p: int, a: StopOutcome, t: int, b: StopOutcome|
                    p < t && a != late && b != late && answered_at(
                        args,
                        events,
                        Phase::Stopping(StopCause::External, Managed::Proxy),
                        Event::StopFinished(a),
                        p,
                    ) && answered_at(
                        args,
                        events,
                        Phase::Stopping(StopCause::External, Managed::Tunnel),
                        Event::StopFinished(b),
                        t,
                    )
            } else if code == EXIT_CODE_STOP_ERR {
                exists|i: int, cause: StopCause, who: Managed|
                    answered_at(
                        args,
                        events,
                        Phase::Stopping(cause, who),
                        Event::StopFinished(late),
                        i,
                    )
            } else if code == EXIT_CODE_GOST_ERR {
                exists|i: int|
                    answered_at(
                        args,
                        events,
                        Phase::Starting(Managed::Proxy),
                        Event::SpawnFailed,
                        i,
                    )
            } else if code == EXIT_CODE_WARP_ERR {
                exists|i: int|
                    answered_at(
                        args,
                        events,
                        Phase::Starting(Managed::Tunnel),
                        Event::SpawnFailed,
                        i,
                    )
            } else if code == EXIT_CODE_CONNECT_ERR {
                exists|i: int|
                    answered_at(args, events, Phase::Activating, Event::ActivationFailed, i)
            } else {
                false
            }
        },
        _ => true,
    }
}

/// Whatever is reported to a cycle, in whatever order: a new cycle follows
/// only after both processes were stopped in time, the proxy first, and the
/// rest has passed; the program ends with the code of success only after
/// both were stopped in time for the operator; and it ends with a code of
/// failure only for the cause that the code stands for.
pub proof fn lemma_end_comes_in_order(args: Args, events: Seq<Event>)
    ensures
        ended_in_order(args, events, CycleModel::fresh(args).run(events).phase),
    decreases events.len(),
{
    if events.len() > 0 {
        let last = events.len() - 1;
        lemma_end_comes_in_order(args, events.drop_last());
        lemma_history_grows(args, events);
        let was = CycleModel::fresh(args).run(events.drop_last());
        assert(answered_at(args, events, was.phase, events[last], last));
    }
}

} // verus!
