//! One supervision cycle: start both processes, activate the tunnel, watch
//! until something ends the cycle, stop both processes.
//!
//! The cycle is driven from outside. The caller performs the pending
//! [`Action`], reports the result as an [`Event`] and receives the next
//! action. A cycle ends either in [`Phase::Restarting`], upon which the caller
//! begins a new cycle with nothing kept from this one, or in
//! [`Phase::Terminated`], upon which the program exits.

use vstd::prelude::*;
use crate::command::Args;
use crate::health::{verdict_severity, ProbeVerdict};
use crate::launch::Managed;
use crate::report::{
    Severity,
    EXIT_CODE_CONNECT_ERR,
    EXIT_CODE_GOST_ERR,
    EXIT_CODE_OK,
    EXIT_CODE_STOP_ERR,
    EXIT_CODE_WARP_ERR,
};
use crate::shutdown::{
    after_stop,
    first_to_stop,
    lemma_stop_order,
    step_after,
    stop_index,
    stop_order,
    stop_timeout,
    timeout_for,
    ShutdownStep,
    StopCause,
    StopOutcome,
    SETTLE_DELAY,
};

verus! {

/// What the supervisor knows of a managed process.
#[derive(Clone, Copy, Debug, PartialEq, Eq, Structural)]
pub enum ProcessStatus {
    /// The cycle holds no handle: the process has not been started yet, or a
    /// shutdown has taken the handle.
    Absent,
    /// Started, and no end of it has been seen.
    Running,
    /// Seen to have ended by itself.
    Exited,
    /// Waiting for its end failed.
    Unknown,
}

/// How waiting for the end of a process came back.
#[derive(Clone, Copy, Debug, PartialEq, Eq, Structural)]
pub enum WaitOutcome {
    /// The process ended, with this exit code unless a signal ended it.
    Exited(Option<i32>),
    /// The operating system could not tell.
    Failed,
}

/// Where a cycle stands.
#[derive(Clone, Copy, Debug, PartialEq, Eq, Structural)]
pub enum Phase {
    /// Spawning; the process named is the next to be spawned.
    Starting(Managed),
    /// Both processes are spawned; the activation delay is running.
    AwaitingActivation,
    /// The activation delay has passed; the activation command is running.
    Activating,
    /// Watching the processes, the operator and the health probe.
    Monitoring,
    /// Stopping the process named, for this cause.
    Stopping(StopCause, Managed),
    /// Resting after both processes were stopped for a restart.
    Settling,
    /// Over; a new cycle is to follow.
    Restarting,
    /// Over; the program exits with this code.
    Terminated(i32),
}

/// The stages that a cycle passes through, in their order.
#[derive(Clone, Copy, Debug, PartialEq, Eq, Structural)]
pub enum Stage {
    /// The processes are being spawned.
    Starting,
    /// Both processes run; the tunnel is not activated yet.
    AwaitingActivation,
    /// The tunnel is activated; the cycle watches.
    Monitoring,
    /// The processes are being stopped.
    Stopping,
    /// The cycle is over and a new one follows.
    Restarting,
    /// The cycle is over and the program ends.
    Terminated,
}

/// What the caller reports to the cycle.
#[derive(Clone, Copy, Debug, PartialEq, Eq, Structural)]
pub enum Event {
    /// The process asked for has been spawned.
    Spawned,
    /// The process asked for could not be spawned.
    SpawnFailed,
    /// The activation delay has passed.
    DelayElapsed,
    /// The activation command ran.
    Activated,
    /// The activation command could not be run.
    ActivationFailed,
    /// The operator's interrupt arrived.
    Interrupted,
    /// Waiting for the end of this process came back.
    ProcessExited(Managed, WaitOutcome),
    /// The health probe ended.
    ProbeEnded(ProbeVerdict),
    /// The request to stop a process ended.
    StopFinished(StopOutcome),
    /// The rest after a shutdown is over.
    Settled,
}

/// What the caller does next for the cycle.
#[derive(Clone, Copy, Debug, PartialEq, Eq, Structural)]
pub enum Action {
    /// Spawn this process; report [`Event::Spawned`] or
    /// [`Event::SpawnFailed`].
    Spawn(Managed),
    /// Wait for the delay or for the operator's interrupt, whichever comes
    /// first; report [`Event::DelayElapsed`] or [`Event::Interrupted`].
    AwaitActivation { delay_secs: u64 },
    /// Run the activation command to its end; report [`Event::Activated`] or
    /// [`Event::ActivationFailed`].
    Activate,
    /// Wait for whichever comes first: the end of either process, the
    /// operator's interrupt, or the end of a new health probe; report it.
    Monitor,
    /// Ask this process to stop and wait for its end, for no longer than the
    /// timeout; report [`Event::StopFinished`].
    Stop { target: Managed, timeout_secs: u64 },
    /// Sleep; report [`Event::Settled`].
    Settle { secs: u64 },
    /// Begin a new cycle.
    Restart,
    /// Exit the program with this code.
    Exit { code: i32 },
}

/// Exit code of the program where `who` cannot be spawned.
pub open spec fn launch_failure_code(who: Managed) -> i32 {
    match who {
        Managed::Tunnel => EXIT_CODE_WARP_ERR,
        Managed::Proxy => EXIT_CODE_GOST_ERR,
    }
}

/// What is known of a process after waiting for its end came back.
pub open spec fn status_after_wait(outcome: WaitOutcome) -> ProcessStatus {
    match outcome {
        WaitOutcome::Exited(_) => ProcessStatus::Exited,
        WaitOutcome::Failed => ProcessStatus::Unknown,
    }
}

/// Level at which `event` is logged.
pub open spec fn event_severity(event: Event) -> Severity {
    match event {
        Event::SpawnFailed => Severity::Error,
        Event::ActivationFailed => Severity::Error,
        Event::ProcessExited(_, WaitOutcome::Failed) => Severity::Warn,
        Event::ProbeEnded(verdict) => verdict_severity(verdict),
        Event::StopFinished(StopOutcome::StopFailed) => Severity::Error,
        Event::StopFinished(StopOutcome::StopTimedOut) => Severity::Error,
        _ => Severity::Info,
    }
}

impl Phase {
    /// The stage that this phase belongs to. Running the activation command
    /// is part of awaiting the activation, the rest after a shutdown is part
    /// of stopping.
    pub open spec fn spec_stage(self) -> Stage {
        match self {
            Phase::Starting(_) => Stage::Starting,
            Phase::AwaitingActivation => Stage::AwaitingActivation,
            Phase::Activating => Stage::AwaitingActivation,
            Phase::Monitoring => Stage::Monitoring,
            Phase::Stopping(_, _) => Stage::Stopping,
            Phase::Settling => Stage::Stopping,
            Phase::Restarting => Stage::Restarting,
            Phase::Terminated(_) => Stage::Terminated,
        }
    }

    /// The stage that this phase belongs to.
    #[verifier::when_used_as_spec(spec_stage)]
    pub fn stage(self) -> (stage: Stage)
        ensures
            stage == self.spec_stage(),
    {
        match self {
            Phase::Starting(_) => Stage::Starting,
            Phase::AwaitingActivation => Stage::AwaitingActivation,
            Phase::Activating => Stage::AwaitingActivation,
            Phase::Monitoring => Stage::Monitoring,
            Phase::Stopping(_, _) => Stage::Stopping,
            Phase::Settling => Stage::Stopping,
            Phase::Restarting => Stage::Restarting,
            Phase::Terminated(_) => Stage::Terminated,
        }
    }

    /// Whether the cycle is over.
    pub open spec fn is_final(self) -> bool {
        self is Restarting || self is Terminated
    }
}

impl Stage {
    /// Place of the stage in the order of stages. The two ends of a cycle
    /// share the last place.
    pub open spec fn rank(self) -> nat {
        match self {
            Stage::Starting => 0,
            Stage::AwaitingActivation => 1,
            Stage::Monitoring => 2,
            Stage::Stopping => 3,
            Stage::Restarting => 4,
            Stage::Terminated => 4,
        }
    }
}

/// The mathematical state of a cycle.
pub struct CycleModel {
    /// Seconds between spawning and activation.
    pub activation_delay: u64,
    /// Where the cycle stands.
    pub phase: Phase,
    /// What is known of the tunnel agent.
    pub tunnel: ProcessStatus,
    /// What is known of the proxy.
    pub proxy: ProcessStatus,
}

impl CycleModel {
    /// A cycle at its beginning: nothing is spawned.
    pub open spec fn fresh(args: Args) -> CycleModel {
        CycleModel {
            activation_delay: args.warp_cli_delay,
            phase: Phase::Starting(Managed::Tunnel),
            tunnel: ProcessStatus::Absent,
            proxy: ProcessStatus::Absent,
        }
    }

    /// What is known of `who`.
    pub open spec fn status(self, who: Managed) -> ProcessStatus {
        match who {
            Managed::Tunnel => self.tunnel,
            Managed::Proxy => self.proxy,
        }
    }

    /// This state with `status` for `who`.
    pub open spec fn with_status(self, who: Managed, status: ProcessStatus) -> CycleModel {
        match who {
            Managed::Tunnel => CycleModel { tunnel: status, ..self },
            Managed::Proxy => CycleModel { proxy: status, ..self },
        }
    }

    /// This state in another phase.
    pub open spec fn enter(self, phase: Phase) -> CycleModel {
        CycleModel { phase, ..self }
    }

    /// Whether both processes are spawned and neither has been seen to end.
    pub open spec fn both_running(self) -> bool {
        self.tunnel == ProcessStatus::Running && self.proxy == ProcessStatus::Running
    }

    /// Whether the cycle holds no process.
    pub open spec fn none_held(self) -> bool {
        self.tunnel == ProcessStatus::Absent && self.proxy == ProcessStatus::Absent
    }

    /// What every state of a cycle satisfies.
    pub open spec fn wf(self) -> bool {
        match self.phase {
            Phase::Starting(Managed::Tunnel) => self.none_held(),
            Phase::Starting(Managed::Proxy) => self.tunnel == ProcessStatus::Running && self.proxy
                == ProcessStatus::Absent,
            Phase::AwaitingActivation => self.both_running(),
            Phase::Activating => self.both_running(),
            Phase::Monitoring => self.both_running(),
            Phase::Stopping(_, Managed::Proxy) => self.tunnel != ProcessStatus::Absent
                && self.proxy != ProcessStatus::Absent,
            Phase::Stopping(_, Managed::Tunnel) => self.tunnel != ProcessStatus::Absent
                && self.proxy == ProcessStatus::Absent,
            Phase::Settling => self.none_held(),
            Phase::Restarting => self.none_held(),
            Phase::Terminated(code) => {
                &&& code == EXIT_CODE_OK || code == EXIT_CODE_WARP_ERR || code
                    == EXIT_CODE_GOST_ERR || code == EXIT_CODE_STOP_ERR || code
                    == EXIT_CODE_CONNECT_ERR
                &&& code == EXIT_CODE_OK ==> self.none_held()
            },
        }
    }

    /// Whether `event` answers the action that is pending.
    pub open spec fn accepts(self, event: Event) -> bool {
        match (self.phase, event) {
            (Phase::Starting(_), Event::Spawned) => true,
            (Phase::Starting(_), Event::SpawnFailed) => true,
            (Phase::AwaitingActivation, Event::DelayElapsed) => true,
            (Phase::AwaitingActivation, Event::Interrupted) => true,
            (Phase::Activating, Event::Activated) => true,
            (Phase::Activating, Event::ActivationFailed) => true,
            (Phase::Monitoring, Event::Interrupted) => true,
            (Phase::Monitoring, Event::ProcessExited(_, _)) => true,
            (Phase::Monitoring, Event::ProbeEnded(_)) => true,
            (Phase::Stopping(_, _), Event::StopFinished(_)) => true,
            (Phase::Settling, Event::Settled) => true,
            _ => false,
        }
    }

    /// The state in which a shutdown for `cause` begins.
    pub open spec fn begin_shutdown(self, cause: StopCause) -> CycleModel {
        self.enter(Phase::Stopping(cause, stop_order()[0]))
    }

    /// The state after `event`. An event that does not answer the pending
    /// action changes nothing.
    pub open spec fn next(self, event: Event) -> CycleModel {
        match (self.phase, event) {
            (Phase::Starting(Managed::Tunnel), Event::Spawned) => self.with_status(
                Managed::Tunnel,
                ProcessStatus::Running,
            ).enter(Phase::Starting(Managed::Proxy)),
            (Phase::Starting(Managed::Proxy), Event::Spawned) => self.with_status(
                Managed::Proxy,
                ProcessStatus::Running,
            ).enter(Phase::AwaitingActivation),
            (Phase::Starting(who), Event::SpawnFailed) => self.enter(
                Phase::Terminated(launch_failure_code(who)),
            ),
            (Phase::AwaitingActivation, Event::DelayElapsed) => self.enter(Phase::Activating),
            (Phase::AwaitingActivation, Event::Interrupted) => self.begin_shutdown(
                StopCause::External,
            ),
            (Phase::Activating, Event::Activated) => self.enter(Phase::Monitoring),
            (Phase::Activating, Event::ActivationFailed) => self.enter(
                Phase::Terminated(EXIT_CODE_CONNECT_ERR),
            ),
            (Phase::Monitoring, Event::Interrupted) => self.begin_shutdown(StopCause::External),
            (Phase::Monitoring, Event::ProcessExited(who, outcome)) => self.with_status(
                who,
                status_after_wait(outcome),
            ).begin_shutdown(StopCause::Internal),
            (Phase::Monitoring, Event::ProbeEnded(_)) => self.begin_shutdown(StopCause::Internal),
            (Phase::Stopping(cause, target), Event::StopFinished(outcome)) => match step_after(
                cause,
                stop_index(target),
                outcome,
            ) {
                ShutdownStep::Fatal => self.enter(Phase::Terminated(EXIT_CODE_STOP_ERR)),
                ShutdownStep::Stop(following) => self.with_status(
                    target,
                    ProcessStatus::Absent,
                ).enter(Phase::Stopping(cause, following)),
                ShutdownStep::Settle => self.with_status(target, ProcessStatus::Absent).enter(
                    Phase::Settling,
                ),
                ShutdownStep::Done => self.with_status(target, ProcessStatus::Absent).enter(
                    Phase::Terminated(EXIT_CODE_OK),
                ),
            },
            (Phase::Settling, Event::Settled) => self.enter(Phase::Restarting),
            _ => self,
        }
    }

    /// What the caller has to do in this state.
    pub open spec fn pending(self) -> Action {
        match self.phase {
            Phase::Starting(who) => Action::Spawn(who),
            Phase::AwaitingActivation => Action::AwaitActivation {
                delay_secs: self.activation_delay,
            },
            Phase::Activating => Action::Activate,
            Phase::Monitoring => Action::Monitor,
            Phase::Stopping(cause, target) => Action::Stop {
                target,
                timeout_secs: stop_timeout(cause),
            },
            Phase::Settling => Action::Settle { secs: SETTLE_DELAY },
            Phase::Restarting => Action::Restart,
            Phase::Terminated(code) => Action::Exit { code },
        }
    }

    /// The state after all of `events`, in order.
    pub open spec fn run(self, events: Seq<Event>) -> CycleModel
        decreases events.len(),
    {
        if events.len() == 0 {
            self
        } else {
            self.run(events.drop_last()).next(events.last())
        }
    }
}

impl Event {
    /// Level at which this event is logged.
    pub fn severity(&self) -> (level: Severity)
        ensures
            level == event_severity(*self),
    {
        match self {
            Event::SpawnFailed => Severity::Error,
            Event::ActivationFailed => Severity::Error,
            Event::ProcessExited(_, WaitOutcome::Failed) => Severity::Warn,
            Event::ProbeEnded(verdict) => verdict.severity(),
            Event::StopFinished(StopOutcome::StopFailed) => Severity::Error,
            Event::StopFinished(StopOutcome::StopTimedOut) => Severity::Error,
            _ => Severity::Info,
        }
    }
}

/// One supervision cycle.
#[derive(Clone, Copy, Debug)]
pub struct SupervisionCycle {
    activation_delay: u64,
    phase: Phase,
    tunnel: ProcessStatus,
    proxy: ProcessStatus,
}

impl View for SupervisionCycle {
    type V = CycleModel;

    closed spec fn view(&self) -> CycleModel {
        CycleModel {
            activation_delay: self.activation_delay,
            phase: self.phase,
            tunnel: self.tunnel,
            proxy: self.proxy,
        }
    }
}

impl SupervisionCycle {
    #[verifier::type_invariant]
    spec fn inv(self) -> bool {
        self@.wf()
    }

    /// A cycle at its beginning.
    pub fn new(args: &Args) -> (cycle: Self)
        ensures
            cycle@ == CycleModel::fresh(*args),
    {
        SupervisionCycle {
            activation_delay: args.warp_cli_delay,
            phase: Phase::Starting(Managed::Tunnel),
            tunnel: ProcessStatus::Absent,
            proxy: ProcessStatus::Absent,
        }
    }

    /// Where the cycle stands.
    pub fn phase(&self) -> (phase: Phase)
        ensures
            phase == self@.phase,
            self@.wf(),
    {
        proof {
            use_type_invariant(self);
        }
        self.phase
    }

    /// What is known of `who`.
    pub fn status(&self, who: Managed) -> (status: ProcessStatus)
        ensures
            status == self@.status(who),
    {
        match who {
            Managed::Tunnel => self.tunnel,
            Managed::Proxy => self.proxy,
        }
    }

    /// What the caller has to do now.
    pub fn pending(&self) -> (action: Action)
        ensures
            action == self@.pending(),
    {
        match self.phase {
            Phase::Starting(who) => Action::Spawn(who),
            Phase::AwaitingActivation => Action::AwaitActivation {
                delay_secs: self.activation_delay,
            },
            Phase::Activating => Action::Activate,
            Phase::Monitoring => Action::Monitor,
            Phase::Stopping(cause, target) => Action::Stop {
                target,
                timeout_secs: timeout_for(cause),
            },
            Phase::Settling => Action::Settle { secs: SETTLE_DELAY },
            Phase::Restarting => Action::Restart,
            Phase::Terminated(code) => Action::Exit { code },
        }
    }

    /// Takes `event` in and tells what to do next.
    ///
    /// The new state is `next` of the old one: see [`CycleModel::next`] for
    /// each transition.
    pub fn step(&mut self, event: Event) -> (action: Action)
        ensures
            final(self)@ == old(self)@.next(event),
            final(self)@.wf(),
            action == final(self)@.pending(),
    {
        proof {
            use_type_invariant(&*self);
        }
        let now = *self;
        let after = match (now.phase, event) {
            (Phase::Starting(Managed::Tunnel), Event::Spawned) => SupervisionCycle {
                tunnel: ProcessStatus::Running,
                phase: Phase::Starting(Managed::Proxy),
                ..now
            },
            (Phase::Starting(Managed::Proxy), Event::Spawned) => SupervisionCycle {
                proxy: ProcessStatus::Running,
                phase: Phase::AwaitingActivation,
                ..now
            },
            (Phase::Starting(Managed::Tunnel), Event::SpawnFailed) => SupervisionCycle {
                phase: Phase::Terminated(EXIT_CODE_WARP_ERR),
                ..now
            },
            (Phase::Starting(Managed::Proxy), Event::SpawnFailed) => SupervisionCycle {
                phase: Phase::Terminated(EXIT_CODE_GOST_ERR),
                ..now
            },
            (Phase::AwaitingActivation, Event::DelayElapsed) => SupervisionCycle {
                phase: Phase::Activating,
                ..now
            },
            (Phase::AwaitingActivation, Event::Interrupted) => now.shutting_down(
                StopCause::External,
            ),
            (Phase::Activating, Event::Activated) => SupervisionCycle {
                phase: Phase::Monitoring,
                ..now
            },
            (Phase::Activating, Event::ActivationFailed) => SupervisionCycle {
                phase: Phase::Terminated(EXIT_CODE_CONNECT_ERR),
                ..now
            },
            (Phase::Monitoring, Event::Interrupted) => now.shutting_down(StopCause::External),
            (Phase::Monitoring, Event::ProcessExited(who, outcome)) => {
                let status = match outcome {
                    WaitOutcome::Exited(_) => ProcessStatus::Exited,
                    WaitOutcome::Failed => ProcessStatus::Unknown,
                };
                let phase = Phase::Stopping(StopCause::Internal, first_to_stop());
                match who {
                    Managed::Tunnel => SupervisionCycle { tunnel: status, phase, ..now },
                    Managed::Proxy => SupervisionCycle { proxy: status, phase, ..now },
                }
            },
            (Phase::Monitoring, Event::ProbeEnded(_)) => now.shutting_down(StopCause::Internal),
            (Phase::Stopping(cause, target), Event::StopFinished(outcome)) => {
                proof {
                    lemma_stop_order(target);
                }
                let phase = match after_stop(cause, target, outcome) {
                    ShutdownStep::Fatal => {
                        *self = SupervisionCycle {
                            phase: Phase::Terminated(EXIT_CODE_STOP_ERR),
                            ..now
                        };
                        return self.pending();
                    },
                    ShutdownStep::Stop(following) => Phase::Stopping(cause, following),
                    ShutdownStep::Settle => Phase::Settling,
                    ShutdownStep::Done => Phase::Terminated(EXIT_CODE_OK),
                };
                match target {
                    Managed::Tunnel => SupervisionCycle {
                        tunnel: ProcessStatus::Absent,
                        phase,
                        ..now
                    },
                    Managed::Proxy => SupervisionCycle {
                        proxy: ProcessStatus::Absent,
                        phase,
                        ..now
                    },
                }
            },
            (Phase::Settling, Event::Settled) => SupervisionCycle {
                phase: Phase::Restarting,
                ..now
            },
            _ => now,
        };
        *self = after;
        self.pending()
    }

    /// This cycle as it begins to stop its processes.
    fn shutting_down(self, cause: StopCause) -> (after: Self)
        requires
            self@.tunnel != ProcessStatus::Absent,
            self@.proxy != ProcessStatus::Absent,
        ensures
            after@ == self@.begin_shutdown(cause),
    {
        SupervisionCycle { phase: Phase::Stopping(cause, first_to_stop()), ..self }
    }
}

/// Taking an event in keeps a state as every state of a cycle is.
pub proof fn lemma_next_keeps_wf(state: CycleModel, event: Event)
    requires
        state.wf(),
    ensures
        state.next(event).wf(),
{
}

/// Whatever is reported to a cycle, in whatever order, the cycle watches only
/// after both processes have been spawned: while it waits for the activation
/// and while it monitors, and so whenever the pending action is to monitor,
/// both spawns have come back and no process has been seen to end. A cycle
/// that is to be followed by a new one holds no process.
pub proof fn lemma_spawns_come_first(args: Args, events: Seq<Event>)
    ensures
        ({
            let state = CycleModel::fresh(args).run(events);
            &&& state.wf()
            &&& state.phase.stage() == Stage::AwaitingActivation ==> state.both_running()
            &&& state.phase.stage() == Stage::Monitoring ==> state.both_running()
            &&& state.pending() == Action::Monitor ==> state.both_running()
            &&& state.pending() == Action::Restart ==> state.none_held()
        }),
    decreases events.len(),
{
    if events.len() > 0 {
        lemma_spawns_come_first(args, events.drop_last());
        lemma_next_keeps_wf(CycleModel::fresh(args).run(events.drop_last()), events.last());
    }
}

/// How waiting for a process came back makes no difference to what the cycle
/// does: a wait that failed counts as the end of the process.
pub proof fn lemma_failed_wait_counts_as_exit(state: CycleModel, who: Managed, code: Option<i32>)
    ensures
        state.next(Event::ProcessExited(who, WaitOutcome::Failed)).phase == state.next(
            Event::ProcessExited(who, WaitOutcome::Exited(code)),
        ).phase,
        event_severity(Event::ProcessExited(who, WaitOutcome::Failed)) == Severity::Warn,
{
}

/// A phase is entered only from where the order of a cycle allows it: the
/// activation after the delay, monitoring after the activation, a shutdown
/// from the wait for the activation or from monitoring, the rest after the
/// last stop of a shutdown that the supervisor began, a restart after the
/// rest.
pub proof fn lemma_ways_into_a_phase(state: CycleModel, event: Event)
    ensures
        state.next(event).phase == Phase::Monitoring && state.phase != Phase::Monitoring ==> state.phase
            == Phase::Activating && event == Event::Activated,
        state.next(event).phase == Phase::Activating && state.phase != Phase::Activating ==> state.phase
            == Phase::AwaitingActivation && event == Event::DelayElapsed,
        state.next(event).phase == Phase::Restarting && state.phase != Phase::Restarting ==> state.phase
            == Phase::Settling && event == Event::Settled,
        state.next(event).phase == Phase::Settling && state.phase != Phase::Settling ==> state.phase
            == Phase::Stopping(StopCause::Internal, Managed::Tunnel),
        state.next(event).phase is Stopping && !(state.phase is Stopping) ==> state.phase
            == Phase::AwaitingActivation || state.phase == Phase::Monitoring,
{
}

/// A cycle only moves forward through its stages, and a cycle that is over
/// stays as it is.
pub proof fn lemma_stage_moves_forward(state: CycleModel, event: Event)
    ensures
        state.phase.stage().rank() <= state.next(event).phase.stage().rank(),
        state.phase.is_final() ==> state.next(event) == state,
        !state.accepts(event) ==> state.next(event) == state,
{
}

/// Whether a state belongs to a shutdown that the operator asked for, or to
/// the end of the program.
pub open spec fn ending(state: CycleModel) -> bool {
    match state.phase {
        Phase::Stopping(cause, _) => cause == StopCause::External,
        Phase::Terminated(code) => code == EXIT_CODE_OK || code == EXIT_CODE_STOP_ERR,
        _ => false,
    }
}

/// An interrupt that arrives while the cycle waits for the activation or
/// monitors leads to the end of the program, never to a restart: whatever is
/// reported afterwards, the end of a process and the end of the probe among
/// it, the cycle is stopping for the operator or has ended the program, with
/// the code of success or with that of a stop that timed out.
pub proof fn lemma_interrupt_ends_program(state: CycleModel, events: Seq<Event>)
    requires
        state.phase == Phase::AwaitingActivation || state.phase == Phase::Monitoring,
    ensures
        state.accepts(Event::Interrupted),
        ending(state.next(Event::Interrupted).run(events)),
        state.next(Event::Interrupted).run(events).phase != Phase::Restarting,
        state.next(Event::Interrupted).run(events).pending() != Action::Restart,
    decreases events.len(),
{
    if events.len() > 0 {
        lemma_interrupt_ends_program(state, events.drop_last());
    }
}

/// After an interrupt the processes are stopped with the operator's timeout,
/// the proxy first, and the program ends once both stops have been answered:
/// with the code of success where neither timed out, else with that of a
/// failed stop.
pub proof fn lemma_interrupt_stops_both(state: CycleModel, first: StopOutcome, second: StopOutcome)
    requires
        state.phase == Phase::AwaitingActivation || state.phase == Phase::Monitoring,
    ensures
        ({
            let a = state.next(Event::Interrupted);
            let b = a.next(Event::StopFinished(first));
            let c = b.next(Event::StopFinished(second));
            let in_time = first != StopOutcome::StopTimedOut && second != StopOutcome::StopTimedOut;
            &&& a.pending() == Action::Stop {
                target: Managed::Proxy,
                timeout_secs: stop_timeout(StopCause::External),
            }
            &&& first != StopOutcome::StopTimedOut ==> b.pending() == Action::Stop {
                target: Managed::Tunnel,
                timeout_secs: stop_timeout(StopCause::External),
            }
            &&& in_time ==> c.pending() == Action::Exit { code: EXIT_CODE_OK }
            &&& !in_time ==> c.pending() == Action::Exit { code: EXIT_CODE_STOP_ERR }
        }),
{
}

/// A stop that does not end within its timeout ends the program with the
/// code of a failed stop, whichever process it was for and whoever asked for
/// the shutdown.
pub proof fn lemma_stop_timeout_is_fatal(state: CycleModel, cause: StopCause, target: Managed)
    requires
        state.phase == Phase::Stopping(cause, target),
    ensures
        state.accepts(Event::StopFinished(StopOutcome::StopTimedOut)),
        state.next(Event::StopFinished(StopOutcome::StopTimedOut)).phase == Phase::Terminated(
            EXIT_CODE_STOP_ERR,
        ),
        state.next(Event::StopFinished(StopOutcome::StopTimedOut)).pending() == (Action::Exit {
            code: EXIT_CODE_STOP_ERR,
        }),
{
}

/// A stop answered in time lets the shutdown go on, whatever was known of the
/// process before, also where it had been seen to end already: its handle is
/// given up and the next step of the shutdown follows. Answered without an
/// error, it is logged as ordinary.
pub proof fn lemma_stop_in_time_goes_on(
    state: CycleModel,
    cause: StopCause,
    target: Managed,
    outcome: StopOutcome,
)
    requires
        state.phase == Phase::Stopping(cause, target),
        outcome != StopOutcome::StopTimedOut,
    ensures
        state.next(Event::StopFinished(outcome)).status(target) == ProcessStatus::Absent,
        state.next(Event::StopFinished(outcome)).phase == match (target, cause) {
            (Managed::Proxy, _) => Phase::Stopping(cause, Managed::Tunnel),
            (Managed::Tunnel, StopCause::Internal) => Phase::Settling,
            (Managed::Tunnel, StopCause::External) => Phase::Terminated(EXIT_CODE_OK),
        },
        event_severity(Event::StopFinished(StopOutcome::Stopped)) == Severity::Info,
{
}

/// The exit codes tell the outcomes apart. Each of the four failures that
/// end the program has a code of its own: the tunnel that cannot be spawned,
/// the proxy that cannot be spawned, the tunnel that cannot be activated, the
/// stop that times out. None of them is the code of success.
pub proof fn lemma_exit_codes_differ()
    ensures
        launch_failure_code(Managed::Tunnel) != launch_failure_code(Managed::Proxy),
        launch_failure_code(Managed::Tunnel) != EXIT_CODE_CONNECT_ERR,
        launch_failure_code(Managed::Tunnel) != EXIT_CODE_STOP_ERR,
        launch_failure_code(Managed::Proxy) != EXIT_CODE_CONNECT_ERR,
        launch_failure_code(Managed::Proxy) != EXIT_CODE_STOP_ERR,
        EXIT_CODE_CONNECT_ERR != EXIT_CODE_STOP_ERR,
        launch_failure_code(Managed::Tunnel) != EXIT_CODE_OK,
        launch_failure_code(Managed::Proxy) != EXIT_CODE_OK,
        EXIT_CODE_CONNECT_ERR != EXIT_CODE_OK,
        EXIT_CODE_STOP_ERR != EXIT_CODE_OK,
{
}

/// The code with which a failure ends the program, whatever the cycle knew
/// before: a spawn that fails ends it with the code of the process that was
/// to be spawned, an activation that fails with the code of the activation.
pub proof fn lemma_failure_has_its_code(state: CycleModel, who: Managed)
    ensures
        state.phase == Phase::Starting(who) ==> state.next(Event::SpawnFailed).pending()
            == (Action::Exit { code: launch_failure_code(who) }),
        state.phase == Phase::Activating ==> state.next(Event::ActivationFailed).pending()
            == (Action::Exit { code: EXIT_CODE_CONNECT_ERR }),
        state.phase == Phase::Activating ==> state.next(Event::ActivationFailed).phase
            != Phase::Terminated(launch_failure_code(Managed::Tunnel)),
{
}

/// An event that ends the program with a code of failure is logged as an
/// error.
pub proof fn lemma_fatal_is_logged_as_error(state: CycleModel, event: Event)
    requires
        state.wf(),
        !(state.phase is Terminated),
        state.next(event).phase is Terminated,
        state.next(event).phase != Phase::Terminated(EXIT_CODE_OK),
    ensures
        event_severity(event) == Severity::Error,
{
}

} // verus!
