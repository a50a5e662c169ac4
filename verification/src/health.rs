//! The health probe: periodic requests against the trace endpoint, with a
//! budget of consecutive failures.
//!
//! The probe is driven from outside. The caller performs the pending
//! [`ProbeAction`], reports the result as a [`ProbeEvent`] and receives the
//! next action, until the probe finishes with a [`ProbeVerdict`].

use vstd::prelude::*;
use crate::command::Args;
use crate::report::Severity;
use crate::trace::{
    begins_a_break,
    ends_a_line,
    find_status_line,
    first_status,
    lemma_first_status,
    lemma_line_between_breaks,
    lines,
    status_line,
    status_of,
    WarpStatus,
};

verus! {

/// Why a probe ended.
#[derive(Clone, Copy, Debug, PartialEq, Eq, Structural)]
pub enum ProbeVerdict {
    /// The endpoint answered, and the answer says that the tunnel is off.
    Unhealthy,
    /// As many requests in a row failed as the budget allows.
    Exhausted,
}

/// What one request showed.
#[derive(Clone, Copy, Debug, PartialEq, Eq, Structural)]
pub enum Observation {
    /// No answer could be read: the request failed, timed out, or its body
    /// could not be received.
    Failed,
    /// The answer holds a status line.
    Healthy(WarpStatus),
    /// The answer holds no status line.
    Disabled,
}

/// Where a probe stands.
#[derive(Clone, Copy, Debug, PartialEq, Eq, Structural)]
pub enum ProbePhase {
    /// Waiting for the start period to pass; nothing has been requested yet.
    GracePeriod,
    /// Waiting for the interval before the next request to pass.
    Pausing,
    /// A request is under way.
    Requesting,
    /// Ended; a finished probe never resumes.
    Finished(ProbeVerdict),
}

/// What the caller reports to the probe.
#[derive(Clone, Copy, Debug, PartialEq, Eq, Structural)]
pub enum ProbeEvent {
    /// The time to sleep has passed.
    Elapsed,
    /// The request has been made, with this result.
    Observed(Observation),
}

/// What the caller does next for the probe.
#[derive(Clone, Copy, Debug, PartialEq, Eq, Structural)]
pub enum ProbeAction {
    /// Sleep, then report [`ProbeEvent::Elapsed`].
    Sleep { secs: u64 },
    /// Send one request to the trace endpoint and give it no longer than the
    /// timeout; report what it showed as [`ProbeEvent::Observed`].
    Request { timeout_secs: u64 },
    /// Nothing more; the probe has ended.
    Finish(ProbeVerdict),
}

/// The answer of one request as characters, where one was read.
pub open spec fn answer_view(response: Option<&str>) -> Option<Seq<char>> {
    match response {
        Some(body) => Some(body@),
        None => None,
    }
}

/// What a request showed, given the body that was read, if any.
pub open spec fn observation_of(response: Option<Seq<char>>) -> Observation {
    match response {
        None => Observation::Failed,
        Some(body) => match status_line(body) {
            Some(status) => Observation::Healthy(status),
            None => Observation::Disabled,
        },
    }
}

/// Classifies the result of one request: `None` where no answer could be
/// read, else the body of the answer.
pub fn classify(response: Option<&str>) -> (seen: Observation)
    ensures
        seen == observation_of(answer_view(response)),
{
    match response {
        None => Observation::Failed,
        Some(body) => match find_status_line(body) {
            Some(status) => Observation::Healthy(status),
            None => Observation::Disabled,
        },
    }
}

/// The mathematical state of a probe.
pub struct ProbeModel {
    /// Seconds between two requests.
    pub interval: u64,
    /// Seconds of grace before the probe begins to request.
    pub start_period: u64,
    /// Seconds that one request may take.
    pub timeout: u64,
    /// Consecutive failures at which the probe gives up.
    pub max_retries: nat,
    /// Consecutive failures so far.
    pub errors: nat,
    /// Where the probe stands.
    pub phase: ProbePhase,
}

impl ProbeModel {
    /// A probe at the start of a supervision cycle.
    pub open spec fn fresh(args: Args) -> ProbeModel {
        ProbeModel {
            interval: args.healthcheck_interval,
            start_period: args.healthcheck_start_period,
            timeout: args.healthcheck_timeout,
            max_retries: args.healthcheck_retries as nat,
            errors: 0,
            phase: ProbePhase::GracePeriod,
        }
    }

    /// The counter stays within the budget, and reaches it only when the probe
    /// declares exhaustion.
    pub open spec fn wf(self) -> bool {
        &&& self.errors <= self.max_retries
        &&& self.phase == ProbePhase::GracePeriod ==> self.errors == 0
        &&& self.phase == ProbePhase::Pausing ==> self.errors < self.max_retries
        &&& self.phase == ProbePhase::Requesting ==> self.errors < self.max_retries
        &&& self.phase == ProbePhase::Finished(ProbeVerdict::Unhealthy) ==> self.errors
            < self.max_retries
        &&& self.phase == ProbePhase::Finished(ProbeVerdict::Exhausted) ==> self.errors
            == self.max_retries
    }

    /// Whether `event` answers the action that is pending.
    pub open spec fn accepts(self, event: ProbeEvent) -> bool {
        match (self.phase, event) {
            (ProbePhase::GracePeriod, ProbeEvent::Elapsed) => true,
            (ProbePhase::Pausing, ProbeEvent::Elapsed) => true,
            (ProbePhase::Requesting, ProbeEvent::Observed(_)) => true,
            _ => false,
        }
    }

    /// The probe with `errors` failures counted, as it turns to its next
    /// request: it gives up where the budget is used up, else it pauses.
    pub open spec fn with_errors(self, errors: nat) -> ProbeModel {
        ProbeModel {
            errors,
            phase: if errors >= self.max_retries {
                ProbePhase::Finished(ProbeVerdict::Exhausted)
            } else {
                ProbePhase::Pausing
            },
            ..self
        }
    }

    /// The state after `event`. An event that does not answer the pending
    /// action changes nothing.
    pub open spec fn next(self, event: ProbeEvent) -> ProbeModel {
        match (self.phase, event) {
            (ProbePhase::GracePeriod, ProbeEvent::Elapsed) => self.with_errors(self.errors),
            (ProbePhase::Pausing, ProbeEvent::Elapsed) => ProbeModel {
                phase: ProbePhase::Requesting,
                ..self
            },
            (ProbePhase::Requesting, ProbeEvent::Observed(Observation::Failed)) => {
                self.with_errors(self.errors + 1)
            },
            (ProbePhase::Requesting, ProbeEvent::Observed(Observation::Healthy(_))) => {
                self.with_errors(0)
            },
            (ProbePhase::Requesting, ProbeEvent::Observed(Observation::Disabled)) => ProbeModel {
                phase: ProbePhase::Finished(ProbeVerdict::Unhealthy),
                ..self
            },
            _ => self,
        }
    }

    /// What the caller has to do in this state.
    pub open spec fn pending(self) -> ProbeAction {
        match self.phase {
            ProbePhase::GracePeriod => ProbeAction::Sleep { secs: self.start_period },
            ProbePhase::Pausing => ProbeAction::Sleep { secs: self.interval },
            ProbePhase::Requesting => ProbeAction::Request { timeout_secs: self.timeout },
            ProbePhase::Finished(verdict) => ProbeAction::Finish(verdict),
        }
    }

    /// The state after all of `events`, in order.
    pub open spec fn run(self, events: Seq<ProbeEvent>) -> ProbeModel
        decreases events.len(),
    {
        if events.len() == 0 {
            self
        } else {
            self.run(events.drop_last()).next(events.last())
        }
    }
}

/// Level at which `event` is logged: a request without an answer and an
/// answer without a status line are warnings.
pub open spec fn probe_severity(event: ProbeEvent) -> Severity {
    match event {
        ProbeEvent::Observed(Observation::Failed) => Severity::Warn,
        ProbeEvent::Observed(Observation::Disabled) => Severity::Warn,
        _ => Severity::Info,
    }
}

/// Level at which the end of a probe is logged.
pub open spec fn verdict_severity(verdict: ProbeVerdict) -> Severity {
    match verdict {
        ProbeVerdict::Exhausted => Severity::Error,
        ProbeVerdict::Unhealthy => Severity::Warn,
    }
}

impl ProbeEvent {
    /// Level at which this event is logged.
    pub fn severity(&self) -> (level: Severity)
        ensures
            level == probe_severity(*self),
    {
        match self {
            ProbeEvent::Observed(Observation::Failed) => Severity::Warn,
            ProbeEvent::Observed(Observation::Disabled) => Severity::Warn,
            _ => Severity::Info,
        }
    }
}

impl ProbeVerdict {
    /// Level at which this end of a probe is logged.
    pub fn severity(&self) -> (level: Severity)
        ensures
            level == verdict_severity(*self),
    {
        match self {
            ProbeVerdict::Exhausted => Severity::Error,
            ProbeVerdict::Unhealthy => Severity::Warn,
        }
    }
}

/// The health check of one supervision cycle: its settings and the count of
/// consecutive failed requests. Each cycle starts a new one.
#[derive(Clone, Copy, Debug)]
pub struct HealthCheckState {
    interval: u64,
    start_period: u64,
    timeout: u64,
    max_retries: usize,
    errors: usize,
    phase: ProbePhase,
}

impl View for HealthCheckState {
    type V = ProbeModel;

    closed spec fn view(&self) -> ProbeModel {
        ProbeModel {
            interval: self.interval,
            start_period: self.start_period,
            timeout: self.timeout,
            max_retries: self.max_retries as nat,
            errors: self.errors as nat,
            phase: self.phase,
        }
    }
}

impl HealthCheckState {
    #[verifier::type_invariant]
    spec fn inv(self) -> bool {
        self@.wf()
    }

    /// A probe that has counted no failure and has not started its start
    /// period.
    pub fn new(args: &Args) -> (state: Self)
        ensures
            state@ == ProbeModel::fresh(*args),
    {
        HealthCheckState {
            interval: args.healthcheck_interval,
            start_period: args.healthcheck_start_period,
            timeout: args.healthcheck_timeout,
            max_retries: args.healthcheck_retries,
            errors: 0,
            phase: ProbePhase::GracePeriod,
        }
    }

    /// Consecutive failed requests so far.
    pub fn errors(&self) -> (count: usize)
        ensures
            count == self@.errors,
            count <= self@.max_retries,
    {
        proof {
            use_type_invariant(self);
        }
        self.errors
    }

    /// Consecutive failed requests at which the probe gives up.
    pub fn max_retries(&self) -> (count: usize)
        ensures
            count == self@.max_retries,
    {
        self.max_retries
    }

    /// Where the probe stands.
    pub fn phase(&self) -> (phase: ProbePhase)
        ensures
            phase == self@.phase,
    {
        self.phase
    }

    /// What the caller has to do now.
    pub fn pending(&self) -> (action: ProbeAction)
        ensures
            action == self@.pending(),
    {
        match self.phase {
            ProbePhase::GracePeriod => ProbeAction::Sleep { secs: self.start_period },
            ProbePhase::Pausing => ProbeAction::Sleep { secs: self.interval },
            ProbePhase::Requesting => ProbeAction::Request { timeout_secs: self.timeout },
            ProbePhase::Finished(verdict) => ProbeAction::Finish(verdict),
        }
    }

    /// Takes `event` in and tells what to do next.
    ///
    /// A failed request adds one to the counter, an answer with a status line
    /// sets it to zero, and an answer without one ends the probe at once as
    /// unhealthy. Before the pause that leads to a request the counter is held
    /// against the budget: where it has reached it, the probe ends as
    /// exhausted.
    pub fn step(&mut self, event: ProbeEvent) -> (action: ProbeAction)
        ensures
            final(self)@ == old(self)@.next(event),
            final(self)@.wf(),
            action == final(self)@.pending(),
    {
        proof {
            use_type_invariant(&*self);
        }
        let errors: usize = match (self.phase, event) {
            (ProbePhase::GracePeriod, ProbeEvent::Elapsed) => self.errors,
            (ProbePhase::Pausing, ProbeEvent::Elapsed) => {
                *self = HealthCheckState { phase: ProbePhase::Requesting, ..*self };
                return self.pending();
            },
            (ProbePhase::Requesting, ProbeEvent::Observed(Observation::Failed)) => self.errors + 1,
            (ProbePhase::Requesting, ProbeEvent::Observed(Observation::Healthy(_))) => 0,
            (ProbePhase::Requesting, ProbeEvent::Observed(Observation::Disabled)) => {
                *self = HealthCheckState {
                    phase: ProbePhase::Finished(ProbeVerdict::Unhealthy),
                    ..*self
                };
                return self.pending();
            },
            _ => {
                return self.pending();
            },
        };
        let phase = if errors >= self.max_retries {
            ProbePhase::Finished(ProbeVerdict::Exhausted)
        } else {
            ProbePhase::Pausing
        };
        *self = HealthCheckState { errors, phase, ..*self };
        self.pending()
    }

    /// Takes in the result of one request, `None` where no answer could be
    /// read, else the body of the answer, and tells what to do next.
    pub fn record(&mut self, response: Option<&str>) -> (action: ProbeAction)
        ensures
            final(self)@ == old(self)@.next(
                ProbeEvent::Observed(observation_of(answer_view(response))),
            ),
            final(self)@.wf(),
            action == final(self)@.pending(),
    {
        let seen = classify(response);
        self.step(ProbeEvent::Observed(seen))
    }
}

/// Taking an event in keeps the counter within the budget.
pub proof fn lemma_next_keeps_wf(state: ProbeModel, event: ProbeEvent)
    requires
        state.wf(),
    ensures
        state.next(event).wf(),
{
}

/// Whatever is reported to a probe, in whatever order, its counter never
/// exceeds the budget, and while the probe goes on the counter is below it:
/// a counter that reaches the budget ends the probe as exhausted.
pub proof fn lemma_counter_stays_in_budget(args: Args, events: Seq<ProbeEvent>)
    ensures
        ProbeModel::fresh(args).run(events).wf(),
        ProbeModel::fresh(args).run(events).max_retries == args.healthcheck_retries,
    decreases events.len(),
{
    if events.len() > 0 {
        lemma_counter_stays_in_budget(args, events.drop_last());
        lemma_next_keeps_wf(ProbeModel::fresh(args).run(events.drop_last()), events.last());
    }
}

/// A probe that has ended stays as it is: it never resumes, whatever is
/// reported to it.
pub proof fn lemma_finished_probe_stays(state: ProbeModel, event: ProbeEvent)
    requires
        state.phase is Finished,
    ensures
        state.next(event) == state,
        !state.accepts(event),
{
}

/// One answer with a status line sets the counter to exactly zero, whatever
/// it was before, and the probe goes on.
pub proof fn lemma_healthy_answer_resets(state: ProbeModel, status: WarpStatus)
    requires
        state.wf(),
        state.phase == ProbePhase::Requesting,
    ensures
        state.next(ProbeEvent::Observed(Observation::Healthy(status))).errors == 0,
        state.next(ProbeEvent::Observed(Observation::Healthy(status))).phase
            == ProbePhase::Pausing,
{
}

/// An answer that holds the line `warp=on` or the line `warp=plus` sets the
/// counter to zero regardless of the failures counted before.
pub proof fn lemma_status_line_resets(state: ProbeModel, body: Seq<char>)
    requires
        state.wf(),
        state.phase == ProbePhase::Requesting,
        lines(body).contains("warp=on"@) || lines(body).contains("warp=plus"@),
    ensures
        observation_of(Some(body)) is Healthy,
        state.next(ProbeEvent::Observed(observation_of(Some(body)))).errors == 0,
        state.next(ProbeEvent::Observed(observation_of(Some(body)))).phase == ProbePhase::Pausing,
{
    let ls = lines(body);
    lemma_first_status(ls);
    let word = if ls.contains("warp=on"@) {
        "warp=on"@
    } else {
        "warp=plus"@
    };
    let i = choose|i: int| 0 <= i < ls.len() && ls[i] == word;
    assert(status_of(ls[i]) is Some);
}

/// An answer in which `warp=on` or `warp=plus` stands between two line
/// breaks, or between a line break and an end of the answer, sets the counter
/// to zero regardless of the failures counted before.
pub proof fn lemma_status_between_breaks_resets(
    state: ProbeModel,
    before: Seq<char>,
    word: Seq<char>,
    after: Seq<char>,
)
    requires
        state.wf(),
        state.phase == ProbePhase::Requesting,
        word == "warp=on"@ || word == "warp=plus"@,
        ends_a_line(before),
        begins_a_break(after),
    ensures
        observation_of(Some(before + word + after)) is Healthy,
        state.next(ProbeEvent::Observed(observation_of(Some(before + word + after)))).errors == 0,
        state.next(ProbeEvent::Observed(observation_of(Some(before + word + after)))).phase
            == ProbePhase::Pausing,
{
    reveal_strlit("warp=on");
    reveal_strlit("warp=plus");
    assert forall|k: int| 0 <= k < word.len() implies word[k] != '\n' by {}
    assert(!word.contains('\n'));
    lemma_line_between_breaks(before, word, after);
    lemma_status_line_resets(state, before + word + after);
}

/// The number of failed requests at the end of `seen`, back to the last
/// request that was answered.
pub open spec fn trailing_failures(seen: Seq<Observation>) -> nat
    decreases seen.len(),
{
    if seen.len() == 0 || seen.last() != Observation::Failed {
        0
    } else {
        trailing_failures(seen.drop_last()) + 1
    }
}

/// What is reported to a probe whose start period passes and whose requests
/// then show `seen`, one after the other: before each request a pause passes.
pub open spec fn probing(seen: Seq<Observation>) -> Seq<ProbeEvent>
    decreases seen.len(),
{
    if seen.len() == 0 {
        seq![ProbeEvent::Elapsed]
    } else {
        probing(seen.drop_last()).push(ProbeEvent::Elapsed).push(
            ProbeEvent::Observed(seen.last()),
        )
    }
}

/// The counter counts consecutive failures: while a probe goes on, its
/// counter is the number of requests that have failed since the last answer.
pub proof fn lemma_counter_counts_consecutive_failures(args: Args, seen: Seq<Observation>)
    ensures
        ({
            let state = ProbeModel::fresh(args).run(probing(seen));
            &&& state.phase == ProbePhase::Pausing || state.phase is Finished
            &&& state.phase == ProbePhase::Pausing ==> state.errors == trailing_failures(seen)
        }),
    decreases seen.len(),
{
    let start = ProbeModel::fresh(args);
    if seen.len() == 0 {
        assert(probing(seen).drop_last() =~= Seq::<ProbeEvent>::empty());
        assert(start.run(probing(seen).drop_last()) == start);
    } else {
        let before = probing(seen.drop_last());
        let paused = before.push(ProbeEvent::Elapsed);
        lemma_counter_counts_consecutive_failures(args, seen.drop_last());
        assert(paused.drop_last() =~= before);
        assert(probing(seen).drop_last() =~= paused);
        assert(start.run(paused) == start.run(before).next(ProbeEvent::Elapsed));
        assert(start.run(probing(seen)) == start.run(paused).next(
            ProbeEvent::Observed(seen.last()),
        ));
    }
}

/// An answer in which no line is `warp=on` or `warp=plus` ends the probe at
/// once as unhealthy and uses up none of the budget; this holds for the first
/// request as for any later one.
pub proof fn lemma_answer_without_status_ends_probe(state: ProbeModel, body: Seq<char>)
    requires
        state.phase == ProbePhase::Requesting,
        !lines(body).contains("warp=on"@),
        !lines(body).contains("warp=plus"@),
    ensures
        observation_of(Some(body)) == Observation::Disabled,
        state.next(ProbeEvent::Observed(observation_of(Some(body)))).phase == ProbePhase::Finished(
            ProbeVerdict::Unhealthy,
        ),
        state.next(ProbeEvent::Observed(observation_of(Some(body)))).errors == state.errors,
{
    let ls = lines(body);
    lemma_first_status(ls);
    if first_status(ls) is Some {
        let i = choose|i: int| 0 <= i < ls.len() && (#[trigger] status_of(ls[i])) is Some;
        assert(ls.contains(ls[i]));
    }
}

/// The very first request ends the probe as unhealthy where its answer
/// holds no status line: none of the budget is used, however small it is.
pub proof fn lemma_first_answer_without_status(args: Args, body: Seq<char>)
    requires
        args.healthcheck_retries > 0,
        !lines(body).contains("warp=on"@),
        !lines(body).contains("warp=plus"@),
    ensures
        ({
            let first = seq![observation_of(Some(body))];
            let state = ProbeModel::fresh(args).run(probing(first));
            &&& state.phase == ProbePhase::Finished(ProbeVerdict::Unhealthy)
            &&& state.errors == 0
        }),
{
    let start = ProbeModel::fresh(args);
    let first = seq![observation_of(Some(body))];
    let waited = seq![ProbeEvent::Elapsed];
    let paused = waited.push(ProbeEvent::Elapsed);
    assert(first.drop_last() =~= Seq::<Observation>::empty());
    assert(probing(first.drop_last()) =~= waited);
    assert(probing(first) =~= paused.push(ProbeEvent::Observed(first.last())));
    assert(waited.drop_last() =~= Seq::<ProbeEvent>::empty());
    assert(start.run(waited.drop_last()) == start);
    assert(start.run(waited) == start.next(ProbeEvent::Elapsed));
    assert(paused.drop_last() =~= waited);
    assert(start.run(paused) == start.run(waited).next(ProbeEvent::Elapsed));
    assert(probing(first).drop_last() =~= paused);
    lemma_answer_without_status_ends_probe(start.run(paused), body);
}

} // verus!
