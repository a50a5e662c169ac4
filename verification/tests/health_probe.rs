use warp_supervisor::command::Args;
use warp_supervisor::health::{
    classify, HealthCheckState, Observation, ProbeAction, ProbeEvent, ProbePhase, ProbeVerdict,
};
use warp_supervisor::report::Severity;
use warp_supervisor::trace::WarpStatus;

fn args_with_retries(retries: usize) -> Args {
    Args {
        listen_port: 1080,
        healthcheck_interval: 10,
        healthcheck_start_period: 15,
        healthcheck_retries: retries,
        healthcheck_timeout: 7,
        warp_cli_delay: 2,
        display_gost_logs: 0,
    }
}

const PAUSE: ProbeAction = ProbeAction::Sleep { secs: 10 };
const REQUEST: ProbeAction = ProbeAction::Request { timeout_secs: 7 };
const EXHAUSTED: ProbeAction = ProbeAction::Finish(ProbeVerdict::Exhausted);
const UNHEALTHY: ProbeAction = ProbeAction::Finish(ProbeVerdict::Unhealthy);

/// A probe whose start period has passed.
fn started(retries: usize) -> HealthCheckState {
    let mut probe = HealthCheckState::new(&args_with_retries(retries));
    assert_eq!(probe.step(ProbeEvent::Elapsed), PAUSE);
    probe
}

/// Lets the pause pass and answers the request with `response`.
fn request(probe: &mut HealthCheckState, response: Option<&str>) -> ProbeAction {
    assert_eq!(probe.pending(), PAUSE);
    assert_eq!(probe.step(ProbeEvent::Elapsed), REQUEST);
    probe.record(response)
}

#[test]
fn a_new_probe_waits_for_the_start_period() {
    let probe = HealthCheckState::new(&args_with_retries(3));
    assert_eq!(probe.pending(), ProbeAction::Sleep { secs: 15 });
    assert_eq!(probe.phase(), ProbePhase::GracePeriod);
    assert_eq!(probe.errors(), 0);
    assert_eq!(probe.max_retries(), 3);
}

#[test]
fn after_the_start_period_the_probe_pauses_and_requests_in_turn() {
    let mut probe = HealthCheckState::new(&args_with_retries(3));
    assert_eq!(probe.step(ProbeEvent::Elapsed), PAUSE);
    assert_eq!(probe.phase(), ProbePhase::Pausing);
    assert_eq!(probe.step(ProbeEvent::Elapsed), REQUEST);
    assert_eq!(probe.phase(), ProbePhase::Requesting);
    assert_eq!(probe.record(Some("warp=on\n")), PAUSE);
    assert_eq!(probe.phase(), ProbePhase::Pausing);
    assert_eq!(probe.step(ProbeEvent::Elapsed), REQUEST);
}

#[test]
fn two_timeouts_then_warp_plus_resets_then_three_timeouts_exhaust() {
    let mut probe = started(3);
    assert_eq!(request(&mut probe, None), PAUSE);
    assert_eq!(probe.errors(), 1);
    assert_eq!(request(&mut probe, None), PAUSE);
    assert_eq!(probe.errors(), 2);
    assert_eq!(request(&mut probe, Some("h=cloudflare.com\nwarp=plus\n")), PAUSE);
    assert_eq!(probe.errors(), 0);
    assert_eq!(probe.phase(), ProbePhase::Pausing);

    assert_eq!(request(&mut probe, None), PAUSE);
    assert_eq!(request(&mut probe, None), PAUSE);
    assert_eq!(probe.errors(), 2);
    assert_eq!(request(&mut probe, None), EXHAUSTED);
    assert_eq!(probe.errors(), 3);
    assert_eq!(probe.phase(), ProbePhase::Finished(ProbeVerdict::Exhausted));
}

#[test]
fn warp_on_resets_whatever_was_counted() {
    for failures in 0..9usize {
        let mut probe = started(10);
        for _ in 0..failures {
            assert_eq!(request(&mut probe, None), PAUSE);
        }
        assert_eq!(probe.errors(), failures);
        assert_eq!(request(&mut probe, Some("warp=on\n")), PAUSE);
        assert_eq!(probe.errors(), 0);
    }
}

#[test]
fn answer_without_status_line_ends_the_probe_on_the_first_check() {
    let mut probe = started(3);
    assert_eq!(request(&mut probe, Some("h=cloudflare.com\nwarp=off\n")), UNHEALTHY);
    assert_eq!(probe.errors(), 0);
    assert_eq!(probe.phase(), ProbePhase::Finished(ProbeVerdict::Unhealthy));
}

#[test]
fn answer_without_status_line_ends_the_probe_after_failures_too() {
    let mut probe = started(3);
    assert_eq!(request(&mut probe, None), PAUSE);
    assert_eq!(request(&mut probe, None), PAUSE);
    assert_eq!(request(&mut probe, Some("")), UNHEALTHY);
    assert_eq!(probe.errors(), 2);
}

#[test]
fn the_counter_never_passes_the_budget() {
    for retries in 0..6usize {
        let mut probe = HealthCheckState::new(&args_with_retries(retries));
        for _ in 0..40 {
            probe.step(ProbeEvent::Elapsed);
            assert!(probe.errors() <= retries);
            probe.step(ProbeEvent::Observed(Observation::Failed));
            assert!(probe.errors() <= retries);
        }
        assert_eq!(probe.errors(), retries);
        assert_eq!(probe.pending(), EXHAUSTED);
    }
}

#[test]
fn the_counter_is_the_number_of_failures_since_the_last_answer() {
    let results = [None, None, Some("warp=on"), None, Some("warp=plus\n"), None, None, None];
    let mut probe = started(5);
    let mut since_answer: usize = 0;
    for result in results {
        request(&mut probe, result);
        since_answer = if result.is_none() { since_answer + 1 } else { 0 };
        assert_eq!(probe.errors(), since_answer);
    }
    assert_eq!(probe.errors(), 3);
}

#[test]
fn a_budget_of_zero_is_exhausted_before_the_first_request() {
    let mut probe = HealthCheckState::new(&args_with_retries(0));
    assert_eq!(probe.pending(), ProbeAction::Sleep { secs: 15 });
    assert_eq!(probe.step(ProbeEvent::Elapsed), EXHAUSTED);
}

#[test]
fn a_budget_of_one_is_exhausted_by_one_failure() {
    let mut probe = started(1);
    assert_eq!(request(&mut probe, None), EXHAUSTED);
}

#[test]
fn a_finished_probe_stays_finished() {
    let mut probe = started(1);
    request(&mut probe, None);
    assert_eq!(probe.record(Some("warp=on")), EXHAUSTED);
    assert_eq!(probe.step(ProbeEvent::Elapsed), EXHAUSTED);
    assert_eq!(probe.step(ProbeEvent::Observed(Observation::Disabled)), EXHAUSTED);
    assert_eq!(probe.errors(), 1);

    let mut probe = started(2);
    request(&mut probe, Some("warp=off"));
    assert_eq!(probe.record(None), UNHEALTHY);
    assert_eq!(probe.step(ProbeEvent::Elapsed), UNHEALTHY);
    assert_eq!(probe.record(Some("warp=on")), UNHEALTHY);
    assert_eq!(probe.errors(), 0);
}

#[test]
fn events_out_of_turn_change_nothing() {
    // No request has been asked for during the start period or a pause.
    let mut probe = HealthCheckState::new(&args_with_retries(3));
    assert_eq!(probe.record(None), ProbeAction::Sleep { secs: 15 });
    assert_eq!(probe.errors(), 0);
    assert_eq!(probe.phase(), ProbePhase::GracePeriod);

    let mut probe = started(3);
    assert_eq!(probe.record(None), PAUSE);
    assert_eq!(probe.record(Some("warp=off")), PAUSE);
    assert_eq!(probe.errors(), 0);

    // No sleep has been asked for while a request is under way.
    assert_eq!(probe.step(ProbeEvent::Elapsed), REQUEST);
    assert_eq!(probe.step(ProbeEvent::Elapsed), REQUEST);
    assert_eq!(probe.phase(), ProbePhase::Requesting);
}

#[test]
fn classify_tells_the_three_results_apart() {
    assert_eq!(classify(None), Observation::Failed);
    assert_eq!(classify(Some("warp=on")), Observation::Healthy(WarpStatus::On));
    assert_eq!(classify(Some("a\nwarp=plus\n")), Observation::Healthy(WarpStatus::Plus));
    assert_eq!(classify(Some("warp=off\n")), Observation::Disabled);
    assert_eq!(classify(Some("")), Observation::Disabled);
}

#[test]
fn probe_events_have_their_log_levels() {
    assert_eq!(ProbeEvent::Elapsed.severity(), Severity::Info);
    assert_eq!(ProbeEvent::Observed(Observation::Failed).severity(), Severity::Warn);
    assert_eq!(ProbeEvent::Observed(Observation::Disabled).severity(), Severity::Warn);
    assert_eq!(ProbeEvent::Observed(Observation::Healthy(WarpStatus::On)).severity(), Severity::Info);
    assert_eq!(ProbeVerdict::Exhausted.severity(), Severity::Error);
    assert_eq!(ProbeVerdict::Unhealthy.severity(), Severity::Warn);
}
