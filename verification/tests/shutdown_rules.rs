use warp_supervisor::launch::Managed;
use warp_supervisor::report::{
    logged_exit_code, logged_pid, EXIT_CODE_CONNECT_ERR, EXIT_CODE_GOST_ERR, EXIT_CODE_OK,
    EXIT_CODE_STOP_ERR, EXIT_CODE_WARP_ERR,
};
use warp_supervisor::shutdown::{
    after_stop, first_to_stop, timeout_for, ShutdownStep, StopCause, StopOutcome,
    EXTERNAL_STOP_TIMEOUT, INTERNAL_STOP_TIMEOUT, SETTLE_DELAY,
};

#[test]
fn the_operator_waits_three_seconds_a_restart_five() {
    assert_eq!(EXTERNAL_STOP_TIMEOUT, 3);
    assert_eq!(INTERNAL_STOP_TIMEOUT, 5);
    assert_eq!(timeout_for(StopCause::External), 3);
    assert_eq!(timeout_for(StopCause::Internal), 5);
    assert_eq!(SETTLE_DELAY, 1);
}

#[test]
fn the_proxy_is_stopped_first() {
    assert_eq!(first_to_stop(), Managed::Proxy);
    for cause in [StopCause::External, StopCause::Internal] {
        for outcome in [StopOutcome::Stopped, StopOutcome::StopFailed] {
            assert_eq!(after_stop(cause, Managed::Proxy, outcome), ShutdownStep::Stop(Managed::Tunnel));
        }
    }
}

#[test]
fn after_the_tunnel_the_shutdown_is_complete() {
    for outcome in [StopOutcome::Stopped, StopOutcome::StopFailed] {
        assert_eq!(after_stop(StopCause::External, Managed::Tunnel, outcome), ShutdownStep::Done);
        assert_eq!(after_stop(StopCause::Internal, Managed::Tunnel, outcome), ShutdownStep::Settle);
    }
}

#[test]
fn a_stop_that_times_out_is_fatal_for_either_process() {
    for cause in [StopCause::External, StopCause::Internal] {
        for target in [Managed::Proxy, Managed::Tunnel] {
            assert_eq!(after_stop(cause, target, StopOutcome::StopTimedOut), ShutdownStep::Fatal);
        }
    }
}

#[test]
fn exit_codes_are_as_documented() {
    assert_eq!(EXIT_CODE_OK, 0);
    assert_eq!(EXIT_CODE_WARP_ERR, 1);
    assert_eq!(EXIT_CODE_GOST_ERR, 2);
    assert_eq!(EXIT_CODE_STOP_ERR, 3);
    assert_eq!(EXIT_CODE_CONNECT_ERR, 4);
}

#[test]
fn a_process_ended_by_a_signal_is_logged_with_minus_one() {
    assert_eq!(logged_exit_code(None), -1);
    assert_eq!(logged_exit_code(Some(0)), 0);
    assert_eq!(logged_exit_code(Some(137)), 137);
    assert_eq!(logged_exit_code(Some(-1)), -1);
}

#[test]
fn a_reaped_process_is_logged_with_pid_zero() {
    assert_eq!(logged_pid(None), 0);
    assert_eq!(logged_pid(Some(4711)), 4711);
    assert_eq!(logged_pid(Some(u32::MAX)), u32::MAX);
}
