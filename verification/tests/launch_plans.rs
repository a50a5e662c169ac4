use warp_supervisor::command::Args;
use warp_supervisor::launch::{
    activation_command, launch_of, listen_address, proxy_launch, tunnel_launch, Managed, StdioMode,
};

fn args(port: u16, display: u8) -> Args {
    Args {
        listen_port: port,
        healthcheck_interval: 10,
        healthcheck_start_period: 15,
        healthcheck_retries: 3,
        healthcheck_timeout: 10,
        warp_cli_delay: 2,
        display_gost_logs: display,
    }
}

#[test]
fn listen_address_is_colon_and_port() {
    assert_eq!(listen_address(1080), ":1080");
    assert_eq!(listen_address(0), ":0");
    assert_eq!(listen_address(7), ":7");
    assert_eq!(listen_address(10), ":10");
    assert_eq!(listen_address(99), ":99");
    assert_eq!(listen_address(100), ":100");
    assert_eq!(listen_address(8080), ":8080");
    assert_eq!(listen_address(40001), ":40001");
    assert_eq!(listen_address(65535), ":65535");
}

#[test]
fn listen_address_agrees_with_std_formatting_for_every_port() {
    for port in 0..=u16::MAX {
        assert_eq!(listen_address(port), format!(":{}", port));
    }
}

#[test]
fn tunnel_is_started_without_arguments() {
    let launch = tunnel_launch();
    assert_eq!(launch.command.program, "warp-svc");
    assert!(launch.command.args.is_empty());
    assert_eq!(launch.stdin, StdioMode::Discard);
    assert_eq!(launch.stdout, StdioMode::Inherit);
    assert_eq!(launch.stderr, StdioMode::Inherit);
}

#[test]
fn proxy_listens_on_the_configured_port() {
    let launch = proxy_launch(&args(1080, 0));
    assert_eq!(launch.command.program, "gost");
    assert_eq!(launch.command.args, vec!["-L".to_string(), ":1080".to_string()]);
    let launch = proxy_launch(&args(65535, 0));
    assert_eq!(launch.command.args, vec!["-L".to_string(), ":65535".to_string()]);
}

#[test]
fn proxy_output_is_discarded_unless_asked_for() {
    let launch = proxy_launch(&args(1080, 0));
    assert_eq!(launch.stdin, StdioMode::Discard);
    assert_eq!(launch.stdout, StdioMode::Discard);
    assert_eq!(launch.stderr, StdioMode::Discard);
}

#[test]
fn proxy_output_is_shown_when_the_flag_is_one() {
    let launch = proxy_launch(&args(1080, 1));
    assert_eq!(launch.stdin, StdioMode::Discard);
    assert_eq!(launch.stdout, StdioMode::Inherit);
    assert_eq!(launch.stderr, StdioMode::Inherit);
}

#[test]
fn only_the_value_one_shows_the_proxy_output() {
    for display in [2u8, 3, 100, 255] {
        let launch = proxy_launch(&args(1080, display));
        assert_eq!(launch.stdout, StdioMode::Discard);
        assert_eq!(launch.stderr, StdioMode::Discard);
    }
}

#[test]
fn launch_of_picks_the_plan_of_the_process() {
    let tunnel = launch_of(Managed::Tunnel, &args(3128, 1));
    assert_eq!(tunnel.command.program, "warp-svc");
    assert!(tunnel.command.args.is_empty());
    let proxy = launch_of(Managed::Proxy, &args(3128, 1));
    assert_eq!(proxy.command.program, "gost");
    assert_eq!(proxy.command.args, vec!["-L".to_string(), ":3128".to_string()]);
    assert_eq!(proxy.stdout, StdioMode::Inherit);
}

#[test]
fn activation_accepts_the_terms_and_connects() {
    let command = activation_command();
    assert_eq!(command.program, "warp-cli");
    assert_eq!(command.args, vec!["--accept-tos".to_string(), "connect".to_string()]);
}
