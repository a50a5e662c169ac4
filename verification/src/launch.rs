//! How the managed programs are started.

use vstd::prelude::*;
use vstd::string::StringExecFns;
use crate::command::Args;

verus! {

/// One of the two processes that the supervisor keeps running.
#[derive(Clone, Copy, Debug, PartialEq, Eq, Structural)]
pub enum Managed {
    /// The tunnel agent.
    Tunnel,
    /// The forwarding proxy.
    Proxy,
}

/// Where a stream of a started process leads.
#[derive(Clone, Copy, Debug, PartialEq, Eq, Structural)]
pub enum StdioMode {
    /// To the supervisor's own stream.
    Inherit,
    /// Nowhere.
    Discard,
}

/// A program and its arguments.
#[derive(Debug)]
pub struct CommandLine {
    /// Name of the executable, looked up on the search path.
    pub program: String,
    /// Arguments, in order.
    pub args: Vec<String>,
}

/// All that is needed to start a managed process.
#[derive(Debug)]
pub struct Launch {
    /// What to run.
    pub command: CommandLine,
    /// Standard input of the process.
    pub stdin: StdioMode,
    /// Standard output of the process.
    pub stdout: StdioMode,
    /// Standard error of the process.
    pub stderr: StdioMode,
}

impl CommandLine {
    /// The program's name followed by its arguments.
    pub open spec fn words(self) -> Seq<Seq<char>> {
        seq![self.program@] + self.args.deep_view()
    }
}

/// The character of a decimal digit.
pub open spec fn digit(d: nat) -> char {
    if d == 0 {
        '0'
    } else if d == 1 {
        '1'
    } else if d == 2 {
        '2'
    } else if d == 3 {
        '3'
    } else if d == 4 {
        '4'
    } else if d == 5 {
        '5'
    } else if d == 6 {
        '6'
    } else if d == 7 {
        '7'
    } else if d == 8 {
        '8'
    } else {
        '9'
    }
}

/// `n` in decimal digits, without leading zeros.
pub open spec fn decimal(n: nat) -> Seq<char>
    decreases n,
{
    if n < 10 {
        seq![digit(n)]
    } else {
        decimal(n / 10).push(digit(n % 10))
    }
}

/// Where the proxy listens: a colon and the port, on all addresses.
pub open spec fn listen_spec(port: u16) -> Seq<char> {
    seq![':'] + decimal(port as nat)
}

/// Where the streams of the proxy lead.
pub open spec fn proxy_output(args: Args) -> StdioMode {
    if args.display_gost_logs == 1 {
        StdioMode::Inherit
    } else {
        StdioMode::Discard
    }
}

/// The decimal digit `d` as a text of one character.
fn digit_str(d: u16) -> (s: &'static str)
    requires
        d < 10,
    ensures
        s@ == seq![digit(d as nat)],
{
    proof {
        reveal_strlit("0");
        reveal_strlit("1");
        reveal_strlit("2");
        reveal_strlit("3");
        reveal_strlit("4");
        reveal_strlit("5");
        reveal_strlit("6");
        reveal_strlit("7");
        reveal_strlit("8");
        reveal_strlit("9");
    }
    let s = if d == 0 {
        "0"
    } else if d == 1 {
        "1"
    } else if d == 2 {
        "2"
    } else if d == 3 {
        "3"
    } else if d == 4 {
        "4"
    } else if d == 5 {
        "5"
    } else if d == 6 {
        "6"
    } else if d == 7 {
        "7"
    } else if d == 8 {
        "8"
    } else {
        "9"
    };
    assert(s@ =~= seq![digit(d as nat)]);
    s
}

/// Appends `n` in decimal digits to `out`.
fn push_decimal(out: &mut String, n: u16)
    ensures
        final(out)@ == old(out)@ + decimal(n as nat),
    decreases n,
{
    if n >= 10 {
        push_decimal(out, n / 10);
    }
    out.append(digit_str(n % 10));
    assert(final(out)@ =~= old(out)@ + decimal(n as nat));
}

/// The listen address of the proxy for `port`.
pub fn listen_address(port: u16) -> (address: String)
    ensures
        address@ == listen_spec(port),
{
    let mut address = String::from_str(":");
    proof {
        reveal_strlit(":");
    }
    assert(address@ =~= seq![':']);
    push_decimal(&mut address, port);
    address
}

/// How the tunnel agent is started: without arguments, with no input, and
/// with the supervisor's output streams.
pub fn tunnel_launch() -> (launch: Launch)
    ensures
        launch.command.words() == seq!["warp-svc"@],
        launch.stdin == StdioMode::Discard,
        launch.stdout == StdioMode::Inherit,
        launch.stderr == StdioMode::Inherit,
{
    let launch = Launch {
        command: CommandLine { program: String::from_str("warp-svc"), args: Vec::new() },
        stdin: StdioMode::Discard,
        stdout: StdioMode::Inherit,
        stderr: StdioMode::Inherit,
    };
    assert(launch.command.words() =~= seq!["warp-svc"@]);
    launch
}

/// How the proxy is started: listening on the configured port, with no
/// input, and with output streams that are shown only where the
/// configuration asks for it.
pub fn proxy_launch(args: &Args) -> (launch: Launch)
    ensures
        launch.command.words() == seq!["gost"@, "-L"@, listen_spec(args.listen_port)],
        launch.stdin == StdioMode::Discard,
        launch.stdout == proxy_output(*args),
        launch.stderr == proxy_output(*args),
{
    let output = if args.display_gost_logs == 1 {
        StdioMode::Inherit
    } else {
        StdioMode::Discard
    };
    let mut list: Vec<String> = Vec::new();
    list.push(String::from_str("-L"));
    list.push(listen_address(args.listen_port));
    let launch = Launch {
        command: CommandLine { program: String::from_str("gost"), args: list },
        stdin: StdioMode::Discard,
        stdout: output,
        stderr: output,
    };
    assert(launch.command.words() =~= seq!["gost"@, "-L"@, listen_spec(args.listen_port)]);
    launch
}

/// How `who` is started.
pub fn launch_of(who: Managed, args: &Args) -> (launch: Launch)
    ensures
        launch.stdin == StdioMode::Discard,
        who == Managed::Tunnel ==> launch.command.words() == seq!["warp-svc"@] && launch.stdout
            == StdioMode::Inherit && launch.stderr == StdioMode::Inherit,
        who == Managed::Proxy ==> launch.command.words() == seq![
            "gost"@,
            "-L"@,
            listen_spec(args.listen_port),
        ] && launch.stdout == proxy_output(*args) && launch.stderr == proxy_output(*args),
{
    match who {
        Managed::Tunnel => tunnel_launch(),
        Managed::Proxy => proxy_launch(args),
    }
}

/// The command that activates the tunnel: it accepts the terms of service
/// and connects.
pub fn activation_command() -> (command: CommandLine)
    ensures
        command.words() == seq!["warp-cli"@, "--accept-tos"@, "connect"@],
{
    let mut list: Vec<String> = Vec::new();
    list.push(String::from_str("--accept-tos"));
    list.push(String::from_str("connect"));
    let command = CommandLine { program: String::from_str("warp-cli"), args: list };
    assert(command.words() =~= seq!["warp-cli"@, "--accept-tos"@, "connect"@]);
    command
}

} // verus!
