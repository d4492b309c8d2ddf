//! The command lines of the client (`voidns`) and of the service binary, and
//! what each does with the service's reply.

use vstd::prelude::*;

use crate::net::{IntParseError, int_parse_error_text, parse_u16, u16_parse};
use crate::proto::{
    Command, CommandView, ConnState, Event, Status, StatusView, UpstreamSel, UpstreamView, opt_view,
};
use crate::text::{chars_of, extend_chars, str_is, string_of};

verus! {

/// Why an upstream spec on a command line was rejected.
#[derive(Debug, Clone, Copy, PartialEq, Eq, Structural)]
pub enum UpstreamArgError {
    /// No known provider name (or none at all) was given.
    MissingUpstream,
    MissingIp,
    MissingHostname,
    MissingPath,
    MissingPort,
    /// The port did not parse as a 16-bit number, for this reason.
    InvalidPort(IntParseError),
}

/// The upstream a command line names: a provider name, or `custom` followed
/// by the bootstrap IP, hostname, path and port.
pub open spec fn upstream_from_args(args: Seq<Seq<char>>) -> Result<UpstreamView, UpstreamArgError> {
    if args.len() == 0 {
        Err(UpstreamArgError::MissingUpstream)
    } else if args[0] == "cloudflare"@ {
        Ok(UpstreamView::Cloudflare)
    } else if args[0] == "google"@ {
        Ok(UpstreamView::Google)
    } else if args[0] == "quad9"@ {
        Ok(UpstreamView::Quad9)
    } else if args[0] == "voidns"@ {
        Ok(UpstreamView::Voidns)
    } else if args[0] == "custom"@ {
        if args.len() < 2 {
            Err(UpstreamArgError::MissingIp)
        } else if args.len() < 3 {
            Err(UpstreamArgError::MissingHostname)
        } else if args.len() < 4 {
            Err(UpstreamArgError::MissingPath)
        } else if args.len() < 5 {
            Err(UpstreamArgError::MissingPort)
        } else {
            match u16_parse(args[4]) {
                Ok(port) => Ok(
                    UpstreamView::Custom { ip: args[1], hostname: args[2], path: args[3], port },
                ),
                Err(e) => Err(UpstreamArgError::InvalidPort(e)),
            }
        }
    } else {
        Err(UpstreamArgError::MissingUpstream)
    }
}

/// The text of the command lines.
pub open spec fn args_view(args: Seq<String>) -> Seq<Seq<char>> {
    crate::text::strings_view(args)
}

/// Parses a command-line upstream spec into an [`UpstreamSel`].
pub fn parse_upstream(args: &[String]) -> (r: Result<UpstreamSel, UpstreamArgError>)
    ensures
        match r {
            Ok(u) => upstream_from_args(args_view(args@)) == Ok::<UpstreamView, UpstreamArgError>(u@),
            Err(e) => upstream_from_args(args_view(args@)) == Err::<UpstreamView, UpstreamArgError>(e),
        },
{
    let ghost a = args_view(args@);
    if args.len() == 0 {
        return Err(UpstreamArgError::MissingUpstream);
    }
    let first = args[0].as_str();
    proof {
        assert(a[0] == args@[0]@);
    }
    if str_is(first, "cloudflare") {
        Ok(UpstreamSel::Cloudflare)
    } else if str_is(first, "google") {
        Ok(UpstreamSel::Google)
    } else if str_is(first, "quad9") {
        Ok(UpstreamSel::Quad9)
    } else if str_is(first, "voidns") {
        Ok(UpstreamSel::Voidns)
    } else if str_is(first, "custom") {
        if args.len() < 2 {
            return Err(UpstreamArgError::MissingIp);
        }
        if args.len() < 3 {
            return Err(UpstreamArgError::MissingHostname);
        }
        if args.len() < 4 {
            return Err(UpstreamArgError::MissingPath);
        }
        if args.len() < 5 {
            return Err(UpstreamArgError::MissingPort);
        }
        proof {
            assert(a[1] == args@[1]@);
            assert(a[2] == args@[2]@);
            assert(a[3] == args@[3]@);
            assert(a[4] == args@[4]@);
        }
        match parse_u16(args[4].as_str()) {
            Ok(port) => Ok(
                UpstreamSel::Custom {
                    ip: args[1].clone(),
                    hostname: args[2].clone(),
                    path: args[3].clone(),
                    port,
                },
            ),
            Err(e) => Err(UpstreamArgError::InvalidPort(e)),
        }
    } else {
        Err(UpstreamArgError::MissingUpstream)
    }
}

/// The client's usage text.
pub open spec fn usage_text() -> Seq<char> {
    "usage:\n  voidns connect <cloudflare|google|quad9|voidns|custom <ip> <hostname> <path> <port>>\n  voidns disconnect\n  voidns status\n  voidns ping"@
}

/// The client's usage text.
pub fn usage() -> (r: String)
    ensures
        r@ == usage_text(),
{
    "usage:\n  voidns connect <cloudflare|google|quad9|voidns|custom <ip> <hostname> <path> <port>>\n  voidns disconnect\n  voidns status\n  voidns ping".to_owned()
}

/// The message of an upstream error of the client: what is missing or
/// invalid, and for a port the parser's reason after a colon.
pub open spec fn upstream_error_text(e: UpstreamArgError) -> Seq<char> {
    match e {
        UpstreamArgError::MissingUpstream => "connect: missing upstream\n\n"@ + usage_text(),
        UpstreamArgError::MissingIp => "custom: missing <ip>"@,
        UpstreamArgError::MissingHostname => "custom: missing <hostname>"@,
        UpstreamArgError::MissingPath => "custom: missing <path>"@,
        UpstreamArgError::MissingPort => "custom: missing <port>"@,
        UpstreamArgError::InvalidPort(p) => "custom: invalid <port>: "@ + int_parse_error_text(p),
    }
}

/// The message of an upstream error on the service's own command line.
pub open spec fn service_upstream_error_text(e: UpstreamArgError) -> Seq<char> {
    match e {
        UpstreamArgError::MissingUpstream => "usage: voidns-service connect <cloudflare|google|quad9|voidns|custom <ip> <hostname> <path> <port>>"@,
        _ => upstream_error_text(e),
    }
}

fn concat_owned(a: &str, b: &String) -> (r: String)
    ensures
        r@ == a@ + b@,
{
    crate::text::concat_str(a, b.as_str())
}

impl UpstreamArgError {
    /// The error's message as the client prints it.
    pub fn message(&self) -> (r: String)
        ensures
            r@ == upstream_error_text(*self),
    {
        match self {
            UpstreamArgError::MissingUpstream => concat_owned(
                "connect: missing upstream\n\n",
                &usage(),
            ),
            UpstreamArgError::MissingIp => "custom: missing <ip>".to_owned(),
            UpstreamArgError::MissingHostname => "custom: missing <hostname>".to_owned(),
            UpstreamArgError::MissingPath => "custom: missing <path>".to_owned(),
            UpstreamArgError::MissingPort => "custom: missing <port>".to_owned(),
            UpstreamArgError::InvalidPort(p) => concat_owned(
                "custom: invalid <port>: ",
                &p.message(),
            ),
        }
    }

    /// The error's message as the service binary prints it.
    pub fn service_message(&self) -> (r: String)
        ensures
            r@ == service_upstream_error_text(*self),
    {
        match self {
            UpstreamArgError::MissingUpstream => "usage: voidns-service connect <cloudflare|google|quad9|voidns|custom <ip> <hostname> <path> <port>>".to_owned(),
            _ => self.message(),
        }
    }
}

/// What the client was asked to do.
pub enum CliRequest {
    /// Send this command to the service.
    Send(Command),
    /// Print the usage text.
    Usage,
}

/// Why the client's command line was rejected.
pub enum CliError {
    UnknownCommand(String),
    Upstream(UpstreamArgError),
}

pub enum CliRequestView {
    Send(CommandView),
    Usage,
}

pub enum CliErrorView {
    UnknownCommand(Seq<char>),
    Upstream(UpstreamArgError),
}

pub open spec fn cli_error_view(e: CliError) -> CliErrorView {
    match e {
        CliError::UnknownCommand(s) => CliErrorView::UnknownCommand(s@),
        CliError::Upstream(u) => CliErrorView::Upstream(u),
    }
}

pub open spec fn cli_request_view(r: CliRequest) -> CliRequestView {
    match r {
        CliRequest::Send(c) => CliRequestView::Send(c@),
        CliRequest::Usage => CliRequestView::Usage,
    }
}

/// What the client's command line (program name first) asks for.
pub open spec fn cli_request_spec(args: Seq<Seq<char>>) -> Result<CliRequestView, CliErrorView> {
    if args.len() < 2 {
        Ok(CliRequestView::Usage)
    } else {
        let cmd = args[1];
        if cmd == "connect"@ {
            match upstream_from_args(args.skip(2)) {
                Ok(u) => Ok(CliRequestView::Send(CommandView::Connect { upstream: u })),
                Err(e) => Err(CliErrorView::Upstream(e)),
            }
        } else if cmd == "disconnect"@ {
            Ok(CliRequestView::Send(CommandView::Disconnect))
        } else if cmd == "status"@ {
            Ok(CliRequestView::Send(CommandView::GetStatus))
        } else if cmd == "ping"@ {
            Ok(CliRequestView::Send(CommandView::Ping))
        } else if cmd == "-h"@ || cmd == "--help"@ || cmd == "help"@ {
            Ok(CliRequestView::Usage)
        } else {
            Err(CliErrorView::UnknownCommand(cmd))
        }
    }
}

/// Parses the client's command line (program name first).
pub fn parse_cli_args(args: &Vec<String>) -> (r: Result<CliRequest, CliError>)
    ensures
        match r {
            Ok(q) => cli_request_spec(args_view(args@)) == Ok::<CliRequestView, CliErrorView>(
                cli_request_view(q),
            ),
            Err(e) => cli_request_spec(args_view(args@)) == Err::<CliRequestView, CliErrorView>(
                cli_error_view(e),
            ),
        },
{
    let ghost a = args_view(args@);
    if args.len() < 2 {
        return Ok(CliRequest::Usage);
    }
    let cmd = args[1].as_str();
    proof {
        assert(a[1] == args@[1]@);
    }
    if str_is(cmd, "connect") {
        let rest = args.as_slice().split_at(2).1;
        proof {
            assert(args_view(rest@) =~= a.skip(2));
        }
        match parse_upstream(rest) {
            Ok(u) => Ok(CliRequest::Send(Command::Connect { upstream: u })),
            Err(e) => Err(CliError::Upstream(e)),
        }
    } else if str_is(cmd, "disconnect") {
        Ok(CliRequest::Send(Command::Disconnect))
    } else if str_is(cmd, "status") {
        Ok(CliRequest::Send(Command::GetStatus))
    } else if str_is(cmd, "ping") {
        Ok(CliRequest::Send(Command::Ping))
    } else if str_is(cmd, "-h") || str_is(cmd, "--help") || str_is(cmd, "help") {
        Ok(CliRequest::Usage)
    } else {
        Err(CliError::UnknownCommand(args[1].clone()))
    }
}

/// The message of a rejected client command line.
pub open spec fn cli_error_text(e: CliErrorView) -> Seq<char> {
    match e {
        CliErrorView::UnknownCommand(c) => "unknown command `"@ + c + "`\n\n"@ + usage_text(),
        CliErrorView::Upstream(u) => upstream_error_text(u),
    }
}

impl CliError {
    /// The error's message.
    pub fn message(&self) -> (r: String)
        ensures
            r@ == cli_error_text(cli_error_view(*self)),
    {
        match self {
            CliError::UnknownCommand(c) => {
                let mut out = chars_of("unknown command `");
                let cv = chars_of(c.as_str());
                extend_chars(&mut out, &cv);
                let tail = chars_of("`\n\n");
                extend_chars(&mut out, &tail);
                let u = usage();
                let uv = chars_of(u.as_str());
                extend_chars(&mut out, &uv);
                string_of(&out)
            },
            CliError::Upstream(u) => u.message(),
        }
    }
}

/// The name `Debug` gives a connection state.
pub open spec fn state_name(s: ConnState) -> Seq<char> {
    match s {
        ConnState::Disconnected => "Disconnected"@,
        ConnState::Connecting => "Connecting"@,
        ConnState::Connected => "Connected"@,
        ConnState::Error => "Error"@,
    }
}

fn state_name_str(s: ConnState) -> (r: &'static str)
    ensures
        r@ == state_name(s),
{
    match s {
        ConnState::Disconnected => "Disconnected",
        ConnState::Connecting => "Connecting",
        ConnState::Connected => "Connected",
        ConnState::Error => "Error",
    }
}

/// An optional field as printed: its text, or `-`.
pub open spec fn or_dash(o: Option<Seq<char>>) -> Seq<char> {
    match o {
        Some(t) => t,
        None => "-"@,
    }
}

fn push_or_dash(out: &mut Vec<char>, o: &Option<String>)
    ensures
        final(out)@ == old(out)@ + or_dash(opt_view(*o)),
{
    match o {
        Some(t) => {
            let v = chars_of(t.as_str());
            extend_chars(out, &v);
        },
        None => {
            let v = chars_of("-");
            extend_chars(out, &v);
        },
    }
}

/// The one-line report of a status.
pub open spec fn status_line_text(s: StatusView) -> Seq<char> {
    "state="@ + state_name(s.state) + " upstream="@ + or_dash(s.upstream) + " listen="@ + or_dash(
        s.listen,
    ) + " error="@ + or_dash(s.error)
}

/// Formats `state=<state> upstream=<label> listen=<addr> error=<message>`,
/// with `-` for each absent field.
pub fn status_line(s: &Status) -> (r: String)
    ensures
        r@ == status_line_text(s@),
{
    let mut out = chars_of("state=");
    let name = chars_of(state_name_str(s.state));
    extend_chars(&mut out, &name);
    let a = chars_of(" upstream=");
    extend_chars(&mut out, &a);
    push_or_dash(&mut out, &s.upstream);
    let b = chars_of(" listen=");
    extend_chars(&mut out, &b);
    push_or_dash(&mut out, &s.listen);
    let c = chars_of(" error=");
    extend_chars(&mut out, &c);
    push_or_dash(&mut out, &s.error);
    string_of(&out)
}

/// What the client prints for a reply, and whether it exits successfully.
pub struct ReplyOutcome {
    pub stdout: Option<String>,
    pub stderr: Option<String>,
    pub success: bool,
}

/// Whether a status reply counts as a failure: an error, or a connect that
/// did not end connected.
pub open spec fn reply_failed(connecting: bool, s: StatusView) -> bool {
    s.state == ConnState::Error || (connecting && s.state != ConnState::Connected)
}

/// What the client does with the service's reply to `sent`: a status is
/// printed and fails on an error, or on a connect that did not end
/// connected; a pong prints `pong`; an error is printed to stderr and fails.
pub fn reply_outcome(sent: &Command, reply: &Event) -> (r: ReplyOutcome)
    ensures
        match reply {
            Event::Status(s) => opt_view(r.stdout) == Some(status_line_text(s@)) && r.stderr is None
                && r.success == !reply_failed(sent is Connect, s@),
            Event::Pong => opt_view(r.stdout) == Some("pong"@) && r.stderr is None && r.success,
            Event::Error { message } => r.stdout is None && opt_view(r.stderr) == Some(
                "error: "@ + message@,
            ) && !r.success,
        },
{
    let connecting = match sent {
        Command::Connect { .. } => true,
        _ => false,
    };
    match reply {
        Event::Status(s) => {
            let bad = s.state == ConnState::Error || (connecting && s.state != ConnState::Connected);
            ReplyOutcome { stdout: Some(status_line(s)), stderr: None, success: !bad }
        },
        Event::Pong => ReplyOutcome { stdout: Some("pong".to_owned()), stderr: None, success: true },
        Event::Error { message } => ReplyOutcome {
            stdout: None,
            stderr: Some(concat_owned("error: ", message)),
            success: false,
        },
    }
}

/// What the service binary was asked to do.
pub enum ServiceMode {
    Install,
    Uninstall,
    /// Send this command to the running daemon and report its reply.
    Control(Command),
    /// Run the daemon in the foreground (the default).
    Run,
}

pub enum ServiceModeView {
    Install,
    Uninstall,
    Control(CommandView),
    Run,
}

pub open spec fn service_mode_view(m: ServiceMode) -> ServiceModeView {
    match m {
        ServiceMode::Install => ServiceModeView::Install,
        ServiceMode::Uninstall => ServiceModeView::Uninstall,
        ServiceMode::Control(c) => ServiceModeView::Control(c@),
        ServiceMode::Run => ServiceModeView::Run,
    }
}

/// What the service's command line (program name first) asks for.
pub open spec fn service_mode_spec(args: Seq<Seq<char>>) -> Result<ServiceModeView, UpstreamArgError> {
    if args.len() < 2 {
        Ok(ServiceModeView::Run)
    } else {
        let cmd = args[1];
        if cmd == "install"@ {
            Ok(ServiceModeView::Install)
        } else if cmd == "uninstall"@ {
            Ok(ServiceModeView::Uninstall)
        } else if cmd == "connect"@ {
            match upstream_from_args(args.skip(2)) {
                Ok(u) => Ok(ServiceModeView::Control(CommandView::Connect { upstream: u })),
                Err(e) => Err(e),
            }
        } else if cmd == "disconnect"@ {
            Ok(ServiceModeView::Control(CommandView::Disconnect))
        } else if cmd == "status"@ {
            Ok(ServiceModeView::Control(CommandView::GetStatus))
        } else {
            Ok(ServiceModeView::Run)
        }
    }
}

/// Parses the service binary's command line (program name first).
pub fn parse_service_args(args: &Vec<String>) -> (r: Result<ServiceMode, UpstreamArgError>)
    ensures
        match r {
            Ok(m) => service_mode_spec(args_view(args@)) == Ok::<ServiceModeView, UpstreamArgError>(
                service_mode_view(m),
            ),
            Err(e) => service_mode_spec(args_view(args@)) == Err::<ServiceModeView, UpstreamArgError>(
                e,
            ),
        },
{
    let ghost a = args_view(args@);
    if args.len() < 2 {
        return Ok(ServiceMode::Run);
    }
    let cmd = args[1].as_str();
    proof {
        assert(a[1] == args@[1]@);
    }
    if str_is(cmd, "install") {
        Ok(ServiceMode::Install)
    } else if str_is(cmd, "uninstall") {
        Ok(ServiceMode::Uninstall)
    } else if str_is(cmd, "connect") {
        let rest = args.as_slice().split_at(2).1;
        proof {
            assert(args_view(rest@) =~= a.skip(2));
        }
        match parse_upstream(rest) {
            Ok(u) => Ok(ServiceMode::Control(Command::Connect { upstream: u })),
            Err(e) => Err(e),
        }
    } else if str_is(cmd, "disconnect") {
        Ok(ServiceMode::Control(Command::Disconnect))
    } else if str_is(cmd, "status") {
        Ok(ServiceMode::Control(Command::GetStatus))
    } else {
        Ok(ServiceMode::Run)
    }
}

/// A client's reading of a reply: a status, or the message to show.
pub open spec fn into_status_spec(reply: Result<Event, Seq<char>>) -> Result<StatusView, Seq<char>> {
    match reply {
        Ok(Event::Status(s)) => Ok(s@),
        Ok(Event::Error { message }) => Err(message@),
        Ok(_) => Err("unexpected reply from service"@),
        Err(e) => Err("voidns-service unreachable: "@ + e),
    }
}

/// Maps a service reply (or the reason none came) to a command result: a
/// status, or the message to show. `Event::Error` becomes `Err`.
pub fn into_status(reply: Result<Event, String>) -> (r: Result<Status, String>)
    ensures
        match reply {
            Ok(ev) => match r {
                Ok(s) => into_status_spec(Ok(ev)) == Ok::<StatusView, Seq<char>>(s@),
                Err(m) => into_status_spec(Ok(ev)) == Err::<StatusView, Seq<char>>(m@),
            },
            Err(e) => match r {
                Ok(_) => false,
                Err(m) => m@ == "voidns-service unreachable: "@ + e@,
            },
        },
{
    match reply {
        Ok(Event::Status(s)) => Ok(s),
        Ok(Event::Error { message }) => Err(message),
        Ok(_) => Err("unexpected reply from service".to_owned()),
        Err(e) => Err(concat_owned("voidns-service unreachable: ", &e)),
    }
}

/// The status an event carries, if it is a status update.
pub fn status_update(ev: Event) -> (r: Option<Status>)
    ensures
        match ev {
            Event::Status(s) => r matches Some(t) && t@ == s@,
            _ => r is None,
        },
{
    match ev {
        Event::Status(s) => Some(s),
        _ => None,
    }
}

/// Each provider name that the usage text offers selects its provider,
/// whatever follows it; `custom` with a bootstrap IP, hostname, path and a
/// port that parses selects exactly those; and anything else in first place
/// (or nothing) is a missing upstream.
pub proof fn law_provider_names_parse(args: Seq<Seq<char>>)
    ensures
        args.len() >= 1 && args[0] == "cloudflare"@ ==> upstream_from_args(args) == Ok::<
            UpstreamView,
            UpstreamArgError,
        >(UpstreamView::Cloudflare),
        args.len() >= 1 && args[0] == "google"@ ==> upstream_from_args(args) == Ok::<
            UpstreamView,
            UpstreamArgError,
        >(UpstreamView::Google),
        args.len() >= 1 && args[0] == "quad9"@ ==> upstream_from_args(args) == Ok::<
            UpstreamView,
            UpstreamArgError,
        >(UpstreamView::Quad9),
        args.len() >= 1 && args[0] == "voidns"@ ==> upstream_from_args(args) == Ok::<
            UpstreamView,
            UpstreamArgError,
        >(UpstreamView::Voidns),
        forall|p: u16|
            args.len() >= 5 && args[0] == "custom"@ && u16_parse(args[4]) == Ok::<u16, IntParseError>(
                p,
            ) ==> #[trigger] upstream_from_args(args) == Ok::<UpstreamView, UpstreamArgError>(
                UpstreamView::Custom { ip: args[1], hostname: args[2], path: args[3], port: p },
            ),
        args.len() == 0 || (args[0] != "cloudflare"@ && args[0] != "google"@ && args[0]
            != "quad9"@ && args[0] != "voidns"@ && args[0] != "custom"@) ==> upstream_from_args(args)
            == Err::<UpstreamView, UpstreamArgError>(UpstreamArgError::MissingUpstream),
{
    reveal_strlit("cloudflare");
    assert("cloudflare"@.len() == 10 && "cloudflare"@[0] == 'c');
    reveal_strlit("google");
    assert("google"@.len() == 6 && "google"@[0] == 'g');
    reveal_strlit("quad9");
    assert("quad9"@.len() == 5 && "quad9"@[0] == 'q');
    reveal_strlit("voidns");
    assert("voidns"@.len() == 6 && "voidns"@[0] == 'v');
    reveal_strlit("custom");
    assert("custom"@.len() == 6 && "custom"@[0] == 'c');
}

/// Each command word of the client's usage text is accepted and sent as its
/// command: `disconnect`, `status`, `ping`, and `connect` followed by an
/// upstream spec that parses; `connect` with one that does not is rejected
/// with the upstream's own error. A help word, or no command at all, asks for
/// the usage text.
pub proof fn law_cli_command_words(args: Seq<Seq<char>>)
    ensures
        args.len() < 2 ==> cli_request_spec(args) == Ok::<CliRequestView, CliErrorView>(
            CliRequestView::Usage,
        ),
        args.len() >= 2 && args[1] == "disconnect"@ ==> cli_request_spec(args) == Ok::<
            CliRequestView,
            CliErrorView,
        >(CliRequestView::Send(CommandView::Disconnect)),
        args.len() >= 2 && args[1] == "status"@ ==> cli_request_spec(args) == Ok::<
            CliRequestView,
            CliErrorView,
        >(CliRequestView::Send(CommandView::GetStatus)),
        args.len() >= 2 && args[1] == "ping"@ ==> cli_request_spec(args) == Ok::<
            CliRequestView,
            CliErrorView,
        >(CliRequestView::Send(CommandView::Ping)),
        args.len() >= 2 && args[1] == "connect"@ ==> match upstream_from_args(args.skip(2)) {
            Ok(u) => cli_request_spec(args) == Ok::<CliRequestView, CliErrorView>(
                CliRequestView::Send(CommandView::Connect { upstream: u }),
            ),
            Err(e) => cli_request_spec(args) == Err::<CliRequestView, CliErrorView>(
                CliErrorView::Upstream(e),
            ),
        },
        args.len() >= 3 && args[1] == "connect"@ && args[2] == "cloudflare"@ ==> cli_request_spec(
            args,
        ) == Ok::<CliRequestView, CliErrorView>(
            CliRequestView::Send(CommandView::Connect { upstream: UpstreamView::Cloudflare }),
        ),
        args.len() >= 2 && (args[1] == "help"@ || args[1] == "-h"@ || args[1] == "--help"@)
            ==> cli_request_spec(args) == Ok::<CliRequestView, CliErrorView>(CliRequestView::Usage),
        args.len() >= 2 && args[1] != "connect"@ && args[1] != "disconnect"@ && args[1]
            != "status"@ && args[1] != "ping"@ && args[1] != "help"@ && args[1] != "-h"@ && args[1]
            != "--help"@ ==> cli_request_spec(args) == Err::<CliRequestView, CliErrorView>(
            CliErrorView::UnknownCommand(args[1]),
        ),
{
    reveal_strlit("connect");
    assert("connect"@.len() == 7 && "connect"@[0] == 'c');
    reveal_strlit("disconnect");
    assert("disconnect"@.len() == 10 && "disconnect"@[0] == 'd');
    reveal_strlit("status");
    assert("status"@.len() == 6 && "status"@[0] == 's');
    reveal_strlit("ping");
    assert("ping"@.len() == 4 && "ping"@[0] == 'p');
    reveal_strlit("help");
    assert("help"@.len() == 4 && "help"@[0] == 'h');
    reveal_strlit("-h");
    assert("-h"@.len() == 2 && "-h"@[0] == '-');
    reveal_strlit("--help");
    assert("--help"@.len() == 6 && "--help"@[0] == '-');
    if args.len() >= 3 && args[1] == "connect"@ && args[2] == "cloudflare"@ {
        assert(args.skip(2)[0] == args[2]);
        law_provider_names_parse(args.skip(2));
    }
}

/// Each command word of the service binary is taken as its mode: `install`,
/// `uninstall`, and `disconnect`, `status` and `connect <upstream>` handed to
/// the running daemon; `connect` with an upstream spec that does not parse is
/// its error; no word, or any other word, runs the daemon.
pub proof fn law_service_command_words(args: Seq<Seq<char>>)
    ensures
        args.len() < 2 ==> service_mode_spec(args) == Ok::<ServiceModeView, UpstreamArgError>(
            ServiceModeView::Run,
        ),
        args.len() >= 2 && args[1] == "install"@ ==> service_mode_spec(args) == Ok::<
            ServiceModeView,
            UpstreamArgError,
        >(ServiceModeView::Install),
        args.len() >= 2 && args[1] == "uninstall"@ ==> service_mode_spec(args) == Ok::<
            ServiceModeView,
            UpstreamArgError,
        >(ServiceModeView::Uninstall),
        args.len() >= 2 && args[1] == "disconnect"@ ==> service_mode_spec(args) == Ok::<
            ServiceModeView,
            UpstreamArgError,
        >(ServiceModeView::Control(CommandView::Disconnect)),
        args.len() >= 2 && args[1] == "status"@ ==> service_mode_spec(args) == Ok::<
            ServiceModeView,
            UpstreamArgError,
        >(ServiceModeView::Control(CommandView::GetStatus)),
        args.len() >= 2 && args[1] == "connect"@ ==> match upstream_from_args(args.skip(2)) {
            Ok(u) => service_mode_spec(args) == Ok::<ServiceModeView, UpstreamArgError>(
                ServiceModeView::Control(CommandView::Connect { upstream: u }),
            ),
            Err(e) => service_mode_spec(args) == Err::<ServiceModeView, UpstreamArgError>(e),
        },
        args.len() >= 2 && args[1] != "install"@ && args[1] != "uninstall"@ && args[1]
            != "connect"@ && args[1] != "disconnect"@ && args[1] != "status"@ ==> service_mode_spec(
            args,
        ) == Ok::<ServiceModeView, UpstreamArgError>(ServiceModeView::Run),
{
    reveal_strlit("install");
    assert("install"@.len() == 7 && "install"@[0] == 'i');
    reveal_strlit("uninstall");
    assert("uninstall"@.len() == 9 && "uninstall"@[0] == 'u');
    reveal_strlit("connect");
    assert("connect"@.len() == 7 && "connect"@[0] == 'c');
    reveal_strlit("disconnect");
    assert("disconnect"@.len() == 10 && "disconnect"@[0] == 'd');
    reveal_strlit("status");
    assert("status"@.len() == 6 && "status"@[0] == 's');
}

/// A status reply whose state is `Error` is a failure whatever was sent; after
/// any command but `connect` a status reply fails exactly when its state is
/// `Error`; after `connect` it fails exactly when the state is not
/// `Connected`.
pub proof fn law_reply_failure(connecting: bool, s: StatusView)
    ensures
        s.state == ConnState::Error ==> reply_failed(connecting, s),
        !connecting ==> (reply_failed(connecting, s) <==> s.state == ConnState::Error),
        connecting ==> (reply_failed(connecting, s) <==> s.state != ConnState::Connected),
{
}

} // verus!
