use voidns::cli::{
    into_status, parse_cli_args, parse_service_args, parse_upstream, reply_outcome, status_line,
    status_update, usage, CliError, CliRequest, ServiceMode, UpstreamArgError,
};
use voidns::controller::{ConnectStep, Controller};
use voidns::ipc::{decode_frame, encode_frame, frame_body_len, route_command, FrameRead, ServiceAction};
use voidns::net::{parse_u16, IntParseError};
use voidns::proto::{Command, ConnState, Event, Status, UpstreamSel, DEFAULT_PROXY_PORT};

fn args(v: &[&str]) -> Vec<String> {
    v.iter().map(|s| s.to_string()).collect()
}

#[test]
fn labels_of_upstreams() {
    assert_eq!(UpstreamSel::Voidns.label(), "voidns");
    assert_eq!(UpstreamSel::Cloudflare.label(), "Cloudflare");
    assert_eq!(UpstreamSel::Google.label(), "Google");
    assert_eq!(UpstreamSel::Quad9.label(), "Quad9");
    let c = UpstreamSel::Custom {
        ip: "9.9.9.9".into(),
        hostname: "dns.example".into(),
        path: "/q".into(),
        port: 8443,
    };
    assert_eq!(c.label(), "dns.example");
    assert_eq!(UpstreamSel::default(), UpstreamSel::Cloudflare);
    assert_eq!(DEFAULT_PROXY_PORT, 53);
}

#[test]
fn disconnected_status_is_empty() {
    let s = Status::disconnected();
    assert_eq!(s.state, ConnState::Disconnected);
    assert!(s.upstream.is_none() && s.listen.is_none() && s.error.is_none());
}

#[test]
fn parse_upstream_providers_and_custom() {
    assert_eq!(parse_upstream(&args(&["quad9"])), Ok(UpstreamSel::Quad9));
    assert_eq!(parse_upstream(&args(&["voidns"])), Ok(UpstreamSel::Voidns));
    assert_eq!(
        parse_upstream(&args(&["custom", "127.0.0.1", "localhost", "/dns-query", "+8443"])),
        Ok(UpstreamSel::Custom {
            ip: "127.0.0.1".into(),
            hostname: "localhost".into(),
            path: "/dns-query".into(),
            port: 8443
        })
    );
}

#[test]
fn parse_upstream_errors() {
    assert_eq!(parse_upstream(&args(&[])), Err(UpstreamArgError::MissingUpstream));
    assert_eq!(parse_upstream(&args(&["Cloudflare"])), Err(UpstreamArgError::MissingUpstream));
    assert_eq!(parse_upstream(&args(&["custom"])), Err(UpstreamArgError::MissingIp));
    assert_eq!(parse_upstream(&args(&["custom", "a", "b"])), Err(UpstreamArgError::MissingPath));
    assert_eq!(
        parse_upstream(&args(&["custom", "a", "b", "c", "70000"])),
        Err(UpstreamArgError::InvalidPort(IntParseError::PosOverflow))
    );
    let e = parse_upstream(&args(&["custom", "a", "b", "c", "x1"])).unwrap_err();
    assert_eq!(e.message(), "custom: invalid <port>: invalid digit found in string");
    assert_eq!(UpstreamArgError::MissingHostname.message(), "custom: missing <hostname>");
    assert!(UpstreamArgError::MissingUpstream.message().starts_with("connect: missing upstream\n\nusage:\n  voidns connect"));
    assert_eq!(
        UpstreamArgError::MissingUpstream.service_message(),
        "usage: voidns-service connect <cloudflare|google|quad9|voidns|custom <ip> <hostname> <path> <port>>"
    );
}

#[test]
fn port_parsing_matches_std() {
    for t in ["", "+", "0", "65535", "65536", "+12", "-1", "00080", "9x", "99999x", "１"] {
        let ours = parse_u16(t);
        let std_ = t.parse::<u16>();
        assert_eq!(ours.is_ok(), std_.is_ok(), "{t}");
        if let Ok(v) = ours {
            assert_eq!(v, std_.unwrap());
        }
    }
    assert_eq!(parse_u16(""), Err(IntParseError::Empty));
    assert_eq!(parse_u16("+"), Err(IntParseError::InvalidDigit));
    assert_eq!(parse_u16("99999x"), Err(IntParseError::PosOverflow));
    assert_eq!(IntParseError::PosOverflow.message(), "number too large to fit in target type");
}

#[test]
fn cli_arguments() {
    assert!(matches!(parse_cli_args(&args(&["voidns"])), Ok(CliRequest::Usage)));
    assert!(matches!(parse_cli_args(&args(&["voidns", "--help"])), Ok(CliRequest::Usage)));
    assert!(matches!(parse_cli_args(&args(&["voidns", "ping"])), Ok(CliRequest::Send(Command::Ping))));
    assert!(matches!(parse_cli_args(&args(&["voidns", "status"])), Ok(CliRequest::Send(Command::GetStatus))));
    assert!(matches!(
        parse_cli_args(&args(&["voidns", "connect", "google"])),
        Ok(CliRequest::Send(Command::Connect { upstream: UpstreamSel::Google }))
    ));
    match parse_cli_args(&args(&["voidns", "frob"])) {
        Err(e @ CliError::UnknownCommand(_)) => {
            assert_eq!(e.message(), format!("unknown command `frob`\n\n{}", usage()));
        }
        _ => panic!("expected an unknown command"),
    }
    assert!(matches!(
        parse_cli_args(&args(&["voidns", "connect"])),
        Err(CliError::Upstream(UpstreamArgError::MissingUpstream))
    ));
}

#[test]
fn service_arguments() {
    assert!(matches!(parse_service_args(&args(&["svc"])), Ok(ServiceMode::Run)));
    assert!(matches!(parse_service_args(&args(&["svc", "run"])), Ok(ServiceMode::Run)));
    assert!(matches!(parse_service_args(&args(&["svc", "install"])), Ok(ServiceMode::Install)));
    assert!(matches!(parse_service_args(&args(&["svc", "uninstall"])), Ok(ServiceMode::Uninstall)));
    assert!(matches!(
        parse_service_args(&args(&["svc", "disconnect"])),
        Ok(ServiceMode::Control(Command::Disconnect))
    ));
    assert!(matches!(
        parse_service_args(&args(&["svc", "connect", "custom", "1.2.3.4"])),
        Err(UpstreamArgError::MissingHostname)
    ));
}

#[test]
fn status_lines_and_exit_codes() {
    let s = Status { state: ConnState::Connected, upstream: Some("Quad9".into()), listen: Some("127.0.0.1:53".into()), error: None };
    assert_eq!(status_line(&s), "state=Connected upstream=Quad9 listen=127.0.0.1:53 error=-");
    let ok = reply_outcome(&Command::Connect { upstream: UpstreamSel::Quad9 }, &Event::Status(s.clone()));
    assert!(ok.success);
    let not_yet = reply_outcome(&Command::Connect { upstream: UpstreamSel::Quad9 }, &Event::Status(Status::disconnected()));
    assert!(!not_yet.success);
    assert_eq!(not_yet.stdout.as_deref(), Some("state=Disconnected upstream=- listen=- error=-"));
    assert!(reply_outcome(&Command::GetStatus, &Event::Status(Status::disconnected())).success);
    let pong = reply_outcome(&Command::Ping, &Event::Pong);
    assert_eq!(pong.stdout.as_deref(), Some("pong"));
    assert!(pong.success);
    let err = reply_outcome(&Command::GetStatus, &Event::Error { message: "boom".into() });
    assert_eq!(err.stderr.as_deref(), Some("error: boom"));
    assert!(!err.success);
}

#[test]
fn replies_to_results() {
    let s = into_status(Ok(Event::Status(Status::disconnected()))).unwrap();
    assert_eq!(s.state, ConnState::Disconnected);
    assert_eq!(into_status(Ok(Event::Error { message: "no".into() })).unwrap_err(), "no");
    assert_eq!(into_status(Ok(Event::Pong)).unwrap_err(), "unexpected reply from service");
    assert_eq!(into_status(Err("refused".into())).unwrap_err(), "voidns-service unreachable: refused");
    assert!(status_update(Event::Pong).is_none());
    assert!(status_update(Event::Status(Status::disconnected())).is_some());
}

#[test]
fn frames_roundtrip() {
    let body = br#"{"type":"ping"}"#.to_vec();
    let mut f = encode_frame(&body);
    assert_eq!(&f[..4], &[0, 0, 0, 15]);
    assert_eq!(frame_body_len([f[0], f[1], f[2], f[3]]), 15);
    f.extend_from_slice(b"tail");
    match decode_frame(&f) {
        FrameRead::Complete { body: b, consumed } => {
            assert_eq!(b, body);
            assert_eq!(consumed, 19);
        }
        FrameRead::Incomplete => panic!("expected a frame"),
    }
    assert!(matches!(decode_frame(&f[..10].to_vec()), FrameRead::Incomplete));
    assert!(matches!(decode_frame(&vec![0, 0]), FrameRead::Incomplete));
    assert_eq!(frame_body_len([1, 2, 3, 4]), 0x01020304);
}

#[test]
fn commands_route_to_actions() {
    assert!(matches!(route_command(Command::Ping), ServiceAction::ReplyPong));
    assert!(matches!(route_command(Command::GetStatus), ServiceAction::ReplyStatus));
    assert!(matches!(route_command(Command::Subscribe), ServiceAction::SubscribeAndReplyStatus));
    assert!(matches!(route_command(Command::Disconnect), ServiceAction::Disconnect));
    assert!(matches!(
        route_command(Command::Connect { upstream: UpstreamSel::Google }),
        ServiceAction::Connect(UpstreamSel::Google)
    ));
}

#[test]
fn controller_connect_success_and_noop() {
    let mut c = Controller::new(15353);
    assert_eq!(c.status().state, ConnState::Disconnected);
    let attempt = match c.begin_connect(&UpstreamSel::Quad9) {
        ConnectStep::Proceed { attempt, published, listen_port } => {
            assert_eq!(published.state, ConnState::Connecting);
            assert_eq!(published.upstream.as_deref(), Some("Quad9"));
            assert_eq!(listen_port, 15353);
            attempt
        }
        ConnectStep::Unchanged(_) => panic!("should proceed"),
    };
    // A second connect while connecting changes nothing.
    match c.begin_connect(&UpstreamSel::Google) {
        ConnectStep::Unchanged(s) => assert_eq!(s.upstream.as_deref(), Some("Quad9")),
        _ => panic!("should be unchanged"),
    }
    let s = c.connect_succeeded(attempt);
    assert_eq!(s.state, ConnState::Connected);
    assert_eq!(s.listen.as_deref(), Some("127.0.0.1:15353"));
    assert_eq!(s.upstream.as_deref(), Some("Quad9"));
    assert!(matches!(c.begin_connect(&UpstreamSel::Google), ConnectStep::Unchanged(_)));
    let d = c.disconnect();
    assert!(d.stop_proxy);
    assert_eq!(d.published.state, ConnState::Disconnected);
    let again = c.disconnect();
    assert!(!again.stop_proxy);
    assert_eq!(c.status().state, ConnState::Disconnected);
}

#[test]
fn controller_failure_then_retry() {
    let mut c = Controller::new(53);
    assert!(matches!(c.begin_connect(&UpstreamSel::Cloudflare), ConnectStep::Proceed { .. }));
    let s = c.connect_failed("bind UDP 127.0.0.1:53: permission denied".into());
    assert_eq!(s.state, ConnState::Error);
    assert_eq!(s.error.as_deref(), Some("bind UDP 127.0.0.1:53: permission denied"));
    assert!(s.upstream.is_none() && s.listen.is_none());
    assert!(matches!(c.begin_connect(&UpstreamSel::Cloudflare), ConnectStep::Proceed { .. }));
    assert_eq!(c.status().state, ConnState::Connecting);
    assert!(!c.disconnect().stop_proxy);
}
