use tcpfwd::config::{Config, IpAddress, SocketAddress, keepalive_interval};
use tcpfwd::copy::{run_copy, ReadEvent};
use tcpfwd::gate::AdmissionGate;
use tcpfwd::listener::{
    completion_log, connected_line, disconnected_error_line, disconnected_line, exit_code,
    peer_label, shutdown_log, LogLevel,
};
use tcpfwd::options::{option_failure_logs, option_plan, OptionPlan};
use tcpfwd::render::{decimal_u64, hexadecimal_u16, render_socket_address, starting_line};
use tcpfwd::session::{
    run_session, start, step, teardown_count, CopyOutcome, Direction, SessionAction, SessionEvent,
    SessionResult, SessionState,
};

fn local_config(nodelay: bool, keepalive_secs: u64) -> Config {
    Config {
        source: SocketAddress { ip: IpAddress::V4(127, 0, 0, 1), port: 9000 },
        dest: SocketAddress { ip: IpAddress::V4(127, 0, 0, 1), port: 9001 },
        nodelay,
        keepalive_secs,
    }
}

#[test]
fn keepalive_zero_is_disabled() {
    assert_eq!(keepalive_interval(0), None);
}

#[test]
fn keepalive_nonzero_is_that_interval() {
    assert_eq!(keepalive_interval(30), Some(30));
    assert_eq!(keepalive_interval(1), Some(1));
    assert_eq!(keepalive_interval(u64::MAX), Some(u64::MAX));
}

#[test]
fn option_plan_nodelay_with_keepalive_off() {
    let cfg = local_config(true, 0);
    let plan = option_plan(&cfg);
    assert_eq!(plan, OptionPlan { keepalive: None, nodelay: true });
}

#[test]
fn option_plan_default_keepalive() {
    let cfg = local_config(false, 30);
    let plan = option_plan(&cfg);
    assert_eq!(plan, OptionPlan { keepalive: Some(30), nodelay: false });
}

#[test]
fn option_failures_are_only_logged() {
    let logs = option_failure_logs(Ok(()), Ok(()));
    assert!(logs.is_empty());
    let logs = option_failure_logs(Err("bad keepalive".to_string()), Ok(()));
    assert_eq!(logs, vec!["bad keepalive".to_string()]);
    let logs = option_failure_logs(
        Err("bad keepalive".to_string()),
        Err("bad nodelay".to_string()),
    );
    assert_eq!(logs, vec!["bad keepalive".to_string(), "bad nodelay".to_string()]);
}

#[test]
fn session_applies_same_plan_to_both_sockets() {
    let cfg = local_config(true, 0);
    let plan = option_plan(&cfg);
    let events = vec![
        SessionEvent::InboundOptionsApplied,
        SessionEvent::ConnectSucceeded,
        SessionEvent::OutboundOptionsApplied,
        SessionEvent::CopyFinished(Direction::Upstream, CopyOutcome::Eof),
    ];
    let (state, actions) = run_session(&cfg, &events);
    assert_eq!(state, SessionState::Closed(SessionResult::Clean));
    assert_eq!(
        actions,
        vec![
            SessionAction::ApplyInboundOptions(plan),
            SessionAction::Connect(cfg.dest),
            SessionAction::ApplyOutboundOptions(plan),
            SessionAction::StartCopies,
            SessionAction::Teardown,
        ]
    );
}

#[test]
fn connect_failure_closes_with_exactly_one_error() {
    let cfg = local_config(false, 30);
    let events = vec![
        SessionEvent::InboundOptionsApplied,
        SessionEvent::ConnectFailed("connection refused".to_string()),
        // Anything arriving after the session is decided is ignored.
        SessionEvent::CopyFinished(Direction::Downstream, CopyOutcome::Eof),
    ];
    let (state, actions) = run_session(&cfg, &events);
    assert_eq!(
        state,
        SessionState::Closed(SessionResult::Error("connection refused".to_string()))
    );
    assert_eq!(
        actions,
        vec![
            SessionAction::ApplyInboundOptions(option_plan(&cfg)),
            SessionAction::Connect(cfg.dest),
            SessionAction::Teardown,
            SessionAction::Ignore,
        ]
    );
    // The one completion log line is the erroneous one.
    let (line, level) = completion_log(
        match &state {
            SessionState::Closed(r) => r,
            _ => unreachable!(),
        },
        "10.0.0.7:4242",
    );
    assert_eq!(line, "Disconnected with error: connection refused (10.0.0.7:4242)");
    assert_eq!(level, LogLevel::Severe);
}

#[test]
fn client_close_ends_the_session() {
    let cfg = local_config(false, 30);
    // The client closed the inbound connection: the upstream copy reports
    // end of stream, and the session tears everything down in that step.
    let (s1, a1) = step(
        &cfg,
        SessionState::Relaying,
        SessionEvent::CopyFinished(Direction::Upstream, CopyOutcome::Eof),
    );
    assert_eq!(s1, SessionState::Closed(SessionResult::Clean));
    assert_eq!(a1, SessionAction::Teardown);
    // The abandoned downstream direction cannot change the result.
    let (s2, a2) = step(
        &cfg,
        s1,
        SessionEvent::CopyFinished(
            Direction::Downstream,
            CopyOutcome::Failed("broken pipe".to_string()),
        ),
    );
    assert_eq!(s2, SessionState::Closed(SessionResult::Clean));
    assert_eq!(a2, SessionAction::Ignore);
}

#[test]
fn first_error_decides_the_session() {
    let cfg = local_config(false, 30);
    let (s1, a1) = step(
        &cfg,
        SessionState::Relaying,
        SessionEvent::CopyFinished(
            Direction::Downstream,
            CopyOutcome::Failed("connection reset".to_string()),
        ),
    );
    assert_eq!(
        s1,
        SessionState::Closed(SessionResult::Error("connection reset".to_string()))
    );
    assert_eq!(a1, SessionAction::Teardown);
}

#[test]
fn session_start_applies_inbound_options() {
    let cfg = local_config(true, 7);
    let (state, action) = start(&cfg);
    assert_eq!(state, SessionState::SettingInboundOptions);
    assert_eq!(
        action,
        SessionAction::ApplyInboundOptions(OptionPlan { keepalive: Some(7), nodelay: true })
    );
}

#[test]
fn copy_is_byte_transparent_and_ordered() {
    let reads = vec![
        ReadEvent::Data(b"hel".to_vec()),
        ReadEvent::Data(b"lo ".to_vec()),
        ReadEvent::Data(b"world".to_vec()),
        ReadEvent::Eof,
    ];
    let (delivered, end) = run_copy(&reads);
    assert_eq!(delivered, b"hello world".to_vec());
    assert_eq!(end, Some(CopyOutcome::Eof));
}

#[test]
fn copy_stops_at_the_first_error() {
    let reads = vec![
        ReadEvent::Data(b"abc".to_vec()),
        ReadEvent::ReadError("connection reset".to_string()),
        ReadEvent::Data(b"zzz".to_vec()),
    ];
    let (delivered, end) = run_copy(&reads);
    assert_eq!(delivered, b"abc".to_vec());
    assert_eq!(end, Some(CopyOutcome::Failed("connection reset".to_string())));
}

#[test]
fn copy_with_open_stream_has_no_outcome_yet() {
    let reads = vec![ReadEvent::Data(b"partial".to_vec())];
    let (delivered, end) = run_copy(&reads);
    assert_eq!(delivered, b"partial".to_vec());
    assert_eq!(end, None);
}

#[test]
fn copy_of_empty_trace_delivers_nothing() {
    let (delivered, end) = run_copy(&Vec::new());
    assert!(delivered.is_empty());
    assert_eq!(end, None);
}

#[test]
fn concurrent_sessions_do_not_cross_talk() {
    // Two sessions with different traffic: each delivers exactly its own
    // bytes, whatever the other carries.
    let session_a = vec![ReadEvent::Data(b"AAAA".to_vec()), ReadEvent::Eof];
    let session_b = vec![ReadEvent::Data(b"BB".to_vec()), ReadEvent::Eof];
    let (out_a, _) = run_copy(&session_a);
    let (out_b, _) = run_copy(&session_b);
    assert_eq!(out_a, b"AAAA".to_vec());
    assert_eq!(out_b, b"BB".to_vec());
}

#[test]
fn echo_round_trip() {
    // source=127.0.0.1:9000, destination=127.0.0.1:9001, an echo listener
    // on the destination. The client sends "ping"; the upstream direction
    // carries it to the echo, the downstream direction carries it back.
    let cfg = local_config(false, 30);
    assert_eq!(cfg.source, SocketAddress { ip: IpAddress::V4(127, 0, 0, 1), port: 9000 });
    assert_eq!(cfg.dest, SocketAddress { ip: IpAddress::V4(127, 0, 0, 1), port: 9001 });

    let upstream = vec![ReadEvent::Data(b"ping".to_vec())];
    let (to_echo, _) = run_copy(&upstream);
    assert_eq!(to_echo, b"ping".to_vec());

    // The echo sends the same bytes back.
    let downstream = vec![ReadEvent::Data(to_echo)];
    let (back_to_client, _) = run_copy(&downstream);
    assert_eq!(back_to_client, b"ping".to_vec());

    // Closing the client socket ends the stream: the session closes and
    // tears the destination-side connection down at once.
    let events = vec![
        SessionEvent::InboundOptionsApplied,
        SessionEvent::ConnectSucceeded,
        SessionEvent::OutboundOptionsApplied,
        SessionEvent::CopyFinished(Direction::Upstream, CopyOutcome::Eof),
    ];
    let (state, actions) = run_session(&cfg, &events);
    assert_eq!(state, SessionState::Closed(SessionResult::Clean));
    assert_eq!(actions.last(), Some(&SessionAction::Teardown));
}

#[test]
fn peer_label_prefers_the_address() {
    assert_eq!(peer_label(Some("192.0.2.1:55000".to_string())), "192.0.2.1:55000");
    assert_eq!(peer_label(None), "<unknown>");
}

#[test]
fn log_lines_match_the_events() {
    assert_eq!(connected_line("192.0.2.1:55000"), "Connected (192.0.2.1:55000)");
    assert_eq!(disconnected_line("192.0.2.1:55000"), "Disconnected (192.0.2.1:55000)");
    assert_eq!(
        disconnected_error_line("broken pipe", "192.0.2.1:55000"),
        "Disconnected with error: broken pipe (192.0.2.1:55000)"
    );
}

#[test]
fn completion_log_levels() {
    let (line, level) = completion_log(&SessionResult::Clean, "a:1");
    assert_eq!(line, "Disconnected (a:1)");
    assert_eq!(level, LogLevel::Info);
}

#[test]
fn shutdown_logs_and_exit_codes() {
    let (line, level) = shutdown_log(None);
    assert_eq!(line, "Shutdown");
    assert_eq!(level, LogLevel::Info);
    let (line, level) = shutdown_log(Some("address in use".to_string()));
    assert_eq!(line, "Shutdown with error: address in use");
    assert_eq!(level, LogLevel::Severe);
    assert_eq!(exit_code(true), 1);
    assert_eq!(exit_code(false), 0);
}

#[test]
fn teardown_happens_exactly_once_per_closed_session() {
    let cfg = local_config(false, 30);
    let closed = vec![
        SessionEvent::InboundOptionsApplied,
        SessionEvent::ConnectFailed("host unreachable".to_string()),
        SessionEvent::CopyFinished(Direction::Upstream, CopyOutcome::Eof),
        SessionEvent::ConnectSucceeded,
    ];
    let (_, actions) = run_session(&cfg, &closed);
    assert_eq!(teardown_count(&actions), 1);

    let open = vec![SessionEvent::InboundOptionsApplied, SessionEvent::ConnectSucceeded];
    let (_, actions) = run_session(&cfg, &open);
    assert_eq!(teardown_count(&actions), 0);
}

#[test]
fn admission_gate_defaults_to_unbounded() {
    let mut gate = AdmissionGate::new(None);
    for i in 0..1000 {
        assert!(gate.try_admit());
        assert_eq!(gate.active, i + 1);
    }
}

#[test]
fn admission_gate_honours_its_ceiling() {
    let mut gate = AdmissionGate::new(Some(2));
    assert!(gate.try_admit());
    assert!(gate.try_admit());
    assert!(!gate.try_admit());
    assert_eq!(gate.active, 2);
    gate.release();
    assert_eq!(gate.active, 1);
    assert!(gate.try_admit());
    assert!(!gate.try_admit());
}

#[test]
fn decimal_rendering_is_exact() {
    assert_eq!(decimal_u64(0), "0");
    assert_eq!(decimal_u64(7), "7");
    assert_eq!(decimal_u64(10), "10");
    assert_eq!(decimal_u64(255), "255");
    assert_eq!(decimal_u64(65535), "65535");
    assert_eq!(decimal_u64(u64::MAX), "18446744073709551615");
}

#[test]
fn hexadecimal_rendering_is_exact() {
    assert_eq!(hexadecimal_u16(0), "0");
    assert_eq!(hexadecimal_u16(10), "a");
    assert_eq!(hexadecimal_u16(0x1f), "1f");
    assert_eq!(hexadecimal_u16(0xffff), "ffff");
}

#[test]
fn socket_addresses_render_like_the_logs_show_them() {
    let v4 = SocketAddress { ip: IpAddress::V4(127, 0, 0, 1), port: 9000 };
    assert_eq!(render_socket_address(&v4), "127.0.0.1:9000");
    let v6 = SocketAddress { ip: IpAddress::V6(0, 0, 0, 0, 0, 0, 0, 1), port: 443 };
    assert_eq!(render_socket_address(&v6), "[0:0:0:0:0:0:0:1]:443");
    let v6full = SocketAddress {
        ip: IpAddress::V6(0x2001, 0xdb8, 0, 0, 0, 0xff00, 0x42, 0x8329),
        port: 65535,
    };
    assert_eq!(render_socket_address(&v6full), "[2001:db8:0:0:0:ff00:42:8329]:65535");
}

#[test]
fn starting_line_shows_the_effective_configuration() {
    let cfg = local_config(true, 0);
    assert_eq!(
        starting_line(&cfg),
        "Starting: 127.0.0.1:9000 -> 127.0.0.1:9001, nodelay=true, keepalive=0s"
    );
    let cfg = local_config(false, 30);
    assert_eq!(
        starting_line(&cfg),
        "Starting: 127.0.0.1:9000 -> 127.0.0.1:9001, nodelay=false, keepalive=30s"
    );
}
