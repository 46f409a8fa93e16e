use termix_local::credentials::CredentialAuth;
use termix_local::json::Json;
use termix_local::json_text::{parse_json, print_json};
use termix_local::ssh::{ConnectStep, SshAuth};
use termix_local::terminal::{
    connect_tcp, connect_terminal, failure_event, handle_terminal_message,
    invalid_connection_data, resize_command, resolve_failure, ConnectProgress, ResizeRequest,
    SocketAction, TcpStep, TerminalCommand, TerminalConnectData, TerminalHostConfig,
    TerminalMessage, MAX_PENDING_INPUT_BYTES,
};
use termix_local::terminal_loop::{data_event, LoopAction, LoopEvent, TerminalLoop};
use termix_local::terminal_socket::TerminalSocket;

fn message(name: &str, data: Option<&str>) -> Option<TerminalMessage> {
    Some(TerminalMessage {
        message_type: name.to_string(),
        data: data.map(|text| parse_json(text).unwrap()),
    })
}

fn host(auth_type: Option<&str>) -> TerminalHostConfig {
    TerminalHostConfig {
        ip: "h".to_string(),
        port: 22,
        username: "anna".to_string(),
        password: Some("p".to_string()),
        key: Some("k".to_string()),
        key_password: None,
        auth_type: auth_type.map(|text| text.to_string()),
        credential_id: None,
        user_id: Some("u1".to_string()),
    }
}

fn started(now: u64) -> TerminalLoop {
    match connect_terminal(&host(None), ConnectStep::Shell, Ok(()), now) {
        Ok(ConnectProgress::Running(_, terminal)) => terminal,
        other => panic!("not running: {:?}", other),
    }
}

fn sent(action: SocketAction) -> String {
    match action {
        SocketAction::Send(event) => print_json(&event),
        other => panic!("not sent: {:?}", other),
    }
}

#[test]
fn pings_are_answered() {
    assert_eq!(sent(handle_terminal_message(message("ping", None), false)), "{\"type\":\"pong\"}");
}

#[test]
fn broken_messages_are_refused() {
    assert_eq!(
        sent(handle_terminal_message(None, true)),
        "{\"message\":\"Invalid terminal message\",\"type\":\"error\"}"
    );
    assert_eq!(
        sent(handle_terminal_message(message("connectToHost", None), true)),
        "{\"message\":\"Missing connection data\",\"type\":\"error\"}"
    );
    assert_eq!(
        print_json(&invalid_connection_data()),
        "{\"message\":\"Invalid connection data\",\"type\":\"error\"}"
    );
}

#[test]
fn connections_are_asked_for() {
    for name in ["connectToHost", "reconnect_with_credentials"] {
        match handle_terminal_message(message(name, Some("{\"a\":1}")), false) {
            SocketAction::Connect(data) => assert_eq!(print_json(&data), "{\"a\":1}"),
            other => panic!("another action: {:?}", other),
        }
    }
}

#[test]
fn input_goes_to_the_terminal_only() {
    match handle_terminal_message(message("input", Some("\"ls\\n\"")), true) {
        SocketAction::Input(text) => assert_eq!(text, "ls\n"),
        other => panic!("another action: {:?}", other),
    }
    for (data, connected) in [(Some("\"ls\""), false), (Some("5"), true), (None, true)] {
        assert!(matches!(handle_terminal_message(message("input", data), connected), SocketAction::Ignore));
    }
}

#[test]
fn sizes_go_to_the_terminal_only() {
    assert!(matches!(handle_terminal_message(message("resize", Some("{}")), true), SocketAction::Resize(Json::Object(_))));
    assert!(matches!(handle_terminal_message(message("resize", Some("{}")), false), SocketAction::Ignore));
    assert!(matches!(handle_terminal_message(message("resize", None), true), SocketAction::Ignore));
    match resize_command(Some(ResizeRequest { cols: Some(100), rows: Some(30) })) {
        Some(TerminalCommand::Resize { cols, rows }) => assert_eq!((cols, rows), (100, 30)),
        _ => panic!("no size"),
    }
    assert!(resize_command(Some(ResizeRequest { cols: Some(100), rows: None })).is_none());
    assert!(resize_command(Some(ResizeRequest { cols: None, rows: Some(30) })).is_none());
    assert!(resize_command(None).is_none());
}

#[test]
fn clients_can_leave() {
    assert!(matches!(handle_terminal_message(message("disconnect", None), true), SocketAction::Close));
    assert!(matches!(handle_terminal_message(message("unheard", None), true), SocketAction::Ignore));
}

#[test]
fn terminals_have_a_size() {
    let data = TerminalConnectData { cols: None, rows: Some(50), host_config: host(None) };
    assert_eq!(data.pty_size(), (80, 50));
    let data = TerminalConnectData { cols: Some(1), rows: None, host_config: host(None) };
    assert_eq!(data.pty_size(), (1, 24));
}

#[test]
fn terminals_may_ask_the_agent() {
    assert!(matches!(host(Some("none")).auth(), Ok(SshAuth::Agent)));
    assert!(matches!(host(Some("key")).auth(), Ok(SshAuth::Key { .. })));
    assert!(matches!(host(None).auth(), Ok(SshAuth::Password { .. })));
    assert!(matches!(host(Some("credential")).auth(), Ok(SshAuth::Password { .. })));
    assert_eq!(host(None).address(), "h:22");
}

#[test]
fn credentials_are_looked_up_and_applied() {
    assert!(matches!(host(Some("password")).credential_command(), Ok(None)));
    assert!(matches!(host(None).credential_command(), Ok(None)));
    assert_eq!(host(Some("credential")).credential_command().unwrap_err(), "Credential is required");
    let mut with = host(Some("credential"));
    with.credential_id = Some(4);
    assert_eq!(
        format!("{:?}", with.credential_command().unwrap().unwrap()),
        "FindRecord { kind: Credential, id: 4, owner: Some(\"u1\") }"
    );
    with.apply_terminal_credential(CredentialAuth {
        username: None,
        password: None,
        key: Some("ck".to_string()),
        key_password: Some("ckp".to_string()),
        auth_type: "key".to_string(),
    });
    assert_eq!(with.username, "anna");
    assert_eq!(with.password, None);
    assert_eq!(with.key, Some("ck".to_string()));
    assert_eq!(with.key_password, Some("ckp".to_string()));
    assert_eq!(with.auth_type, Some("key".to_string()));
    with.apply_terminal_credential(CredentialAuth {
        username: Some("bert".to_string()),
        password: Some("cp".to_string()),
        key: None,
        key_password: None,
        auth_type: "password".to_string(),
    });
    assert_eq!(with.username, "bert");
    assert_eq!(with.ip, "h");
}

#[test]
fn every_address_is_tried() {
    assert!(matches!(connect_tcp(0, 2, None), TcpStep::Connect(0)));
    assert!(matches!(connect_tcp(1, 2, Some("refused")), TcpStep::Connect(1)));
    match connect_tcp(2, 2, Some("timed out")) {
        TcpStep::Failed(text) => assert_eq!(text, "TCP connection failed: timed out"),
        _ => panic!("not failed"),
    }
    match connect_tcp(0, 0, None) {
        TcpStep::Failed(text) => assert_eq!(text, "TCP connection failed: no resolved addresses"),
        _ => panic!("not failed"),
    }
    assert_eq!(resolve_failure("h:22", "unknown"), "Failed to resolve h:22: unknown");
}

#[test]
fn a_terminal_is_connected_step_by_step() {
    let mut steps = vec![ConnectStep::Tcp];
    let event = loop {
        match connect_terminal(&host(Some("none")), *steps.last().unwrap(), Ok(()), 0).unwrap() {
            ConnectProgress::Next(next) => steps.push(next),
            ConnectProgress::Running(event, terminal) => {
                assert!(terminal.pending().is_empty());
                break event;
            }
        }
    };
    assert_eq!(print_json(&event), "{\"message\":\"SSH connected\",\"type\":\"connected\"}");
    assert_eq!(
        steps,
        [
            ConnectStep::Tcp,
            ConnectStep::Session,
            ConnectStep::Handshake,
            ConnectStep::AgentAuth,
            ConnectStep::Authenticated,
            ConnectStep::Channel,
            ConnectStep::Pty,
            ConnectStep::Shell
        ]
    );
    assert!(matches!(
        connect_terminal(&host(None), ConnectStep::Ready, Ok(()), 0),
        Ok(ConnectProgress::Next(ConnectStep::Ready))
    ));
    for (step, message) in [
        (ConnectStep::Tcp, "e"),
        (ConnectStep::Session, "SSH session failed: e"),
        (ConnectStep::AgentAuth, "SSH agent authentication failed: e"),
        (ConnectStep::Authenticated, "SSH authentication failed"),
        (ConnectStep::Channel, "SSH channel failed: e"),
        (ConnectStep::Pty, "PTY request failed: e"),
        (ConnectStep::Shell, "Shell request failed: e"),
    ] {
        assert_eq!(connect_terminal(&host(None), step, Err("e".to_string()), 0).unwrap_err(), message);
    }
    let mut keyless = host(Some("key"));
    keyless.key = Some("  ".to_string());
    let error = connect_terminal(&keyless, ConnectStep::Handshake, Ok(()), 0).unwrap_err();
    assert_eq!(
        print_json(&failure_event(&error)),
        "{\"message\":\"Failed to connect to host: SSH key is missing\",\"type\":\"auth_method_not_available\"}"
    );
}

#[test]
fn failures_are_told() {
    assert_eq!(
        print_json(&failure_event("SSH password is missing")),
        "{\"message\":\"Failed to connect to host: SSH password is missing\",\"type\":\"auth_method_not_available\"}"
    );
    assert_eq!(
        print_json(&failure_event("boom")),
        "{\"message\":\"Failed to connect to host: boom\",\"type\":\"error\"}"
    );
    assert_eq!(print_json(&data_event("x")), "{\"data\":\"x\",\"type\":\"data\"}");
}

fn input(text: &str) -> LoopEvent {
    LoopEvent::Received(TerminalCommand::Input(text.to_string()))
}

#[test]
fn input_is_written_whole_and_in_order() {
    let mut terminal = started(0);
    let mut written: Vec<u8> = Vec::new();
    assert!(matches!(terminal.step(input("hello ")), Ok(LoopAction::Receive)));
    assert!(matches!(terminal.step(input("w\u{f6}rld")), Ok(LoopAction::Receive)));
    assert!(matches!(terminal.step(LoopEvent::NoCommand), Ok(LoopAction::Write)));
    for n in [4usize, 0, 3, 5] {
        written.extend_from_slice(&terminal.pending()[..n]);
        let done = n == terminal.pending().len();
        let next = terminal.step(LoopEvent::Wrote(n)).unwrap();
        if n == 0 || done {
            assert!(matches!(next, LoopAction::Read));
        } else {
            assert!(matches!(next, LoopAction::Write));
        }
    }
    assert_eq!(written, "hello w\u{f6}rld".as_bytes());
    assert!(terminal.pending().is_empty());
    assert!(matches!(terminal.step(LoopEvent::NoCommand), Ok(LoopAction::Read)));
}

#[test]
fn a_full_terminal_fails() {
    let mut terminal = started(0);
    let most = "x".repeat(MAX_PENDING_INPUT_BYTES);
    assert!(terminal.step(input(&most)).is_ok());
    assert!(terminal.step(input("")).is_ok());
    assert_eq!(terminal.step(input("y")).unwrap_err(), "SSH input buffer is full");
    assert_eq!(terminal.pending().len(), MAX_PENDING_INPUT_BYTES);
    assert!(started(0).step(input(&format!("{}y", most))).is_err());
}

#[test]
fn sizes_are_handed_on() {
    let mut terminal = started(0);
    let resize = LoopEvent::Received(TerminalCommand::Resize { cols: 90, rows: 40 });
    assert!(matches!(terminal.step(resize), Ok(LoopAction::Resize { cols: 90, rows: 40 })));
    assert!(matches!(terminal.step(LoopEvent::Resized(Ok(()))), Ok(LoopAction::Receive)));
    assert_eq!(terminal.step(LoopEvent::Resized(Err("e".to_string()))).unwrap_err(), "PTY resize failed: e");
}

#[test]
fn output_is_passed_on() {
    let mut terminal = started(0);
    match terminal.step(LoopEvent::Output(b"a\xffb".to_vec())).unwrap() {
        LoopAction::Emit(event) => assert_eq!(print_json(&event), "{\"data\":\"a\u{fffd}b\",\"type\":\"data\"}"),
        other => panic!("another action: {:?}", other),
    }
    assert!(matches!(terminal.step(LoopEvent::Emitted), Ok(LoopAction::ReadClock)));
    assert!(matches!(terminal.step(LoopEvent::NoOutput { eof: false }), Ok(LoopAction::ReadClock)));
    assert!(matches!(terminal.step(LoopEvent::ReadBlocked), Ok(LoopAction::ReadClock)));
    match terminal.step(LoopEvent::NoOutput { eof: true }).unwrap() {
        LoopAction::EmitLast(event) => assert_eq!(print_json(&event), "{\"type\":\"session_ended\"}"),
        other => panic!("another action: {:?}", other),
    }
}

#[test]
fn a_terminal_fails_for_a_reason() {
    let mut terminal = started(0);
    assert_eq!(terminal.step(LoopEvent::WriteFailed("e".to_string())).unwrap_err(), "SSH write failed: e");
    assert_eq!(terminal.step(LoopEvent::ReadFailed("e".to_string())).unwrap_err(), "SSH read failed: e");
    assert_eq!(terminal.step(LoopEvent::KeepaliveFailed("e".to_string())).unwrap_err(), "SSH keepalive failed: e");
    assert!(matches!(terminal.step(LoopEvent::ClientGone), Ok(LoopAction::Close)));
    assert!(matches!(terminal.step(LoopEvent::WriteBlocked), Ok(LoopAction::Read)));
    assert!(matches!(terminal.step(LoopEvent::Rested), Ok(LoopAction::Receive)));
}

#[test]
fn connections_are_kept_alive() {
    let mut terminal = started(100);
    assert!(matches!(terminal.step(LoopEvent::Clock(10099)), Ok(LoopAction::Rest)));
    assert!(matches!(terminal.step(LoopEvent::Clock(10100)), Ok(LoopAction::SendKeepalive)));
    for (seconds, wait) in [(0, 10000), (3, 3000), (10, 10000), (60, 10000)] {
        assert!(matches!(terminal.step(LoopEvent::KeptAlive { seconds, now: 20000 }), Ok(LoopAction::Rest)));
        assert!(matches!(terminal.step(LoopEvent::Clock(20000 + wait - 1)), Ok(LoopAction::Rest)));
        assert!(matches!(terminal.step(LoopEvent::Clock(20000 + wait)), Ok(LoopAction::SendKeepalive)));
    }
    assert!(matches!(terminal.step(LoopEvent::KeepaliveBlocked { now: 50000 }), Ok(LoopAction::Rest)));
    assert!(matches!(terminal.step(LoopEvent::Clock(50249)), Ok(LoopAction::Rest)));
    assert!(matches!(terminal.step(LoopEvent::Clock(50250)), Ok(LoopAction::SendKeepalive)));
}

#[test]
fn connected_output_and_end_come_in_order() {
    let mut told: Vec<String> = Vec::new();
    let mut terminal = match connect_terminal(&host(None), ConnectStep::Shell, Ok(()), 0).unwrap() {
        ConnectProgress::Running(event, terminal) => {
            told.push(print_json(&event));
            terminal
        }
        other => panic!("not running: {:?}", other),
    };
    let events = [
        LoopEvent::NoCommand,
        LoopEvent::Output(b"one".to_vec()),
        LoopEvent::Emitted,
        LoopEvent::Clock(5),
        LoopEvent::Rested,
        LoopEvent::Output(b"two".to_vec()),
        LoopEvent::NoOutput { eof: false },
        LoopEvent::NoOutput { eof: true },
    ];
    for event in events {
        match terminal.step(event).unwrap() {
            LoopAction::Emit(event) | LoopAction::EmitLast(event) => told.push(print_json(&event)),
            _ => {}
        }
    }
    assert_eq!(
        told,
        [
            "{\"message\":\"SSH connected\",\"type\":\"connected\"}",
            "{\"data\":\"one\",\"type\":\"data\"}",
            "{\"data\":\"two\",\"type\":\"data\"}",
            "{\"type\":\"session_ended\"}"
        ]
    );
}

#[test]
fn a_new_terminal_takes_the_place_of_the_old() {
    let data = |ip: &str| {
        let mut config = host(None);
        config.ip = ip.to_string();
        Some(TerminalConnectData { cols: None, rows: None, host_config: config })
    };
    let mut socket: TerminalSocket<String> = TerminalSocket::new();
    assert!(socket.terminal().is_none());
    assert!(socket.terminal_mut().is_none());
    assert!(matches!(socket.handle(message("input", Some("\"x\""))), SocketAction::Ignore));
    assert!(socket.connect(data("a"), |data| data.host_config.ip).is_none());
    assert_eq!(socket.terminal(), Some(&"a".to_string()));
    assert!(matches!(socket.handle(message("input", Some("\"x\""))), SocketAction::Input(_)));
    let refusal = socket.connect(None, |_| "never".to_string()).unwrap();
    assert_eq!(print_json(&refusal), "{\"message\":\"Invalid connection data\",\"type\":\"error\"}");
    assert_eq!(socket.terminal(), Some(&"a".to_string()));
    assert!(socket.connect(data("b"), |data| data.host_config.ip).is_none());
    assert_eq!(socket.terminal(), Some(&"b".to_string()));
    socket.terminal_mut().unwrap().push('!');
    assert_eq!(socket.terminal(), Some(&"b!".to_string()));
}
