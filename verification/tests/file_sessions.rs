use termix_local::error::ApiError;
use termix_local::file_sessions::{
    connect_file_session, file_connect, file_connect_reply, file_keepalive_reply, file_sftp,
    new_file_sessions, session_locked, sessions_locked, FileSessionConfig, FileSessions, SftpPlan,
};
use termix_local::json_text::print_json;
use termix_local::ssh::{ConnectStep, SshAuth};

fn config(auth_type: Option<&str>, key: Option<&str>, password: Option<&str>) -> FileSessionConfig {
    FileSessionConfig {
        session_id: Some("s1".to_string()),
        ip: "h".to_string(),
        port: 2222,
        username: "anna".to_string(),
        password: password.map(|text| text.to_string()),
        ssh_key: key.map(|text| text.to_string()),
        key_password: Some("kp".to_string()),
        auth_type: auth_type.map(|text| text.to_string()),
    }
}

fn refusal(error: ApiError) -> (u16, String) {
    (error.status, error.message)
}

#[test]
fn a_session_needs_a_number() {
    assert_eq!(file_connect(&config(None, None, None)).unwrap(), "s1");
    let mut without = config(None, None, None);
    without.session_id = None;
    assert_eq!(refusal(file_connect(&without).unwrap_err()), (400, "sessionId is required".to_string()));
    assert_eq!(without.address(), "h:2222");
}

#[test]
fn a_session_logs_in_by_key_or_password() {
    match config(Some("key"), Some("k"), None).auth().unwrap() {
        SshAuth::Key { key, passphrase } => {
            assert_eq!(key, "k");
            assert_eq!(passphrase, Some("kp".to_string()));
        }
        _ => panic!("another way"),
    }
    for auth_type in [None, Some("password"), Some("none"), Some("")] {
        match config(auth_type, Some("k"), Some("p")).auth().unwrap() {
            SshAuth::Password { password } => assert_eq!(password, "p"),
            _ => panic!("another way"),
        }
    }
    assert_eq!(config(Some("key"), Some(" \n"), Some("p")).auth().unwrap_err(), "SSH key is missing");
    assert_eq!(config(Some("key"), None, Some("p")).auth().unwrap_err(), "SSH key is missing");
    assert_eq!(config(None, Some("k"), Some("")).auth().unwrap_err(), "SSH password is missing");
    assert_eq!(config(None, Some("k"), None).auth().unwrap_err(), "SSH password is missing");
}

#[test]
fn a_session_is_connected_step_by_step() {
    let by_password = config(None, None, Some("p"));
    let mut step = ConnectStep::Tcp;
    let mut steps = vec![step];
    while step != ConnectStep::Ready {
        step = connect_file_session(&by_password, step, Ok(())).unwrap();
        steps.push(step);
    }
    assert_eq!(
        steps,
        [
            ConnectStep::Tcp,
            ConnectStep::Session,
            ConnectStep::Handshake,
            ConnectStep::PasswordAuth,
            ConnectStep::Authenticated,
            ConnectStep::Ready
        ]
    );
    let by_key = config(Some("key"), Some("k"), None);
    assert_eq!(
        connect_file_session(&by_key, ConnectStep::Handshake, Ok(())).unwrap(),
        ConnectStep::KeyAuth
    );
}

#[test]
fn a_session_can_fail_at_every_step() {
    let by_password = config(None, None, Some("p"));
    for (step, status, message) in [
        (ConnectStep::Tcp, 400, "TCP connection failed: e"),
        (ConnectStep::Session, 500, "SSH session failed: e"),
        (ConnectStep::Handshake, 400, "SSH handshake failed: e"),
        (ConnectStep::KeyAuth, 400, "SSH key authentication failed: e"),
        (ConnectStep::PasswordAuth, 400, "SSH password authentication failed: e"),
        (ConnectStep::Authenticated, 400, "SSH authentication failed"),
    ] {
        let error = connect_file_session(&by_password, step, Err("e".to_string())).unwrap_err();
        assert_eq!(refusal(error), (status, message.to_string()));
    }
    let error = connect_file_session(&config(None, None, None), ConnectStep::Handshake, Ok(())).unwrap_err();
    assert_eq!(refusal(error), (400, "SSH password is missing".to_string()));
}

#[test]
fn a_connected_session_is_told() {
    assert_eq!(
        print_json(&file_connect_reply("s1")),
        "{\"connected\":true,\"connectionLogs\":[{\"message\":\"SFTP connected\",\"stage\":\"ready\",\"type\":\"success\"}],\"sessionId\":\"s1\",\"success\":true}"
    );
}

#[test]
fn sessions_are_kept_by_number() {
    let mut sessions: FileSessions<u32> = new_file_sessions();
    assert_eq!(print_json(&sessions.file_status("s1")), "{\"connected\":false}");
    sessions.connect("s1".to_string(), config(None, None, Some("p")), 7);
    sessions.connect("s2".to_string(), config(None, None, Some("q")), 8);
    sessions.connect("s1".to_string(), config(None, None, Some("r")), 9);
    assert_eq!(print_json(&sessions.file_status("s1")), "{\"connected\":true}");
    let kept = sessions.file_session("s1").unwrap_or_else(|_| panic!("not kept"));
    assert_eq!(kept.session, 9);
    assert_eq!(kept.config.password, Some("r".to_string()));
    assert_eq!(print_json(&sessions.file_disconnect("s1")), "{\"connected\":false,\"success\":true}");
    assert_eq!(print_json(&sessions.file_disconnect("s1")), "{\"connected\":false,\"success\":true}");
    match sessions.file_session("s1") {
        Ok(_) => panic!("still kept"),
        Err(error) => assert_eq!(refusal(error), (400, "SSH connection not established".to_string())),
    }
    assert_eq!(sessions.file_session("s2").map(|kept| kept.session).unwrap_or(0), 8);
}

#[test]
fn sessions_that_are_logged_out_are_connected_anew() {
    assert_eq!(file_sftp(true), SftpPlan::Open);
    assert_eq!(file_sftp(false), SftpPlan::ReconnectAndOpen);
    assert_eq!(print_json(&file_keepalive_reply(Some(true))), "{\"connected\":true,\"success\":true}");
    assert_eq!(print_json(&file_keepalive_reply(Some(false))), "{\"connected\":false,\"success\":false}");
    assert_eq!(print_json(&file_keepalive_reply(None)), "{\"connected\":false,\"success\":false}");
    assert_eq!(refusal(sessions_locked()), (500, "File session lock poisoned".to_string()));
    assert_eq!(refusal(session_locked()), (500, "SSH session lock poisoned".to_string()));
}
