use termix_local::desktop::{
    get_embedded_server_status, shell_failure, test_server_connection, CommandResult, ProbeAnswer,
    ShellStep, TestStep,
};
use termix_local::json::Json;
use termix_local::json_text::print_json;
use termix_local::replies::{
    alerts, dashboard_preferences, empty_array, empty_topology, fallback, false_allowed,
    guacamole_settings, health, log_level, metrics_not_found, metrics_skipped, not_found,
    ok_response, session_timeout, true_allowed, uptime, version,
};

fn asked(step: TestStep) -> String {
    match step {
        TestStep::Ask(url) => url,
        TestStep::Done(result) => panic!("done: {:?}", result),
    }
}

fn done(step: TestStep) -> (bool, Option<String>) {
    match step {
        TestStep::Ask(url) => panic!("asks {}", url),
        TestStep::Done(CommandResult { success, error }) => (success, error),
    }
}

#[test]
fn a_server_is_asked_for_its_health_first() {
    assert_eq!(asked(test_server_connection("http://h:1//", &vec![])), "http://h:1/health");
    assert_eq!(asked(test_server_connection("", &vec![])), "/health");
    assert_eq!(done(test_server_connection("http://h", &vec![ProbeAnswer::Success])), (true, None));
}

#[test]
fn a_server_is_asked_for_its_version_next() {
    for first in [ProbeAnswer::Status("404 Not Found".to_string()), ProbeAnswer::Failed("refused".to_string())] {
        assert_eq!(asked(test_server_connection("http://h", &vec![first])), "http://h/version");
    }
    let first = || ProbeAnswer::Failed("refused".to_string());
    assert_eq!(done(test_server_connection("http://h", &vec![first(), ProbeAnswer::Success])), (true, None));
    assert_eq!(
        done(test_server_connection("http://h", &vec![first(), ProbeAnswer::Status("500 Internal Server Error".to_string())])),
        (false, Some("Server returned 500 Internal Server Error".to_string()))
    );
    assert_eq!(
        done(test_server_connection("http://h", &vec![first(), ProbeAnswer::Failed("timed out".to_string())])),
        (false, Some("timed out".to_string()))
    );
}

#[test]
fn there_is_no_embedded_server() {
    let status = get_embedded_server_status(Some("/data".to_string()));
    assert!(!status.running);
    assert!(!status.embedded);
    assert_eq!(status.data_dir, Some("/data".to_string()));
}

#[test]
fn failures_of_the_shell_are_told() {
    for (step, message) in [
        (ShellStep::ResolveDataDir, "Failed to resolve app data directory: e"),
        (ShellStep::CreateDataDir, "Failed to create app data directory: e"),
        (ShellStep::ReadConfig, "Failed to read server config: e"),
        (ShellStep::ParseConfig, "Failed to parse server config: e"),
        (ShellStep::PrintConfig, "Failed to serialize server config: e"),
        (ShellStep::SaveConfig, "Failed to save server config: e"),
        (ShellStep::MakeClient, "Failed to create HTTP client: e"),
        (ShellStep::OpenDatabase, "Failed to open local SQLite database: e"),
        (ShellStep::InitializeDatabase, "Failed to initialize database: e"),
        (ShellStep::BindServer, "Failed to bind local server on 127.0.0.1:30001: e"),
        (ShellStep::BindTerminal, "Failed to bind terminal WebSocket on 127.0.0.1:30002: e"),
    ] {
        assert_eq!(shell_failure(step, "e"), message);
    }
}

fn shows(body: Json, text: &str) {
    assert_eq!(print_json(&body), text);
}

#[test]
fn fixed_bodies_are_what_they_are() {
    shows(
        health("/data"),
        "{\"dataDir\":\"/data\",\"database\":\"connected\",\"status\":\"healthy\",\"success\":true}",
    );
    shows(version("1.2.3"), "{\"current_version\":\"1.2.3\",\"version\":\"1.2.3\"}");
    shows(ok_response(), "{\"success\":true}");
    shows(
        metrics_skipped(),
        "{\"reason\":\"Metrics are not available in local desktop mode\",\"skipped\":true,\"success\":true}",
    );
    shows(true_allowed(), "{\"allowed\":true}");
    shows(false_allowed(), "{\"allowed\":false}");
    shows(empty_array(), "[]");
    shows(empty_topology(), "{\"edges\":[],\"nodes\":[]}");
    shows(alerts(), "{\"alerts\":[]}");
    shows(log_level(), "{\"level\":\"info\"}");
    shows(session_timeout(), "{\"timeoutHours\":24}");
    shows(guacamole_settings(), "{\"enabled\":false,\"url\":\"\"}");
    shows(dashboard_preferences(), "{\"layout\":[],\"preferences\":{},\"widgets\":[]}");
    shows(uptime(), "{\"startedAt\":null,\"uptime\":0}");
}

#[test]
fn fixed_refusals_are_what_they_are() {
    let reply = metrics_not_found();
    assert_eq!(reply.status, 404);
    shows(reply.body, "{\"error\":\"Metrics are not available in local desktop mode\"}");
    let reply = not_found();
    assert_eq!(reply.status, 404);
    shows(reply.body, "{\"error\":\"Not configured\"}");
    let reply = fallback();
    assert_eq!(reply.status, 501);
    shows(
        reply.body,
        "{\"code\":\"NOT_IMPLEMENTED\",\"error\":\"This local Tauri server endpoint has not been ported to Rust yet\"}",
    );
}
