use termix_local::accounts::UserResponse;
use termix_local::documents::Granted;
use termix_local::error::ApiError;
use termix_local::hosts::{
    check_is_on, create_host, create_host_reply, delete_host, delete_host_reply, export_hosts,
    get_host, get_host_reply, host_json, host_password, host_status, host_status_payload,
    host_status_probe, list_hosts, list_hosts_reply, merge_preserved_host_fields, probe_address,
    probe_step, server_statuses, server_statuses_reply, status_check_enabled, status_probes,
    update_host, update_host_merge, update_host_reply, validate_host_payload, ProbeStep,
    StatusCheck,
};
use termix_local::json::Json;
use termix_local::json_text::{parse_json, print_json};
use termix_local::store::{DbCommand, DbFault, RecordKind, RecordRow};

fn json(text: &str) -> Json {
    parse_json(text).unwrap()
}

fn user() -> UserResponse {
    UserResponse {
        user_id: "u1".to_string(),
        username: "anna".to_string(),
        is_admin: false,
        is_oidc: false,
        totp_enabled: false,
        data_unlocked: true,
    }
}

fn nobody() -> Result<UserResponse, ApiError> {
    Err(ApiError::unauthorized("Invalid token"))
}

fn row(id: i64, data: &str) -> RecordRow {
    RecordRow { id, data: data.to_string(), created_at: 100, updated_at: 200 }
}

fn value(body: &Json) -> serde_json::Value {
    body.to_value()
}

fn expect(text: &str) -> serde_json::Value {
    serde_json::from_str(text).unwrap()
}

fn merged(payload: &str, existing: &str) -> serde_json::Value {
    let mut sent = json(payload);
    merge_preserved_host_fields(&mut sent, &json(existing));
    value(&sent)
}

const PLAIN_HOST: &str = "{\"ip\":\"10.0.0.1\",\"port\":22}";

#[test]
fn a_host_needs_an_address_and_a_port() {
    for good in [PLAIN_HOST, "{\"ip\":\" h \",\"port\":1}", "{\"ip\":\"h\",\"port\":65535,\"x\":[]}"] {
        assert!(validate_host_payload(&json(good)).is_ok());
    }
    for bad in [
        "{}",
        "[]",
        "null",
        "{\"ip\":\"h\"}",
        "{\"port\":22}",
        "{\"ip\":\" \",\"port\":22}",
        "{\"ip\":\"h\",\"port\":0}",
        "{\"ip\":\"h\",\"port\":65536}",
        "{\"ip\":\"h\",\"port\":-22}",
        "{\"ip\":\"h\",\"port\":\"22\"}",
        "{\"ip\":\"h\",\"port\":22.5}",
        "{\"ip\":5,\"port\":22}",
    ] {
        let error = validate_host_payload(&json(bad)).unwrap_err();
        assert_eq!((error.status, error.message.as_str()), (400, "Invalid SSH host data"));
    }
}

#[test]
fn a_bare_host_is_shown_with_every_default() {
    let shown = host_json(7, "u1", json(PLAIN_HOST), 1700000000, 1700000001);
    assert_eq!(
        value(&shown),
        expect(
            "{\"ip\":\"10.0.0.1\",\"port\":22,\"id\":7,\"userId\":\"u1\",\"connectionType\":\"ssh\",\"name\":\"\",\"folder\":\"\",\"tags\":[],\"pin\":false,\"authType\":\"none\",\"enableTerminal\":true,\"enableTunnel\":true,\"enableFileManager\":true,\"enableDocker\":false,\"showTerminalInSidebar\":true,\"showFileManagerInSidebar\":false,\"showTunnelInSidebar\":false,\"showDockerInSidebar\":false,\"showServerStatsInSidebar\":false,\"defaultPath\":\"/\",\"tunnelConnections\":[],\"jumpHosts\":[],\"quickActions\":[],\"createdAt\":\"1700000000\",\"updatedAt\":\"1700000001\",\"hasPassword\":false,\"hasKey\":false,\"hasSudoPassword\":false}"
        )
    );
}

#[test]
fn a_shown_host_keeps_what_is_stored() {
    let shown = value(&host_json(
        7,
        "u1",
        json("{\"id\":99,\"userId\":\"x\",\"pin\":true,\"tags\":[\"a\"],\"name\":null,\"extra\":1.5,\"password\":\"p\",\"key\":\"\",\"sudoPassword\":5}"),
        1,
        2,
    ));
    assert_eq!(shown["id"], expect("7"));
    assert_eq!(shown["userId"], expect("\"u1\""));
    assert_eq!(shown["pin"], expect("true"));
    assert_eq!(shown["tags"], expect("[\"a\"]"));
    assert_eq!(shown["name"], expect("null"));
    assert_eq!(shown["extra"], expect("1.5"));
    assert_eq!(shown["password"], expect("\"p\""));
    assert_eq!(shown["hasPassword"], expect("true"));
    assert_eq!(shown["hasKey"], expect("false"));
    assert_eq!(shown["hasSudoPassword"], expect("false"));
}

#[test]
fn what_is_no_object_is_shown_as_an_empty_host() {
    assert_eq!(
        value(&host_json(1, "u1", json("[1,2]"), 3, 4)),
        value(&host_json(1, "u1", json("{}"), 3, 4))
    );
}

#[test]
fn showing_a_shown_host_changes_nothing() {
    let once = host_json(1, "u1", json("{\"password\":\"p\"}"), 3, 4);
    let expected = value(&once);
    assert_eq!(value(&host_json(1, "u1", once, 3, 4)), expected);
}

#[test]
fn an_update_keeps_a_password_that_is_left_out() {
    let existing = "{\"authType\":\"password\",\"password\":\"old\",\"key\":\"k\"}";
    assert_eq!(merged("{}", existing)["password"], expect("\"old\""));
    assert_eq!(merged("{\"password\":\"\"}", existing)["password"], expect("\"old\""));
    assert_eq!(merged("{\"password\":null}", existing)["password"], expect("\"old\""));
    assert_eq!(merged("{\"password\":\"existing_password\"}", existing)["password"], expect("\"old\""));
    assert_eq!(merged("{\"password\":\"existing_key\"}", existing)["password"], expect("\"old\""));
    assert_eq!(merged("{\"password\":\"new\"}", existing)["password"], expect("\"new\""));
    assert!(merged("{}", existing).get("key").is_none());
}

#[test]
fn an_update_keeps_a_key_that_is_left_out() {
    let existing = "{\"password\":\"old\",\"key\":\"k\",\"keyPassword\":\"kp\",\"keyType\":\"ssh-rsa\"}";
    assert_eq!(
        merged("{\"authType\":\"key\",\"keyType\":\"ssh-ed25519\"}", existing),
        expect("{\"authType\":\"key\",\"key\":\"k\",\"keyPassword\":\"kp\",\"keyType\":\"ssh-ed25519\"}")
    );
}

#[test]
fn an_update_without_a_login_keeps_the_sudo_passwords_only() {
    let existing = "{\"password\":\"old\",\"key\":\"k\",\"sudoPassword\":\"s\",\"terminalConfig\":{\"sudoPassword\":\"t\",\"font\":1}}";
    assert_eq!(merged("{}", existing), expect("{\"sudoPassword\":\"s\"}"));
    assert_eq!(
        merged("{\"terminalConfig\":{\"font\":2}}", existing),
        expect("{\"sudoPassword\":\"s\",\"terminalConfig\":{\"font\":2,\"sudoPassword\":\"t\"}}")
    );
    assert_eq!(
        merged("{\"terminalConfig\":{\"sudoPassword\":\"u\"}}", existing)["terminalConfig"],
        expect("{\"sudoPassword\":\"u\"}")
    );
    assert_eq!(
        merged("{\"terminalConfig\":5}", existing)["terminalConfig"],
        expect("5")
    );
}

#[test]
fn an_update_by_itself_changes_nothing() {
    let stored = "{\"authType\":\"key\",\"key\":\"k\",\"password\":\"existing_password\",\"sudoPassword\":\"\",\"terminalConfig\":{\"sudoPassword\":\"t\"}}";
    assert_eq!(merged(stored, stored), expect(stored));
}

#[test]
fn only_objects_are_merged() {
    assert_eq!(merged("[1]", "{\"sudoPassword\":\"s\"}"), expect("[1]"));
    assert_eq!(merged("{\"a\":1}", "[1]"), expect("{\"a\":1}"));
}

#[test]
fn the_status_check_can_be_switched_off() {
    assert!(status_check_enabled(&json("{}")));
    assert!(status_check_enabled(&json("{\"statsConfig\":{}}")));
    assert!(status_check_enabled(&json("{\"statsConfig\":5}")));
    assert!(status_check_enabled(&json("{\"statsConfig\":\"no json\"}")));
    assert!(status_check_enabled(&json("{\"statsConfig\":{\"statusCheckEnabled\":\"no\"}}")));
    assert!(!status_check_enabled(&json("{\"statsConfig\":{\"statusCheckEnabled\":false}}")));
    assert!(!status_check_enabled(&json("{\"statsConfig\":{\"disableTcpPing\":true}}")));
    assert!(!status_check_enabled(&json("{\"statsConfig\":\"{\\\"disableTcpPing\\\":true}\"}")));
    assert!(status_check_enabled(&json("{\"statsConfig\":\"{\\\"disableTcpPing\\\":false}\"}")));
    assert!(check_is_on(None));
    assert!(!check_is_on(Some(&json("{\"statusCheckEnabled\":false,\"disableTcpPing\":false}"))));
}

#[test]
fn a_host_is_probed_at_its_address() {
    assert_eq!(probe_address(&json("{\"ip\":\" h \",\"port\":22}")), Some("h:22".to_string()));
    assert_eq!(probe_address(&json("{\"ip\":\"\",\"port\":22}")), Some(":22".to_string()));
    assert_eq!(probe_address(&json("{\"ip\":\"h\",\"port\":0}")), None);
    assert_eq!(probe_address(&json("{\"ip\":\"h\",\"port\":65536}")), None);
    assert_eq!(probe_address(&json("{\"ip\":\"h\",\"port\":-1}")), None);
    assert_eq!(probe_address(&json("{\"ip\":7,\"port\":22}")), None);
    assert_eq!(probe_address(&json("{\"port\":22}")), None);
}

#[test]
fn a_probe_tries_four_addresses_at_most() {
    assert_eq!(probe_step(&vec![], 0), ProbeStep::Offline);
    assert_eq!(probe_step(&vec![], 2), ProbeStep::Connect(0));
    assert_eq!(probe_step(&vec![false], 2), ProbeStep::Connect(1));
    assert_eq!(probe_step(&vec![false, false], 2), ProbeStep::Offline);
    assert_eq!(probe_step(&vec![false, true], 9), ProbeStep::Online);
    assert_eq!(probe_step(&vec![false, false, false], 9), ProbeStep::Connect(3));
    assert_eq!(probe_step(&vec![false, false, false, false], 9), ProbeStep::Offline);
}

#[test]
fn statuses_are_shown_by_number() {
    assert_eq!(
        value(&host_status_payload(true, 5)),
        expect("{\"status\":\"online\",\"lastChecked\":\"5\"}")
    );
    let checks = vec![
        StatusCheck { id: 3, online: false, checked_at: 10 },
        StatusCheck { id: -1, online: true, checked_at: 11 },
    ];
    assert_eq!(
        value(&server_statuses_reply(&checks)),
        expect("{\"3\":{\"status\":\"offline\",\"lastChecked\":\"10\"},\"-1\":{\"status\":\"online\",\"lastChecked\":\"11\"}}")
    );
}

#[test]
fn statuses_are_asked_for() {
    let rows = vec![row(1, PLAIN_HOST), row(2, "broken"), row(3, "{\"ip\":\"h\",\"port\":1,\"statsConfig\":{\"disableTcpPing\":true}}")];
    let probes = status_probes(Ok(rows)).unwrap();
    assert_eq!(probes.len(), 3);
    assert_eq!((probes[0].id, probes[0].address.clone()), (1, Some("10.0.0.1:22".to_string())));
    assert_eq!((probes[1].id, probes[1].address.clone()), (2, None));
    assert_eq!((probes[2].id, probes[2].address.clone()), (3, None));
    for (fault, message) in [
        (DbFault::Locked, "Database lock poisoned"),
        (DbFault::Prepare("x".to_string()), "Failed to prepare status query: x"),
        (DbFault::Run("x".to_string()), "Failed to query host statuses: x"),
        (DbFault::Row("x".to_string()), "Failed to read host status row: x"),
    ] {
        assert_eq!(status_probes(Err(fault)).unwrap_err().message, message);
    }
    assert_eq!(host_status_probe(Ok(Some(row(1, PLAIN_HOST)))).unwrap(), Some("10.0.0.1:22".to_string()));
    assert_eq!(host_status_probe(Ok(None)).unwrap_err().message, "Host not found");
    assert_eq!(
        host_status_probe(Err(DbFault::Run("x".to_string()))).unwrap_err().message,
        "Failed to load host status: x"
    );
}

fn statement(granted: Result<Granted, ApiError>) -> String {
    format!("{:?}", granted.unwrap().command)
}

#[test]
fn every_statement_is_confined_to_its_user() {
    assert_eq!(statement(list_hosts(Ok(user()))), "ListRecords { kind: Host, user_id: \"u1\" }");
    assert_eq!(statement(server_statuses(Ok(user()))), "ListRecords { kind: Host, user_id: \"u1\" }");
    assert_eq!(statement(get_host(Ok(user()), 4)), "FindRecord { kind: Host, id: 4, owner: Some(\"u1\") }");
    assert_eq!(statement(host_status(Ok(user()), 4)), "FindRecord { kind: Host, id: 4, owner: Some(\"u1\") }");
    assert_eq!(statement(update_host(Ok(user()), 4)), "FindRecord { kind: Host, id: 4, owner: Some(\"u1\") }");
    assert_eq!(statement(delete_host(Ok(user()), 4)), "DeleteRecord { kind: Host, id: 4, user_id: \"u1\" }");
    for refused in [
        list_hosts(nobody()),
        server_statuses(nobody()),
        get_host(nobody(), 4),
        host_status(nobody(), 4),
        update_host(nobody(), 4),
        delete_host(nobody(), 4),
        create_host(nobody(), &json("{}"), 1),
    ] {
        assert_eq!(refused.unwrap_err().status, 401);
    }
}

#[test]
fn a_created_host_is_stored_and_comes_back() {
    let payload = json("{\"port\":22,\"ip\":\"h\",\"tags\":[\"x\"]}");
    let granted = create_host(Ok(user()), &payload, 50).unwrap();
    let data = match granted.command {
        DbCommand::InsertRecord { kind, user_id, data, created_at, updated_at } => {
            assert_eq!(kind, RecordKind::Host);
            assert_eq!(user_id, "u1");
            assert_eq!((created_at, updated_at), (50, 50));
            data
        }
        _ => panic!("another statement"),
    };
    assert_eq!(data, "{\"ip\":\"h\",\"port\":22,\"tags\":[\"x\"]}");
    let created = create_host_reply(&granted.user, payload, Ok(9), 50).unwrap();
    let stored = RecordRow { id: 9, data, created_at: 50, updated_at: 50 };
    let found = get_host_reply(&granted.user, 9, Ok(Some(stored))).unwrap();
    assert_eq!(value(&found), value(&created));
    assert_eq!(create_host(Ok(user()), &json("{}"), 50).unwrap_err().message, "Invalid SSH host data");
    assert_eq!(
        create_host_reply(&user(), json("{}"), Err(DbFault::Run("x".to_string())), 1).unwrap_err().message,
        "Failed to save host: x"
    );
}

#[test]
fn hosts_are_listed_in_order() {
    let body = list_hosts_reply(&user(), Ok(vec![row(2, PLAIN_HOST), row(1, "broken")])).unwrap();
    let list = value(&body);
    assert_eq!(list.as_array().unwrap().len(), 2);
    assert_eq!(list[0]["id"], expect("2"));
    assert_eq!(list[0]["createdAt"], expect("\"100\""));
    assert_eq!(list[1], value(&host_json(1, "u1", json("{}"), 100, 200)));
    let exported = export_hosts(Ok(body)).unwrap();
    assert_eq!(value(&exported)["hosts"], list);
    for (fault, message) in [
        (DbFault::Prepare("x".to_string()), "Failed to prepare host query: x"),
        (DbFault::Run("x".to_string()), "Failed to query hosts: x"),
        (DbFault::Row("x".to_string()), "Failed to read host row: x"),
    ] {
        assert_eq!(list_hosts_reply(&user(), Err(fault)).unwrap_err().message, message);
    }
    assert_eq!(export_hosts(Err(ApiError::internal("m"))).unwrap_err().status, 500);
}

#[test]
fn a_host_may_be_missing() {
    let error = get_host_reply(&user(), 4, Ok(None)).unwrap_err();
    assert_eq!((error.status, error.message.as_str()), (404, "Host not found"));
    let error = get_host_reply(&user(), 4, Err(DbFault::Run("x".to_string()))).unwrap_err();
    assert_eq!((error.status, error.message.as_str()), (500, "Failed to load host: x"));
}

#[test]
fn an_updated_host_is_merged_checked_and_stored() {
    let stored = "{\"ip\":\"h\",\"port\":22,\"authType\":\"password\",\"password\":\"old\"}";
    let update = update_host_merge(&user(), 4, json("{\"ip\":\"h2\",\"port\":23}"), Ok(Some(row(4, stored))), 60).unwrap();
    assert_eq!(value(&update.payload), expect("{\"ip\":\"h2\",\"port\":23,\"password\":\"old\"}"));
    assert_eq!(
        format!("{:?}", update.command),
        "UpdateRecord { kind: Host, id: 4, user_id: \"u1\", data: \"{\\\"ip\\\":\\\"h2\\\",\\\"password\\\":\\\"old\\\",\\\"port\\\":23}\", updated_at: 60 }"
    );
    let shown = value(&update_host_reply(&user(), 4, update.payload, Ok(1), 60).unwrap());
    assert_eq!(shown["createdAt"], expect("\"60\""));
    assert_eq!(shown["hasPassword"], expect("true"));
    assert_eq!(
        update_host_merge(&user(), 4, json("{}"), Ok(Some(row(4, stored))), 60).unwrap_err().status,
        400
    );
    assert_eq!(
        update_host_merge(&user(), 4, json(PLAIN_HOST), Ok(None), 60).unwrap_err().status,
        404
    );
    assert_eq!(
        update_host_merge(&user(), 4, json(PLAIN_HOST), Err(DbFault::Run("x".to_string())), 60).unwrap_err().message,
        "Failed to load host: x"
    );
    assert_eq!(update_host_reply(&user(), 4, json("{}"), Ok(0), 60).unwrap_err().status, 404);
    assert_eq!(
        update_host_reply(&user(), 4, json("{}"), Err(DbFault::Run("x".to_string())), 60).unwrap_err().message,
        "Failed to update host: x"
    );
}

#[test]
fn a_host_is_deleted() {
    assert_eq!(print_json(&delete_host_reply(Ok(())).unwrap()), "{\"success\":true}");
    assert_eq!(
        delete_host_reply(Err(DbFault::Run("x".to_string()))).unwrap_err().message,
        "Failed to delete host: x"
    );
}

#[test]
fn a_password_is_handed_out() {
    assert_eq!(print_json(&host_password(Ok(json("{\"password\":\"p\"}"))).unwrap()), "{\"value\":\"p\"}");
    assert_eq!(print_json(&host_password(Ok(json("{}"))).unwrap()), "{\"value\":\"\"}");
    assert_eq!(host_password(Err(ApiError::not_found("Host not found"))).unwrap_err().status, 404);
}
