//! Hosts: how they are checked, shown, updated and probed.

use crate::accounts::{UserResponse, UserView};
use crate::clock::timestamp_string;
use crate::documents::{
    delete_record, find_record, insert_record, list_records, success, update_record, Granted,
    RecordUpdate,
};
use crate::error::{ApiError, ErrorView};
use crate::json::{Fields, Json, JsonObject, JsonView, NumberView};
use crate::json_text::{parse_json, parse_stored, print_json};
use crate::records::{
    apply_defaults, holds_text, preserve_string_field, preserve_string_fields, Defaults,
};
use crate::store::{CommandView, DbFault, RecordKind, RecordRow};
use crate::text::{i64_text, joined3, same_text, trim, u64_text};
use vstd::prelude::*;
use vstd::string::*;

verus! {

// ---------------------------------------------------------------------------------------------
// Checks
// ---------------------------------------------------------------------------------------------

/// The numbers of the ports.
pub open spec fn port_number(n: int) -> bool {
    1 <= n <= 65535
}

/// Whether a payload is a host: it has an address that is not blank, and a port.
pub open spec fn valid_host(payload: JsonView) -> bool {
    &&& payload.text_at("ip"@) matches Some(ip) && crate::text::trimmed(ip).len() > 0
    &&& payload.integer_at("port"@) matches Some(port) && port_number(port)
}

/// Checks the payload of a host.
pub fn validate_host_payload(payload: &Json) -> (r: Result<(), ApiError>)
    ensures
        r is Ok <==> valid_host(payload@),
        r matches Err(error) ==> error@ == crate::error::bad_request("Invalid SSH host data"@),
{
    let ip_ok: bool = match payload.text_at("ip") {
        Some(ip) => !trim(ip).is_empty(),
        None => false,
    };
    let port_ok: bool = match payload.get("port") {
        Some(value) => match value.as_i64() {
            Some(port) => 1 <= port && port <= 65535,
            None => false,
        },
        None => false,
    };
    if !ip_ok || !port_ok {
        return Err(ApiError::bad_request("Invalid SSH host data"));
    }
    Ok(())
}

// ---------------------------------------------------------------------------------------------
// Showing a host
// ---------------------------------------------------------------------------------------------

/// What a host is shown with where it does not say.
pub open spec fn host_defaults() -> Defaults {
    seq![
        ("connectionType"@, JsonView::Text("ssh"@)),
        ("name"@, JsonView::Text(""@)),
        ("folder"@, JsonView::Text(""@)),
        ("tags"@, JsonView::Array(Seq::empty())),
        ("pin"@, JsonView::Bool(false)),
        ("authType"@, JsonView::Text("none"@)),
        ("enableTerminal"@, JsonView::Bool(true)),
        ("enableTunnel"@, JsonView::Bool(true)),
        ("enableFileManager"@, JsonView::Bool(true)),
        ("enableDocker"@, JsonView::Bool(false)),
        ("showTerminalInSidebar"@, JsonView::Bool(true)),
        ("showFileManagerInSidebar"@, JsonView::Bool(false)),
        ("showTunnelInSidebar"@, JsonView::Bool(false)),
        ("showDockerInSidebar"@, JsonView::Bool(false)),
        ("showServerStatsInSidebar"@, JsonView::Bool(false)),
        ("defaultPath"@, JsonView::Text("/"@)),
        ("tunnelConnections"@, JsonView::Array(Seq::empty())),
        ("jumpHosts"@, JsonView::Array(Seq::empty())),
        ("quickActions"@, JsonView::Array(Seq::empty())),
    ]
}

fn default_members() -> (r: Vec<(&'static str, Json)>)
    ensures
        crate::records::defaults_view(r@) == host_defaults(),
{
    let r: Vec<(&'static str, Json)> = vec![
        ("connectionType", Json::from_text("ssh")),
        ("name", Json::from_text("")),
        ("folder", Json::from_text("")),
        ("tags", Json::empty_array()),
        ("pin", Json::Bool(false)),
        ("authType", Json::from_text("none")),
        ("enableTerminal", Json::Bool(true)),
        ("enableTunnel", Json::Bool(true)),
        ("enableFileManager", Json::Bool(true)),
        ("enableDocker", Json::Bool(false)),
        ("showTerminalInSidebar", Json::Bool(true)),
        ("showFileManagerInSidebar", Json::Bool(false)),
        ("showTunnelInSidebar", Json::Bool(false)),
        ("showDockerInSidebar", Json::Bool(false)),
        ("showServerStatsInSidebar", Json::Bool(false)),
        ("defaultPath", Json::from_text("/")),
        ("tunnelConnections", Json::empty_array()),
        ("jumpHosts", Json::empty_array()),
        ("quickActions", Json::empty_array()),
    ];
    proof {
        assert(crate::records::defaults_view(r@) =~= host_defaults());
    }
    r
}

/// The members of a host as it is shown: those that are stored, with the defaults for those
/// that are not, under the number, the owner and the times of the row, and with a flag for each
/// secret that the host has.
pub open spec fn shown_host(
    id: int,
    user_id: Seq<char>,
    stored: Fields,
    created_at: int,
    updated_at: int,
) -> Fields {
    crate::records::with_defaults(
        stored.insert("id"@, JsonView::Number(NumberView::Integer(id))).insert(
            "userId"@,
            JsonView::Text(user_id),
        ),
        host_defaults(),
    ).insert("createdAt"@, JsonView::Text(crate::text::decimal(created_at))).insert(
        "updatedAt"@,
        JsonView::Text(crate::text::decimal(updated_at)),
    ).insert("hasPassword"@, JsonView::Bool(crate::records::has_text(stored, "password"@))).insert(
        "hasKey"@,
        JsonView::Bool(crate::records::has_text(stored, "key"@)),
    ).insert(
        "hasSudoPassword"@,
        JsonView::Bool(crate::records::has_text(stored, "sudoPassword"@)),
    )
}

/// The body that shows a stored host; one that is no object is shown as one without members.
pub open spec fn host_body(
    id: int,
    user_id: Seq<char>,
    stored: JsonView,
    created_at: int,
    updated_at: int,
) -> JsonView {
    JsonView::Object(shown_host(id, user_id, stored.fields_or_empty(), created_at, updated_at))
}

/// Shows a host.
pub fn host_json(id: i64, user_id: &str, data: Json, created_at: i64, updated_at: i64) -> (r: Json)
    ensures
        r@ == host_body(id as int, user_id@, data@, created_at as int, updated_at as int),
{
    let mut object = data.into_object();
    let has_password: bool = holds_text(&object, "password");
    let has_key: bool = holds_text(&object, "key");
    let has_sudo_password: bool = holds_text(&object, "sudoPassword");
    object.insert("id".to_owned(), Json::from_i64(id));
    object.insert("userId".to_owned(), Json::from_text(user_id));
    apply_defaults(&mut object, default_members());
    object.insert("createdAt".to_owned(), Json::Text(timestamp_string(created_at)));
    object.insert("updatedAt".to_owned(), Json::Text(timestamp_string(updated_at)));
    object.insert("hasPassword".to_owned(), Json::Bool(has_password));
    object.insert("hasKey".to_owned(), Json::Bool(has_key));
    object.insert("hasSudoPassword".to_owned(), Json::Bool(has_sudo_password));
    Json::Object(object)
}

// ---------------------------------------------------------------------------------------------
// Updating a host
// ---------------------------------------------------------------------------------------------

/// The way a host is logged in to: what the payload says, else what is stored, else `none`.
pub open spec fn merged_auth_type(payload: Fields, existing: Fields) -> Seq<char> {
    match crate::json::field_text(payload, "authType"@) {
        Some(text) => text,
        None => match crate::json::field_text(existing, "authType"@) {
            Some(text) => text,
            None => "none"@,
        },
    }
}

/// The secrets that an update keeps where it leaves them out.
pub open spec fn kept_secrets(auth_type: Seq<char>) -> Seq<Seq<char>> {
    if auth_type == "password"@ {
        seq!["password"@, "sudoPassword"@]
    } else if auth_type == "key"@ {
        seq!["key"@, "keyPassword"@, "keyType"@, "sudoPassword"@]
    } else {
        seq!["sudoPassword"@]
    }
}

/// `payload` with the stored sudo password of the terminal, where both have a terminal.
pub open spec fn with_terminal_secret(payload: Fields, existing: Fields) -> Fields {
    match (
        JsonView::Object(payload).member("terminalConfig"@),
        JsonView::Object(existing).member("terminalConfig"@),
    ) {
        (Some(JsonView::Object(sent)), Some(JsonView::Object(stored))) => payload.insert(
            "terminalConfig"@,
            JsonView::Object(crate::records::preserved(sent, stored, "sudoPassword"@)),
        ),
        _ => payload,
    }
}

/// What an update makes of a stored host.
pub open spec fn merged_host(payload: JsonView, existing: JsonView) -> JsonView {
    match (payload, existing) {
        (JsonView::Object(sent), JsonView::Object(stored)) => JsonView::Object(
            with_terminal_secret(
                crate::records::preserved_all(
                    sent,
                    stored,
                    kept_secrets(merged_auth_type(sent, stored)),
                ),
                stored,
            ),
        ),
        _ => payload,
    }
}

fn secrets_to_keep(auth_type: &str) -> (r: Vec<&'static str>)
    ensures
        crate::records::keys_view(r@) == kept_secrets(auth_type@),
{
    let r: Vec<&'static str> = if same_text(auth_type, "password") {
        vec!["password", "sudoPassword"]
    } else if same_text(auth_type, "key") {
        vec!["key", "keyPassword", "keyType", "sudoPassword"]
    } else {
        vec!["sudoPassword"]
    };
    proof {
        assert(crate::records::keys_view(r@) =~= kept_secrets(auth_type@));
    }
    r
}

fn preserve_terminal_secret(payload: &mut JsonObject, existing: &JsonObject)
    ensures
        final(payload)@ == with_terminal_secret(old(payload)@, existing@),
{
    let stored = match existing.get("terminalConfig") {
        Some(Json::Object(stored)) => stored,
        _ => return,
    };
    let mut sent: JsonObject = match payload.get("terminalConfig") {
        Some(Json::Object(sent)) => sent.clone(),
        _ => return,
    };
    preserve_string_field(&mut sent, stored, "sudoPassword");
    payload.insert("terminalConfig".to_owned(), Json::Object(sent));
}

/// Keeps the stored secrets that an update of a host leaves out.
pub fn merge_preserved_host_fields(payload: &mut Json, existing: &Json)
    ensures
        final(payload)@ == merged_host(old(payload)@, existing@),
{
    let stored = match existing {
        Json::Object(stored) => stored,
        _ => return,
    };
    let mut taken = Json::Null;
    std::mem::swap(&mut taken, payload);
    let mut object = match taken {
        Json::Object(object) => object,
        other => {
            *payload = other;
            return;
        },
    };
    let auth_type: String = match object.get("authType") {
        Some(Json::Text(text)) => text.clone(),
        _ => match stored.get("authType") {
            Some(Json::Text(text)) => text.clone(),
            _ => "none".to_owned(),
        },
    };
    preserve_string_fields(&mut object, stored, secrets_to_keep(auth_type.as_str()));
    preserve_terminal_secret(&mut object, stored);
    *payload = Json::Object(object);
}

// ---------------------------------------------------------------------------------------------
// Whether a host is up
// ---------------------------------------------------------------------------------------------

/// The settings of the status check of a host: an object, or a text that holds JSON.
pub open spec fn stats_config(payload: JsonView) -> Option<JsonView> {
    match payload.member("statsConfig"@) {
        Some(JsonView::Object(fields)) => Some(JsonView::Object(fields)),
        Some(JsonView::Text(raw)) => match crate::json_text::parsed_json(raw) {
            Ok(config) => Some(config),
            Err(_) => None,
        },
        _ => None,
    }
}

/// Whether settings leave the status check on: nothing switches it off, by either switch.
pub open spec fn check_on(config: Option<JsonView>) -> bool {
    config matches Some(settings) ==> settings.bool_at("statusCheckEnabled"@) != Some(false)
        && settings.bool_at("disableTcpPing"@) != Some(true)
}

/// Whether settings leave the status check on.
pub fn check_is_on(config: Option<&Json>) -> (r: bool)
    ensures
        r == check_on(crate::json::view_of(config)),
{
    match config {
        Some(settings) => settings.bool_at("statusCheckEnabled").unwrap_or(true)
            && !settings.bool_at("disableTcpPing").unwrap_or(false),
        None => true,
    }
}

/// Whether a host is checked at all.
pub fn status_check_enabled(payload: &Json) -> (r: bool)
    ensures
        r == check_on(stats_config(payload@)),
{
    match payload.get("statsConfig") {
        Some(value) => match value {
            Json::Object(_) => check_is_on(Some(value)),
            Json::Text(raw) => match parse_json(raw.as_str()) {
                Ok(config) => check_is_on(Some(&config)),
                Err(_) => check_is_on(None),
            },
            _ => check_is_on(None),
        },
        None => check_is_on(None),
    }
}

/// The address under which a host is probed: its name without the white space around it, and
/// its port.
pub open spec fn probe_target(payload: JsonView) -> Option<Seq<char>> {
    match (payload.text_at("ip"@), payload.integer_at("port"@)) {
        (Some(host), Some(port)) => if port_number(port) {
            Some(crate::text::trimmed(host) + ":"@ + crate::text::decimal(port))
        } else {
            None
        },
        _ => None,
    }
}

/// The address under which a host is probed.
pub fn probe_address(payload: &Json) -> (r: Option<String>)
    ensures
        crate::json::string_view(r) == probe_target(payload@),
{
    let host = match payload.text_at("ip") {
        Some(host) => host,
        None => return None,
    };
    let port: u64 = match payload.get("port") {
        Some(value) => match value.as_u64() {
            Some(port) => port,
            None => return None,
        },
        None => return None,
    };
    if port < 1 || port > 65535 {
        return None;
    }
    Some(joined3(trim(host), ":", u64_text(port).as_str()))
}

/// The address at which a host is to be tried: none where it is not checked or has none.
pub open spec fn status_probe(payload: JsonView) -> Option<Seq<char>> {
    if check_on(stats_config(payload)) {
        probe_target(payload)
    } else {
        None
    }
}

/// The address at which a host is to be tried.
pub fn status_address(payload: &Json) -> (r: Option<String>)
    ensures
        crate::json::string_view(r) == status_probe(payload@),
{
    if status_check_enabled(payload) {
        probe_address(payload)
    } else {
        None
    }
}

/// How many addresses of a host are tried.
pub const PROBED_ADDRESSES: usize = 4;

/// How long each of them is tried, in milliseconds.
pub const PROBE_MILLIS: u64 = 900;

/// What a probe does next.
#[derive(Clone, Copy, Debug, PartialEq, Eq, Structural)]
pub enum ProbeStep {
    /// Try the address at this place.
    Connect(usize),
    /// The host is up.
    Online,
    /// The host is down.
    Offline,
}

/// What a probe does next after some tries of so many addresses: the addresses are tried one
/// after the other, a few at most, until one answers.
pub open spec fn next_probe(answers: Seq<bool>, addresses: int) -> ProbeStep {
    if answers.contains(true) {
        ProbeStep::Online
    } else if answers.len() < addresses && answers.len() < PROBED_ADDRESSES {
        ProbeStep::Connect(answers.len() as usize)
    } else {
        ProbeStep::Offline
    }
}

/// What a probe does next.
pub fn probe_step(answers: &Vec<bool>, addresses: usize) -> (r: ProbeStep)
    ensures
        r == next_probe(answers@, addresses as int),
{
    for i in 0..answers.len()
        invariant
            forall|j: int| 0 <= j < i ==> !#[trigger] answers@[j],
    {
        if answers[i] {
            return ProbeStep::Online;
        }
    }
    if answers.len() < addresses && answers.len() < PROBED_ADDRESSES {
        ProbeStep::Connect(answers.len())
    } else {
        ProbeStep::Offline
    }
}

/// A probe goes on for as long as no address has answered and there is another to try, and then
/// finds what the tries have shown.
pub proof fn probe_finds_what_answers(answers: Seq<bool>, addresses: int)
    requires
        0 <= addresses,
        answers.len() <= addresses,
        answers.len() <= PROBED_ADDRESSES,
    ensures
        next_probe(answers, addresses) is Online <==> exists|i: int|
            0 <= i < answers.len() && #[trigger] answers[i],
        next_probe(answers, addresses) is Offline <==> (forall|i: int|
            0 <= i < answers.len() ==> !#[trigger] answers[i]) && (answers.len() == addresses
            || answers.len() == PROBED_ADDRESSES),
{
    if answers.contains(true) {
        let i = choose|i: int| 0 <= i < answers.len() && answers[i] == true;
        assert(answers[i]);
    }
    if exists|i: int| 0 <= i < answers.len() && #[trigger] answers[i] {
        let i = choose|i: int| 0 <= i < answers.len() && #[trigger] answers[i];
        assert(answers[i] == true);
        assert(answers.contains(true));
    }
}

/// The status of a host as it is shown.
pub open spec fn status_body(online: bool, checked_at: int) -> JsonView {
    JsonView::Object(
        map![
            "status"@ => JsonView::Text(
                if online {
                    "online"@
                } else {
                    "offline"@
                },
            ),
            "lastChecked"@ => JsonView::Text(crate::text::decimal(checked_at)),
        ],
    )
}

/// Shows the status of a host.
pub fn host_status_payload(online: bool, checked_at: i64) -> (r: Json)
    ensures
        r@ == status_body(online, checked_at as int),
{
    let status: &str = if online {
        "online"
    } else {
        "offline"
    };
    Json::Object(
        JsonObject::new().with("status", Json::from_text(status)).with(
            "lastChecked",
            Json::Text(timestamp_string(checked_at)),
        ),
    )
}

// ---------------------------------------------------------------------------------------------
// Requests: status
// ---------------------------------------------------------------------------------------------

/// A host that is to be tried, and the address for it, where there is one.
#[derive(Debug)]
pub struct StatusProbe {
    pub id: i64,
    pub address: Option<String>,
}

/// What a host was found to be, and when.
#[derive(Clone, Copy, Debug)]
pub struct StatusCheck {
    pub id: i64,
    pub online: bool,
    pub checked_at: i64,
}

/// Lets a user ask for the status of its hosts.
pub fn server_statuses(auth: Result<UserResponse, ApiError>) -> (r: Result<Granted, ApiError>)
    ensures
        crate::documents::granted_view(r) == crate::documents::access(
            crate::sessions::auth_view(auth),
            |user: UserView| crate::documents::list_command(RecordKind::Host, user),
        ),
{
    list_records(RecordKind::Host, auth)
}

/// Whether a probe is the one of a row.
pub open spec fn probes_row(probe: StatusProbe, row: RecordRow) -> bool {
    probe.id == row.id && crate::json::string_view(probe.address) == status_probe(
        crate::json_text::stored_tree(row.data@),
    )
}

/// Tells which hosts to try, given the rows that were found.
pub fn status_probes(rows: Result<Vec<RecordRow>, DbFault>) -> (r: Result<
    Vec<StatusProbe>,
    ApiError,
>)
    ensures
        match rows {
            Ok(found) => r matches Ok(probes) && probes@.len() == found@.len() && forall|i: int|
                0 <= i < found@.len() ==> #[trigger] probes_row(probes@[i], found@[i]),
            Err(fault) => r matches Err(error) && error@ == crate::store::list_fault(
                fault@,
                "Failed to prepare status query: "@,
                "Failed to query host statuses: "@,
                "Failed to read host status row: "@,
            ),
        },
{
    let found = match rows {
        Ok(found) => found,
        Err(fault) => return Err(
            fault.in_list(
                "Failed to prepare status query: ",
                "Failed to query host statuses: ",
                "Failed to read host status row: ",
            ),
        ),
    };
    let mut probes: Vec<StatusProbe> = Vec::new();
    for i in 0..found.len()
        invariant
            probes@.len() == i,
            forall|j: int| 0 <= j < i ==> #[trigger] probes_row(probes@[j], found@[j]),
    {
        let payload = parse_stored(found[i].data.as_str());
        probes.push(StatusProbe { id: found[i].id, address: status_address(&payload) });
        proof {
            assert(probes_row(probes@[i as int], found@[i as int]));
        }
    }
    Ok(probes)
}

/// The statuses of hosts, each under the number of its host; of two for one host the later.
pub open spec fn statuses(checks: Seq<StatusCheck>) -> Fields
    decreases checks.len(),
{
    if checks.len() == 0 {
        Map::empty()
    } else {
        statuses(checks.drop_last()).insert(
            crate::text::decimal(checks.last().id as int),
            status_body(checks.last().online, checks.last().checked_at as int),
        )
    }
}

/// Where every check is of another host, each host is shown with its own status, and no others
/// are.
pub proof fn every_host_has_its_status(checks: Seq<StatusCheck>)
    requires
        forall|i: int, j: int|
            0 <= i < j < checks.len() ==> (#[trigger] checks[i]).id != (#[trigger] checks[j]).id,
    ensures
        forall|i: int|
            0 <= i < checks.len() ==> {
                let key = crate::text::decimal((#[trigger] checks[i]).id as int);
                statuses(checks).contains_key(key) && statuses(checks)[key] == status_body(
                    checks[i].online,
                    checks[i].checked_at as int,
                )
            },
        forall|key: Seq<char>| #[trigger]
            statuses(checks).contains_key(key) ==> exists|i: int|
                0 <= i < checks.len() && key == crate::text::decimal(
                    (#[trigger] checks[i]).id as int,
                ),
    decreases checks.len(),
{
    if checks.len() > 0 {
        let earlier = checks.drop_last();
        let last = checks.last();
        every_host_has_its_status(earlier);
        assert forall|i: int| 0 <= i < checks.len() implies {
            let key = crate::text::decimal((#[trigger] checks[i]).id as int);
            statuses(checks).contains_key(key) && statuses(checks)[key] == status_body(
                checks[i].online,
                checks[i].checked_at as int,
            )
        } by {
            if i < earlier.len() {
                assert(earlier[i] == checks[i]);
                assert(checks[i].id != checks[checks.len() - 1].id);
                if crate::text::decimal(checks[i].id as int) == crate::text::decimal(
                    last.id as int,
                ) {
                    crate::text::decimals_tell_numbers_apart(checks[i].id as int, last.id as int);
                }
            }
        }
        assert forall|key: Seq<char>| #[trigger]
            statuses(checks).contains_key(key) implies exists|i: int|
            0 <= i < checks.len() && key == crate::text::decimal(
                (#[trigger] checks[i]).id as int,
            ) by {
            if key == crate::text::decimal(last.id as int) {
                assert(checks[checks.len() - 1] == last);
            } else {
                assert(statuses(earlier).contains_key(key));
                let i = choose|i: int|
                    0 <= i < earlier.len() && key == crate::text::decimal(
                        (#[trigger] earlier[i]).id as int,
                    );
                assert(checks[i] == earlier[i]);
            }
        }
    }
}

/// Shows the statuses of hosts.
pub fn server_statuses_reply(checks: &Vec<StatusCheck>) -> (r: Json)
    ensures
        r@ == JsonView::Object(statuses(checks@)),
{
    let mut object = JsonObject::new();
    proof {
        assert(checks@.take(0) =~= Seq::empty());
    }
    for i in 0..checks.len()
        invariant
            object@ == statuses(checks@.take(i as int)),
    {
        proof {
            assert(checks@.take(i + 1).drop_last() =~= checks@.take(i as int));
        }
        let check = &checks[i];
        object.insert(i64_text(check.id), host_status_payload(check.online, check.checked_at));
    }
    proof {
        assert(checks@.take(checks@.len() as int) =~= checks@);
    }
    Json::Object(object)
}

/// Lets a user ask for the status of one of its hosts.
pub fn host_status(auth: Result<UserResponse, ApiError>, host_id: i64) -> (r: Result<
    Granted,
    ApiError,
>)
    ensures
        crate::documents::granted_view(r) == crate::documents::access(
            crate::sessions::auth_view(auth),
            |user: UserView| crate::documents::find_command(RecordKind::Host, host_id as int, user),
        ),
{
    find_record(RecordKind::Host, host_id, auth)
}

/// Tells where to try a host, given the row that was found.
pub fn host_status_probe(found: Result<Option<RecordRow>, DbFault>) -> (r: Result<
    Option<String>,
    ApiError,
>)
    ensures
        match found {
            Ok(Some(row)) => r matches Ok(address) && crate::json::string_view(address)
                == status_probe(crate::json_text::stored_tree(row.data@)),
            Ok(None) => r matches Err(error) && error@ == crate::error::not_found(
                "Host not found"@,
            ),
            Err(fault) => r matches Err(error) && error@ == crate::store::plain_fault(
                fault@,
                "Failed to load host status: "@,
            ),
        },
{
    match found {
        Ok(Some(row)) => Ok(status_address(&parse_stored(row.data.as_str()))),
        Ok(None) => Err(ApiError::not_found("Host not found")),
        Err(fault) => Err(fault.plain("Failed to load host status: ")),
    }
}

// ---------------------------------------------------------------------------------------------
// Requests: documents
// ---------------------------------------------------------------------------------------------

/// The body that shows the host of a row.
pub open spec fn row_body(row: RecordRow, user_id: Seq<char>) -> JsonView {
    host_body(
        row.id as int,
        user_id,
        crate::json_text::stored_tree(row.data@),
        row.created_at as int,
        row.updated_at as int,
    )
}

/// Lets a user list its hosts.
pub fn list_hosts(auth: Result<UserResponse, ApiError>) -> (r: Result<Granted, ApiError>)
    ensures
        crate::documents::granted_view(r) == crate::documents::access(
            crate::sessions::auth_view(auth),
            |user: UserView| crate::documents::list_command(RecordKind::Host, user),
        ),
{
    list_records(RecordKind::Host, auth)
}

/// What a list of hosts comes to: every row is shown, in its order.
pub open spec fn hosts_outcome(rows: Result<Vec<RecordRow>, DbFault>, user_id: Seq<char>) -> Result<
    JsonView,
    ErrorView,
> {
    match rows {
        Ok(found) => Ok(
            JsonView::Array(found@.map_values(|row: RecordRow| row_body(row, user_id))),
        ),
        Err(fault) => Err(
            crate::store::list_fault(
                fault@,
                "Failed to prepare host query: "@,
                "Failed to query hosts: "@,
                "Failed to read host row: "@,
            ),
        ),
    }
}

/// Shows the hosts of a user, given the rows that were found.
pub fn list_hosts_reply(user: &UserResponse, rows: Result<Vec<RecordRow>, DbFault>) -> (r: Result<
    Json,
    ApiError,
>)
    ensures
        crate::error::outcome(r) == hosts_outcome(rows, user.user_id@),
{
    let found = match rows {
        Ok(found) => found,
        Err(fault) => return Err(
            fault.in_list(
                "Failed to prepare host query: ",
                "Failed to query hosts: ",
                "Failed to read host row: ",
            ),
        ),
    };
    let mut hosts: Vec<Json> = Vec::new();
    for i in 0..found.len()
        invariant
            hosts@.len() == i,
            forall|j: int|
                0 <= j < i ==> #[trigger] hosts@[j]@ == row_body(found@[j], user.user_id@),
    {
        let row = &found[i];
        hosts.push(
            host_json(
                row.id,
                user.user_id.as_str(),
                parse_stored(row.data.as_str()),
                row.created_at,
                row.updated_at,
            ),
        );
    }
    let ghost items = hosts@;
    let body = Json::Array(hosts);
    proof {
        let expected = found@.map_values(|row: RecordRow| row_body(row, user.user_id@));
        assert forall|j: int| 0 <= j < expected.len() implies body@->Array_0[j] == expected[j] by {
            assert(items[j]@ == row_body(found@[j], user.user_id@));
        }
        assert(body@->Array_0 =~= expected);
    }
    Ok(body)
}

/// What a request to create a host leads to.
pub open spec fn host_creation(
    auth: Result<UserView, ErrorView>,
    payload: JsonView,
    now: int,
) -> Result<(UserView, CommandView), ErrorView> {
    match auth {
        Ok(user) => if valid_host(payload) {
            Ok(
                (
                    user,
                    crate::documents::insert_command(
                        RecordKind::Host,
                        user,
                        crate::json_text::printed_json(payload),
                        now,
                    ),
                ),
            )
        } else {
            Err(crate::error::bad_request("Invalid SSH host data"@))
        },
        Err(error) => Err(error),
    }
}

/// Lets a user create a host.
pub fn create_host(auth: Result<UserResponse, ApiError>, payload: &Json, now: i64) -> (r: Result<
    Granted,
    ApiError,
>)
    ensures
        crate::documents::granted_view(r) == host_creation(
            crate::sessions::auth_view(auth),
            payload@,
            now as int,
        ),
        r is Ok && crate::json_text::readable(payload@) ==> crate::json_text::stored_tree(
            crate::json_text::printed_json(payload@),
        ) == payload@,
{
    let user = match auth {
        Ok(user) => user,
        Err(error) => return Err(error),
    };
    if let Err(error) = validate_host_payload(payload) {
        return Err(error);
    }
    let command = insert_record(RecordKind::Host, &user, print_json(payload), now);
    Ok(Granted { user, command })
}

/// Shows a host that was created, given the number that the database gave it.
pub fn create_host_reply(
    user: &UserResponse,
    payload: Json,
    stored: Result<i64, DbFault>,
    now: i64,
) -> (r: Result<Json, ApiError>)
    ensures
        crate::error::outcome(r) == match stored {
            Ok(id) => Ok::<JsonView, ErrorView>(
                host_body(id as int, user.user_id@, payload@, now as int, now as int),
            ),
            Err(fault) => Err(crate::store::plain_fault(fault@, "Failed to save host: "@)),
        },
{
    match stored {
        Ok(id) => Ok(host_json(id, user.user_id.as_str(), payload, now, now)),
        Err(fault) => Err(fault.plain("Failed to save host: ")),
    }
}

/// Lets a user get one of its hosts.
pub fn get_host(auth: Result<UserResponse, ApiError>, host_id: i64) -> (r: Result<
    Granted,
    ApiError,
>)
    ensures
        crate::documents::granted_view(r) == crate::documents::access(
            crate::sessions::auth_view(auth),
            |user: UserView| crate::documents::find_command(RecordKind::Host, host_id as int, user),
        ),
{
    find_record(RecordKind::Host, host_id, auth)
}

/// What a request for a host comes to.
pub open spec fn host_outcome(
    found: Result<Option<RecordRow>, DbFault>,
    host_id: int,
    user_id: Seq<char>,
) -> Result<JsonView, ErrorView> {
    match found {
        Ok(Some(row)) => Ok(
            host_body(
                host_id,
                user_id,
                crate::json_text::stored_tree(row.data@),
                row.created_at as int,
                row.updated_at as int,
            ),
        ),
        Ok(None) => Err(crate::error::not_found("Host not found"@)),
        Err(fault) => Err(crate::store::plain_fault(fault@, "Failed to load host: "@)),
    }
}

/// Shows a host, given the row that was found.
pub fn get_host_reply(
    user: &UserResponse,
    host_id: i64,
    found: Result<Option<RecordRow>, DbFault>,
) -> (r: Result<Json, ApiError>)
    ensures
        crate::error::outcome(r) == host_outcome(found, host_id as int, user.user_id@),
{
    match found {
        Ok(Some(row)) => Ok(
            host_json(
                host_id,
                user.user_id.as_str(),
                parse_stored(row.data.as_str()),
                row.created_at,
                row.updated_at,
            ),
        ),
        Ok(None) => Err(ApiError::not_found("Host not found")),
        Err(fault) => Err(fault.plain("Failed to load host: ")),
    }
}

/// Lets a user update one of its hosts: the stored one is looked up first.
pub fn update_host(auth: Result<UserResponse, ApiError>, host_id: i64) -> (r: Result<
    Granted,
    ApiError,
>)
    ensures
        crate::documents::granted_view(r) == crate::documents::access(
            crate::sessions::auth_view(auth),
            |user: UserView| crate::documents::find_command(RecordKind::Host, host_id as int, user),
        ),
{
    find_record(RecordKind::Host, host_id, auth)
}

/// What an update of a stored host leads to: the payload takes over the secrets that it leaves
/// out, is checked, and replaces the document.
pub open spec fn host_update(
    found: Result<Option<RecordRow>, DbFault>,
    host_id: int,
    user: UserView,
    payload: JsonView,
    now: int,
) -> Result<(JsonView, CommandView), ErrorView> {
    match found {
        Ok(Some(row)) => {
            let merged = merged_host(payload, crate::json_text::stored_tree(row.data@));
            if valid_host(merged) {
                Ok(
                    (
                        merged,
                        crate::documents::update_command(
                            RecordKind::Host,
                            host_id,
                            user,
                            crate::json_text::printed_json(merged),
                            now,
                        ),
                    ),
                )
            } else {
                Err(crate::error::bad_request("Invalid SSH host data"@))
            }
        },
        Ok(None) => Err(crate::error::not_found("Host not found"@)),
        Err(fault) => Err(crate::store::plain_fault(fault@, "Failed to load host: "@)),
    }
}

/// Updates a stored host, given the row that was found.
pub fn update_host_merge(
    user: &UserResponse,
    host_id: i64,
    payload: Json,
    found: Result<Option<RecordRow>, DbFault>,
    now: i64,
) -> (r: Result<RecordUpdate, ApiError>)
    ensures
        crate::documents::update_view(r) == host_update(
            found,
            host_id as int,
            user@,
            payload@,
            now as int,
        ),
        r matches Ok(update) ==> (crate::json_text::readable(update.payload@)
            ==> crate::json_text::stored_tree(crate::json_text::printed_json(update.payload@))
            == update.payload@),
{
    let row = match found {
        Ok(Some(row)) => row,
        Ok(None) => return Err(ApiError::not_found("Host not found")),
        Err(fault) => return Err(fault.plain("Failed to load host: ")),
    };
    let existing = parse_stored(row.data.as_str());
    let mut merged = payload;
    merge_preserved_host_fields(&mut merged, &existing);
    if let Err(error) = validate_host_payload(&merged) {
        return Err(error);
    }
    let command = update_record(RecordKind::Host, host_id, user, print_json(&merged), now);
    Ok(RecordUpdate { payload: merged, command })
}

/// Shows a host that was updated, given how many rows the update changed.
pub fn update_host_reply(
    user: &UserResponse,
    host_id: i64,
    payload: Json,
    updated: Result<usize, DbFault>,
    now: i64,
) -> (r: Result<Json, ApiError>)
    ensures
        crate::error::outcome(r) == match updated {
            Ok(count) => if count == 0 {
                Err::<JsonView, ErrorView>(crate::error::not_found("Host not found"@))
            } else {
                Ok(host_body(host_id as int, user.user_id@, payload@, now as int, now as int))
            },
            Err(fault) => Err(crate::store::plain_fault(fault@, "Failed to update host: "@)),
        },
{
    match updated {
        Ok(count) => if count == 0 {
            Err(ApiError::not_found("Host not found"))
        } else {
            Ok(host_json(host_id, user.user_id.as_str(), payload, now, now))
        },
        Err(fault) => Err(fault.plain("Failed to update host: ")),
    }
}

/// Lets a user delete one of its hosts.
pub fn delete_host(auth: Result<UserResponse, ApiError>, host_id: i64) -> (r: Result<
    Granted,
    ApiError,
>)
    ensures
        crate::documents::granted_view(r) == crate::documents::access(
            crate::sessions::auth_view(auth),
            |user: UserView|
                crate::documents::delete_command(RecordKind::Host, host_id as int, user),
        ),
{
    delete_record(RecordKind::Host, host_id, auth)
}

/// Answers the deletion of a host, whether it was there or not.
pub fn delete_host_reply(deleted: Result<(), DbFault>) -> (r: Result<Json, ApiError>)
    ensures
        crate::error::outcome(r) == match deleted {
            Ok(_) => Ok::<JsonView, ErrorView>(crate::documents::success_body()),
            Err(fault) => Err(crate::store::plain_fault(fault@, "Failed to delete host: "@)),
        },
{
    match deleted {
        Ok(_) => Ok(success()),
        Err(fault) => Err(fault.plain("Failed to delete host: ")),
    }
}

/// The answer to a request for the password of a host that is shown.
pub open spec fn password_body(shown: JsonView) -> JsonView {
    JsonView::Object(
        map![
            "value"@ => JsonView::Text(
                match shown.text_at("password"@) {
                    Some(password) => password,
                    None => ""@,
                },
            ),
        ],
    )
}

/// The password of a host that is shown, empty where it has none.
pub fn host_password(host: Result<Json, ApiError>) -> (r: Result<Json, ApiError>)
    ensures
        crate::error::outcome(r) == match crate::error::outcome(host) {
            Ok(shown) => Ok::<JsonView, ErrorView>(
                JsonView::Object(
                    map![
                        "value"@ => JsonView::Text(
                            match shown.text_at("password"@) {
                                Some(password) => password,
                                None => ""@,
                            },
                        ),
                    ],
                ),
            ),
            Err(error) => Err(error),
        },
        host matches Ok(shown) ==> (r matches Ok(body) && body@ == password_body(shown@)),
{
    match host {
        Ok(shown) => {
            let password: &str = match shown.text_at("password") {
                Some(password) => password,
                None => "",
            };
            Ok(Json::Object(JsonObject::new().with("value", Json::from_text(password))))
        },
        Err(error) => Err(error),
    }
}

/// The hosts of a user for export.
pub fn export_hosts(hosts: Result<Json, ApiError>) -> (r: Result<Json, ApiError>)
    ensures
        crate::error::outcome(r) == match crate::error::outcome(hosts) {
            Ok(shown) => Ok::<JsonView, ErrorView>(JsonView::Object(map!["hosts"@ => shown])),
            Err(error) => Err(error),
        },
{
    match hosts {
        Ok(shown) => Ok(Json::Object(JsonObject::new().with("hosts", shown))),
        Err(error) => Err(error),
    }
}

// ---------------------------------------------------------------------------------------------
// Laws
// ---------------------------------------------------------------------------------------------

/// The members that showing a host computes, whatever is stored under them.
pub open spec fn computed_member(key: Seq<char>) -> bool {
    ||| key == "id"@
    ||| key == "userId"@
    ||| key == "createdAt"@
    ||| key == "updatedAt"@
    ||| key == "hasPassword"@
    ||| key == "hasKey"@
    ||| key == "hasSudoPassword"@
}

/// Showing a host keeps everything that is stored, but for the members that it computes.
pub proof fn showing_keeps_stored_members(
    id: int,
    user_id: Seq<char>,
    stored: Fields,
    created_at: int,
    updated_at: int,
    key: Seq<char>,
)
    requires
        stored.contains_key(key),
        !computed_member(key),
    ensures
        shown_host(id, user_id, stored, created_at, updated_at).contains_key(key),
        shown_host(id, user_id, stored, created_at, updated_at)[key] == stored[key],
{
    let numbered = stored.insert("id"@, JsonView::Number(NumberView::Integer(id))).insert(
        "userId"@,
        JsonView::Text(user_id),
    );
    crate::records::defaults_keep_what_is_there(numbered, host_defaults(), key);
}

/// A shown host has a value for every member that has a default.
pub proof fn showing_fills_every_default(
    id: int,
    user_id: Seq<char>,
    stored: Fields,
    created_at: int,
    updated_at: int,
    i: int,
)
    requires
        0 <= i < host_defaults().len(),
    ensures
        shown_host(id, user_id, stored, created_at, updated_at).contains_key(host_defaults()[i].0),
{
    let numbered = stored.insert("id"@, JsonView::Number(NumberView::Integer(id))).insert(
        "userId"@,
        JsonView::Text(user_id),
    );
    crate::records::defaults_fill_every_key(numbered, host_defaults(), i);
}

/// The flags of a shown host tell which secrets it has.
pub proof fn flags_tell_the_secrets(
    id: int,
    user_id: Seq<char>,
    stored: JsonView,
    created_at: int,
    updated_at: int,
)
    ensures
        ({
            let body = host_body(id, user_id, stored, created_at, updated_at);
            let fields = stored.fields_or_empty();
            &&& body.bool_at("hasPassword"@) == Some(crate::records::has_text(fields, "password"@))
            &&& body.bool_at("hasKey"@) == Some(crate::records::has_text(fields, "key"@))
            &&& body.bool_at("hasSudoPassword"@) == Some(
                crate::records::has_text(fields, "sudoPassword"@),
            )
        }),
{
    lemma_computed_keys_differ();
}

proof fn lemma_computed_keys_differ()
    ensures
        "createdAt"@ != "updatedAt"@,
        "createdAt"@ != "hasPassword"@,
        "createdAt"@ != "hasKey"@,
        "createdAt"@ != "hasSudoPassword"@,
        "hasPassword"@ != "hasKey"@,
        "hasPassword"@ != "hasSudoPassword"@,
        "hasKey"@ != "hasSudoPassword"@,
{
    reveal_strlit("createdAt");
    reveal_strlit("updatedAt");
    reveal_strlit("hasPassword");
    reveal_strlit("hasKey");
    reveal_strlit("hasSudoPassword");
    assert("createdAt"@[0] != "updatedAt"@[0]);
    assert("createdAt"@.len() == 9);
    assert("hasPassword"@.len() == 11);
    assert("hasKey"@.len() == 6);
    assert("hasSudoPassword"@.len() == 15);
}

/// A host that was updated is found as it was shown, but for the time of its creation: the row
/// keeps that, and the answer to the update gives the time of the update instead.
pub proof fn updated_host_is_found_as_shown(
    user: UserView,
    payload: JsonView,
    row: RecordRow,
    now: int,
)
    requires
        row.data@ == crate::json_text::printed_json(payload),
        row.updated_at == now,
        crate::json_text::stored_tree(crate::json_text::printed_json(payload)) == payload,
    ensures
        row_body(row, user.user_id) == JsonView::Object(
            host_body(row.id as int, user.user_id, payload, now, now).fields_or_empty().insert(
                "createdAt"@,
                JsonView::Text(crate::text::decimal(row.created_at as int)),
            ),
        ),
{
    lemma_computed_keys_differ();
    let found = row_body(row, user.user_id).fields_or_empty();
    let told = host_body(row.id as int, user.user_id, payload, now, now).fields_or_empty().insert(
        "createdAt"@,
        JsonView::Text(crate::text::decimal(row.created_at as int)),
    );
    assert(found =~= told);
}

/// A member of an updated host is the one that was sent, or the stored text of a secret that
/// was left out; the settings of the terminal apart, which are updated by the same rule.
pub proof fn updating_takes_payload_or_stored_secret(payload: Fields, existing: Fields, key: Seq<char>)
    requires
        key != "terminalConfig"@,
    ensures
        ({
            let merged = merged_host(JsonView::Object(payload), JsonView::Object(existing));
            let kept = kept_secrets(merged_auth_type(payload, existing)).contains(key)
                && crate::records::left_out(payload, key) && crate::records::has_text(existing, key);
            merged.member(key) == if kept {
                Some(existing[key])
            } else {
                JsonView::Object(payload).member(key)
            }
        }),
{
    let secrets = kept_secrets(merged_auth_type(payload, existing));
    crate::records::preserving_works_field_by_field(payload, existing, secrets, key);
}

/// A host that is logged in to by password keeps its password when an update leaves it out.
pub proof fn updating_keeps_left_out_password(payload: Fields, existing: Fields)
    requires
        merged_auth_type(payload, existing) == "password"@,
        crate::records::left_out(payload, "password"@),
        crate::records::has_text(existing, "password"@),
    ensures
        merged_host(JsonView::Object(payload), JsonView::Object(existing)).text_at("password"@)
            == crate::json::field_text(existing, "password"@),
{
    reveal_strlit("password");
    reveal_strlit("terminalConfig");
    assert("password"@.len() != "terminalConfig"@.len());
    assert(kept_secrets("password"@)[0] == "password"@);
    updating_takes_payload_or_stored_secret(payload, existing, "password"@);
}

/// A host that is logged in to by key keeps its key when an update leaves it out.
pub proof fn updating_keeps_left_out_key(payload: Fields, existing: Fields)
    requires
        merged_auth_type(payload, existing) == "key"@,
        crate::records::left_out(payload, "key"@),
        crate::records::has_text(existing, "key"@),
    ensures
        merged_host(JsonView::Object(payload), JsonView::Object(existing)).text_at("key"@)
            == crate::json::field_text(existing, "key"@),
{
    reveal_strlit("password");
    reveal_strlit("key");
    reveal_strlit("terminalConfig");
    assert("key"@.len() == 3);
    assert("password"@.len() == 8);
    assert("terminalConfig"@.len() == 14);
    assert(kept_secrets("key"@)[0] == "key"@);
    updating_takes_payload_or_stored_secret(payload, existing, "key"@);
}

/// Sending a host back as it is stored changes nothing.
pub proof fn updating_by_itself_changes_nothing(host: JsonView)
    ensures
        merged_host(host, host) == host,
{
    if let JsonView::Object(fields) = host {
        let secrets = kept_secrets(merged_auth_type(fields, fields));
        let kept = crate::records::preserved_all(fields, fields, secrets);
        crate::records::preserving_from_itself_changes_nothing(fields, secrets);
        assert(kept == fields);
        if let Some(JsonView::Object(terminal)) = host.member("terminalConfig"@) {
            crate::records::preserving_field_from_itself(terminal, "sudoPassword"@);
            assert(with_terminal_secret(fields, fields) =~= fields);
        }
    }
}

/// A host that is checked has an address to probe.
pub proof fn valid_hosts_can_be_probed(payload: JsonView)
    requires
        valid_host(payload),
    ensures
        probe_target(payload) is Some,
{
}

/// The names of the members that showing a host computes or fills in are all different.
proof fn lemma_member_names()
    ensures
        "connectionType"@.len() == 14,
        "connectionType"@[0] == 'c',
        "name"@.len() == 4,
        "name"@[0] == 'n',
        "folder"@.len() == 6,
        "folder"@[0] == 'f',
        "tags"@.len() == 4,
        "tags"@[0] == 't',
        "pin"@.len() == 3,
        "authType"@.len() == 8,
        "enableTerminal"@.len() == 14,
        "enableTerminal"@[0] == 'e',
        "enableTunnel"@.len() == 12,
        "enableTunnel"@[6] == 'T',
        "enableFileManager"@.len() == 17,
        "enableFileManager"@[0] == 'e',
        "enableDocker"@.len() == 12,
        "enableDocker"@[6] == 'D',
        "showTerminalInSidebar"@.len() == 21,
        "showFileManagerInSidebar"@.len() == 24,
        "showFileManagerInSidebar"@[4] == 'F',
        "showTunnelInSidebar"@.len() == 19,
        "showTunnelInSidebar"@[4] == 'T',
        "showDockerInSidebar"@.len() == 19,
        "showDockerInSidebar"@[4] == 'D',
        "showServerStatsInSidebar"@.len() == 24,
        "showServerStatsInSidebar"@[4] == 'S',
        "defaultPath"@.len() == 11,
        "defaultPath"@[0] == 'd',
        "tunnelConnections"@.len() == 17,
        "tunnelConnections"@[0] == 't',
        "jumpHosts"@.len() == 9,
        "jumpHosts"@[0] == 'j',
        "quickActions"@.len() == 12,
        "quickActions"@[6] == 'c',
        "id"@.len() == 2,
        "userId"@.len() == 6,
        "userId"@[0] == 'u',
        "createdAt"@.len() == 9,
        "createdAt"@[0] == 'c',
        "updatedAt"@.len() == 9,
        "updatedAt"@[0] == 'u',
        "hasPassword"@.len() == 11,
        "hasPassword"@[0] == 'h',
        "hasKey"@.len() == 6,
        "hasKey"@[0] == 'h',
        "hasSudoPassword"@.len() == 15,
{
    reveal_strlit("connectionType");
    reveal_strlit("name");
    reveal_strlit("folder");
    reveal_strlit("tags");
    reveal_strlit("pin");
    reveal_strlit("authType");
    reveal_strlit("enableTerminal");
    reveal_strlit("enableTunnel");
    reveal_strlit("enableFileManager");
    reveal_strlit("enableDocker");
    reveal_strlit("showTerminalInSidebar");
    reveal_strlit("showFileManagerInSidebar");
    reveal_strlit("showTunnelInSidebar");
    reveal_strlit("showDockerInSidebar");
    reveal_strlit("showServerStatsInSidebar");
    reveal_strlit("defaultPath");
    reveal_strlit("tunnelConnections");
    reveal_strlit("jumpHosts");
    reveal_strlit("quickActions");
    reveal_strlit("id");
    reveal_strlit("userId");
    reveal_strlit("createdAt");
    reveal_strlit("updatedAt");
    reveal_strlit("hasPassword");
    reveal_strlit("hasKey");
    reveal_strlit("hasSudoPassword");
}

/// A shown host carries the number of its row, its owner and the two times of the row in
/// decimal, whatever is stored under these names.
pub proof fn shown_hosts_carry_their_row(
    id: int,
    user_id: Seq<char>,
    stored: JsonView,
    created_at: int,
    updated_at: int,
)
    ensures
        ({
            let body = host_body(id, user_id, stored, created_at, updated_at);
            &&& body is Object
            &&& body.integer_at("id"@) == Some(id)
            &&& body.text_at("userId"@) == Some(user_id)
            &&& body.text_at("createdAt"@) == Some(crate::text::decimal(created_at))
            &&& body.text_at("updatedAt"@) == Some(crate::text::decimal(updated_at))
        }),
{
    lemma_member_names();
    let numbered = stored.fields_or_empty().insert(
        "id"@,
        JsonView::Number(NumberView::Integer(id)),
    ).insert("userId"@, JsonView::Text(user_id));
    crate::records::defaults_keep_what_is_there(numbered, host_defaults(), "id"@);
    crate::records::defaults_keep_what_is_there(numbered, host_defaults(), "userId"@);
}

/// A host that says nothing of it is shown with these: it is reached by SSH, has no name, folder
/// or tags, is not pinned and logs in by no way; it has a terminal, tunnels and files but no
/// containers; and of these the sidebar shows the terminal alone.
pub proof fn hosts_are_shown_with_these_defaults(
    id: int,
    user_id: Seq<char>,
    stored: Fields,
    created_at: int,
    updated_at: int,
)
    ensures
        ({
            let shown = shown_host(id, user_id, stored, created_at, updated_at);
            &&& !stored.contains_key("connectionType"@) ==> shown["connectionType"@]
                == JsonView::Text("ssh"@)
            &&& !stored.contains_key("name"@) ==> shown["name"@] == JsonView::Text(""@)
            &&& !stored.contains_key("folder"@) ==> shown["folder"@] == JsonView::Text(""@)
            &&& !stored.contains_key("tags"@) ==> shown["tags"@] == JsonView::Array(Seq::empty())
            &&& !stored.contains_key("pin"@) ==> shown["pin"@] == JsonView::Bool(false)
            &&& !stored.contains_key("authType"@) ==> shown["authType"@] == JsonView::Text("none"@)
            &&& !stored.contains_key("enableTerminal"@) ==> shown["enableTerminal"@]
                == JsonView::Bool(true)
            &&& !stored.contains_key("enableTunnel"@) ==> shown["enableTunnel"@]
                == JsonView::Bool(true)
            &&& !stored.contains_key("enableFileManager"@) ==> shown["enableFileManager"@]
                == JsonView::Bool(true)
            &&& !stored.contains_key("enableDocker"@) ==> shown["enableDocker"@]
                == JsonView::Bool(false)
            &&& !stored.contains_key("showTerminalInSidebar"@) ==> shown["showTerminalInSidebar"@]
                == JsonView::Bool(true)
            &&& !stored.contains_key("showFileManagerInSidebar"@) ==> shown["showFileManagerInSidebar"@]
                == JsonView::Bool(false)
            &&& !stored.contains_key("showTunnelInSidebar"@) ==> shown["showTunnelInSidebar"@]
                == JsonView::Bool(false)
            &&& !stored.contains_key("showDockerInSidebar"@) ==> shown["showDockerInSidebar"@]
                == JsonView::Bool(false)
            &&& !stored.contains_key("showServerStatsInSidebar"@) ==> shown["showServerStatsInSidebar"@]
                == JsonView::Bool(false)
            &&& !stored.contains_key("defaultPath"@) ==> shown["defaultPath"@]
                == JsonView::Text("/"@)
            &&& !stored.contains_key("tunnelConnections"@) ==> shown["tunnelConnections"@]
                == JsonView::Array(Seq::empty())
            &&& !stored.contains_key("jumpHosts"@) ==> shown["jumpHosts"@]
                == JsonView::Array(Seq::empty())
            &&& !stored.contains_key("quickActions"@) ==> shown["quickActions"@]
                == JsonView::Array(Seq::empty())
        }),
{
    lemma_member_names();
    let numbered = stored.insert("id"@, JsonView::Number(NumberView::Integer(id))).insert(
        "userId"@,
        JsonView::Text(user_id),
    );
    if !stored.contains_key("connectionType"@) {
        crate::records::defaults_give_their_values(numbered, host_defaults(), 0);
    }
    if !stored.contains_key("name"@) {
        crate::records::defaults_give_their_values(numbered, host_defaults(), 1);
    }
    if !stored.contains_key("folder"@) {
        crate::records::defaults_give_their_values(numbered, host_defaults(), 2);
    }
    if !stored.contains_key("tags"@) {
        crate::records::defaults_give_their_values(numbered, host_defaults(), 3);
    }
    if !stored.contains_key("pin"@) {
        crate::records::defaults_give_their_values(numbered, host_defaults(), 4);
    }
    if !stored.contains_key("authType"@) {
        crate::records::defaults_give_their_values(numbered, host_defaults(), 5);
    }
    if !stored.contains_key("enableTerminal"@) {
        crate::records::defaults_give_their_values(numbered, host_defaults(), 6);
    }
    if !stored.contains_key("enableTunnel"@) {
        crate::records::defaults_give_their_values(numbered, host_defaults(), 7);
    }
    if !stored.contains_key("enableFileManager"@) {
        crate::records::defaults_give_their_values(numbered, host_defaults(), 8);
    }
    if !stored.contains_key("enableDocker"@) {
        crate::records::defaults_give_their_values(numbered, host_defaults(), 9);
    }
    if !stored.contains_key("showTerminalInSidebar"@) {
        crate::records::defaults_give_their_values(numbered, host_defaults(), 10);
    }
    if !stored.contains_key("showFileManagerInSidebar"@) {
        crate::records::defaults_give_their_values(numbered, host_defaults(), 11);
    }
    if !stored.contains_key("showTunnelInSidebar"@) {
        crate::records::defaults_give_their_values(numbered, host_defaults(), 12);
    }
    if !stored.contains_key("showDockerInSidebar"@) {
        crate::records::defaults_give_their_values(numbered, host_defaults(), 13);
    }
    if !stored.contains_key("showServerStatsInSidebar"@) {
        crate::records::defaults_give_their_values(numbered, host_defaults(), 14);
    }
    if !stored.contains_key("defaultPath"@) {
        crate::records::defaults_give_their_values(numbered, host_defaults(), 15);
    }
    if !stored.contains_key("tunnelConnections"@) {
        crate::records::defaults_give_their_values(numbered, host_defaults(), 16);
    }
    if !stored.contains_key("jumpHosts"@) {
        crate::records::defaults_give_their_values(numbered, host_defaults(), 17);
    }
    if !stored.contains_key("quickActions"@) {
        crate::records::defaults_give_their_values(numbered, host_defaults(), 18);
    }
}

/// A shown host has no members but those that are stored, those that have a default and those
/// that showing it computes.
pub proof fn showing_a_host_adds_nothing_else(
    id: int,
    user_id: Seq<char>,
    stored: Fields,
    created_at: int,
    updated_at: int,
    key: Seq<char>,
)
    requires
        shown_host(id, user_id, stored, created_at, updated_at).contains_key(key),
        !stored.contains_key(key),
        !computed_member(key),
    ensures
        exists|i: int| 0 <= i < host_defaults().len() && #[trigger] host_defaults()[i].0 == key,
{
    let numbered = stored.insert("id"@, JsonView::Number(NumberView::Integer(id))).insert(
        "userId"@,
        JsonView::Text(user_id),
    );
    if forall|i: int| 0 <= i < host_defaults().len() ==> #[trigger] host_defaults()[i].0 != key {
        crate::records::defaults_add_only_their_keys(numbered, host_defaults(), key);
    }
}

/// The names of the secrets of a host and of the ways to log in are all different.
proof fn lemma_secret_names()
    ensures
        "password"@.len() == 8,
        "password"@[0] == 'p',
        "sudoPassword"@.len() == 12,
        "key"@.len() == 3,
        "keyPassword"@.len() == 11,
        "keyType"@.len() == 7,
        "terminalConfig"@.len() == 14,
        "none"@.len() == 4,
        "authType"@.len() == 8,
        "authType"@[0] == 'a',
{
    reveal_strlit("password");
    reveal_strlit("sudoPassword");
    reveal_strlit("key");
    reveal_strlit("keyPassword");
    reveal_strlit("keyType");
    reveal_strlit("terminalConfig");
    reveal_strlit("none");
    reveal_strlit("authType");
}

/// Whether an update lets a host be logged in to in a way: it says so itself, or says nothing and
/// the stored host does.
pub open spec fn logs_in_by(payload: Fields, existing: Fields, way: Seq<char>) -> bool {
    let sent = JsonView::Object(payload).member("authType"@);
    let stored = JsonView::Object(existing).member("authType"@);
    sent == Some(JsonView::Text(way)) || (!(sent matches Some(JsonView::Text(_))) && stored
        == Some(JsonView::Text(way)))
}

/// A host never loses a sudo password, a login by password never its password, and a login by
/// key never its key, passphrase or type, because an update leaves them out: the merged host has
/// the very text that is stored.
pub proof fn updating_loses_no_secret(payload: Fields, existing: Fields, text: Seq<char>)
    requires
        text.len() > 0,
    ensures
        ({
            let merged = merged_host(JsonView::Object(payload), JsonView::Object(existing));
            let kept = |key: Seq<char>|
                crate::records::left_out(payload, key) && existing.contains_key(key)
                    && existing[key] == JsonView::Text(text) ==> merged.text_at(key) == Some(text);
            &&& kept("sudoPassword"@)
            &&& logs_in_by(payload, existing, "password"@) ==> kept("password"@)
            &&& logs_in_by(payload, existing, "key"@) ==> kept("key"@) && kept("keyPassword"@)
                && kept("keyType"@)
        }),
{
    lemma_secret_names();
    let way = merged_auth_type(payload, existing);
    let secrets = kept_secrets(way);
    if way == "password"@ {
        assert(secrets[0] == "password"@ && secrets[1] == "sudoPassword"@);
    } else if way == "key"@ {
        assert(secrets[0] == "key"@ && secrets[1] == "keyPassword"@ && secrets[2] == "keyType"@
            && secrets[3] == "sudoPassword"@);
    } else {
        assert(secrets[0] == "sudoPassword"@);
    }
    updating_takes_payload_or_stored_secret(payload, existing, "sudoPassword"@);
    updating_takes_payload_or_stored_secret(payload, existing, "password"@);
    updating_takes_payload_or_stored_secret(payload, existing, "key"@);
    updating_takes_payload_or_stored_secret(payload, existing, "keyPassword"@);
    updating_takes_payload_or_stored_secret(payload, existing, "keyType"@);
}

/// An update takes nothing else from the stored host: whatever is sent stays as it was sent, and
/// what is not sent is gone, unless it is a secret of the way to log in, or the settings of the
/// terminal.
pub proof fn updating_takes_nothing_else_over(payload: Fields, existing: Fields, key: Seq<char>)
    requires
        key != "terminalConfig"@,
        !crate::records::left_out(payload, key) || (key != "sudoPassword"@ && !(key == "password"@
            && logs_in_by(payload, existing, "password"@)) && !((key == "key"@ || key
            == "keyPassword"@ || key == "keyType"@) && logs_in_by(payload, existing, "key"@))),
    ensures
        merged_host(JsonView::Object(payload), JsonView::Object(existing)).member(key)
            == JsonView::Object(payload).member(key),
{
    lemma_secret_names();
    updating_takes_payload_or_stored_secret(payload, existing, key);
    let secrets = kept_secrets(merged_auth_type(payload, existing));
    if secrets.contains(key) {
        let i = choose|i: int| 0 <= i < secrets.len() && secrets[i] == key;
        assert(secrets[i] == key);
    }
}

/// The settings of the terminal are those that are sent; only their sudo password is taken from
/// the stored settings where it is left out.
pub proof fn updating_keeps_the_terminal_secret(
    payload: Fields,
    existing: Fields,
    sent: Fields,
    stored: Fields,
    text: Seq<char>,
    key: Seq<char>,
)
    requires
        payload.contains_key("terminalConfig"@) && payload["terminalConfig"@] == JsonView::Object(
            sent,
        ),
        existing.contains_key("terminalConfig"@) && existing["terminalConfig"@]
            == JsonView::Object(stored),
        stored.contains_key("sudoPassword"@) && stored["sudoPassword"@] == JsonView::Text(text),
        text.len() > 0,
        key != "sudoPassword"@,
    ensures
        ({
            let merged = merged_host(JsonView::Object(payload), JsonView::Object(existing)).member(
                "terminalConfig"@,
            );
            &&& merged matches Some(JsonView::Object(settings)) && JsonView::Object(
                settings,
            ).member(key) == JsonView::Object(sent).member(key) && JsonView::Object(
                settings,
            ).member("sudoPassword"@) == if crate::records::left_out(sent, "sudoPassword"@) {
                Some(JsonView::Text(text))
            } else {
                JsonView::Object(sent).member("sudoPassword"@)
            }
        }),
{
    lemma_secret_names();
    let secrets = kept_secrets(merged_auth_type(payload, existing));
    crate::records::preserving_works_field_by_field(payload, existing, secrets, "terminalConfig"@);
    if secrets.contains("terminalConfig"@) {
        let i = choose|i: int| 0 <= i < secrets.len() && secrets[i] == "terminalConfig"@;
        assert(secrets[i] == "terminalConfig"@);
    }
}

/// A payload or a stored document that is no object is not merged: the payload stays.
pub proof fn only_objects_are_merged(payload: JsonView, existing: JsonView)
    requires
        !(payload is Object) || !(existing is Object),
    ensures
        merged_host(payload, existing) == payload,
{
}

/// A payload is a host just where it has an address with a character that is no white space and
/// an integer port from 1 to 65535.
pub proof fn hosts_need_an_address_and_a_port(payload: JsonView)
    ensures
        valid_host(payload) <==> (exists|ip: Seq<char>, i: int|
            payload.member("ip"@) == Some(JsonView::Text(ip)) && 0 <= i < ip.len()
                && !crate::text::white_space(#[trigger] ip[i])) && (exists|port: int|
            payload.member("port"@) == Some(
                JsonView::Number(NumberView::Integer(port)),
            ) && #[trigger] port_number(port)),
        forall|n: int| #[trigger] port_number(n) <==> 1 <= n <= 65535,
{
    if let Some(ip) = payload.text_at("ip"@) {
        crate::text::blank_texts_trim_to_nothing(ip);
        assert(payload.member("ip"@) == Some(JsonView::Text(ip)));
        if crate::text::trimmed(ip).len() > 0 {
            let i = choose|i: int|
                0 <= i < ip.len() && !crate::text::white_space(#[trigger] ip[i]);
            assert(!crate::text::white_space(ip[i]));
        }
    }
    if let Some(port) = payload.integer_at("port"@) {
        assert(payload.member("port"@) == Some(JsonView::Number(NumberView::Integer(port))));
    }
}

/// A host is probed at its own port: the address is that of the host without the white space
/// around it, a colon and the digits of the port, and there is none without a port from 1 to
/// 65535.
pub proof fn hosts_are_probed_at_their_port(payload: JsonView, ip: Seq<char>, port: int)
    requires
        payload.member("ip"@) == Some(JsonView::Text(ip)),
        payload.member("port"@) == Some(JsonView::Number(NumberView::Integer(port))),
    ensures
        probe_target(payload) is Some <==> 1 <= port <= 65535,
        probe_target(payload) matches Some(address) ==> {
            let at = crate::text::trimmed(ip).len() as int;
            &&& address.take(at) == crate::text::trimmed(ip)
            &&& at < address.len() && address[at] == ':'
            &&& crate::text::digits_value(address.skip(at + 1)) == port
            &&& address.skip(at + 1) == crate::text::decimal(port)
        },
{
    reveal_strlit(":");
    let at = crate::text::trimmed(ip).len() as int;
    crate::text::decimals_read_back(port);
    if let Some(address) = probe_target(payload) {
        assert(address.take(at) =~= crate::text::trimmed(ip));
        assert(address.skip(at + 1) =~= crate::text::decimal(port));
    }
}

/// Two hosts with the same address and different ports are probed at different addresses.
pub proof fn different_ports_are_probed_apart(
    a: JsonView,
    b: JsonView,
    ip: Seq<char>,
    port_a: int,
    port_b: int,
)
    requires
        a.member("ip"@) == Some(JsonView::Text(ip)),
        b.member("ip"@) == Some(JsonView::Text(ip)),
        a.member("port"@) == Some(JsonView::Number(NumberView::Integer(port_a))),
        b.member("port"@) == Some(JsonView::Number(NumberView::Integer(port_b))),
        1 <= port_a <= 65535,
        1 <= port_b <= 65535,
        port_a != port_b,
    ensures
        probe_target(a) is Some,
        probe_target(a) != probe_target(b),
{
    hosts_are_probed_at_their_port(a, ip, port_a);
    hosts_are_probed_at_their_port(b, ip, port_b);
}

/// The status check of a host is off just where its settings say so: by a `statusCheckEnabled`
/// that is false, or by a `disableTcpPing` that is true. The settings are an object, or a text
/// that reads as JSON; a host that is not checked is tried nowhere, and one that is checked at
/// its address.
pub proof fn settings_switch_the_check_off(payload: JsonView, settings: JsonView)
    requires
        payload.member("statsConfig"@) == Some(settings) && settings is Object || (payload.member(
            "statsConfig"@,
        ) matches Some(JsonView::Text(raw)) && crate::json_text::parsed_json(raw) == Ok::<
            JsonView,
            Seq<char>,
        >(settings)),
    ensures
        status_probe(payload) == if settings.member("statusCheckEnabled"@) == Some(
            JsonView::Bool(false),
        ) || settings.member("disableTcpPing"@) == Some(JsonView::Bool(true)) {
            None
        } else {
            probe_target(payload)
        },
{
}

/// A host without settings that can be read is checked.
pub proof fn hosts_are_checked_unless_settings_say_otherwise(payload: JsonView)
    requires
        match payload.member("statsConfig"@) {
            Some(JsonView::Object(_)) => false,
            Some(JsonView::Text(raw)) => crate::json_text::parsed_json(raw) is Err,
            _ => true,
        },
    ensures
        status_probe(payload) == probe_target(payload),
{
}

/// A probe tries the addresses in their order, four at most, and stops at the first that
/// answers.
pub proof fn probes_try_four_addresses_in_order(answers: Seq<bool>, addresses: int, place: usize)
    requires
        0 <= addresses,
        next_probe(answers, addresses) == ProbeStep::Connect(place),
    ensures
        place == answers.len(),
        place < addresses,
        place < 4,
        forall|i: int| 0 <= i < answers.len() ==> !#[trigger] answers[i],
{
    assert forall|i: int| 0 <= i < answers.len() implies !#[trigger] answers[i] by {
        if answers[i] {
            assert(answers[i] == true);
            assert(answers.contains(true));
        }
    }
}

/// A probe that has not found the host and has addresses left goes on.
pub proof fn probes_go_on(answers: Seq<bool>, addresses: int)
    requires
        answers.len() < addresses,
        answers.len() < 4,
        forall|i: int| 0 <= i < answers.len() ==> !#[trigger] answers[i],
    ensures
        next_probe(answers, addresses) is Connect,
{
    if answers.contains(true) {
        let i = choose|i: int| 0 <= i < answers.len() && answers[i] == true;
        assert(answers[i]);
    }
}

/// The status of a host is `online` just where it answered, and tells the time of the check.
pub proof fn statuses_tell_what_was_found(online: bool, checked_at: int)
    ensures
        status_body(online, checked_at).text_at("status"@) == Some(
            if online {
                "online"@
            } else {
                "offline"@
            },
        ),
        status_body(online, checked_at).text_at("lastChecked"@) == Some(
            crate::text::decimal(checked_at),
        ),
        status_body(true, checked_at) != status_body(false, checked_at),
{
    reveal_strlit("status");
    reveal_strlit("lastChecked");
    reveal_strlit("online");
    reveal_strlit("offline");
    assert("status"@.len() != "lastChecked"@.len());
    assert("online"@.len() != "offline"@.len());
    assert(status_body(true, checked_at).text_at("status"@) != status_body(
        false,
        checked_at,
    ).text_at("status"@));
}

/// A host is shown alone as it is shown in a list, and one that is not there is refused with
/// status 404.
pub proof fn hosts_are_shown_alike(row: RecordRow, user_id: Seq<char>)
    ensures
        host_outcome(Ok(Some(row)), row.id as int, user_id) == Ok::<JsonView, ErrorView>(
            row_body(row, user_id),
        ),
        host_outcome(Ok(None), row.id as int, user_id) matches Err(error) && error.status == 404,
{
}

/// A payload that is no host is refused with status 400 and nothing is stored; any other is
/// stored as it was sent, for the user who sent it.
pub proof fn only_hosts_are_stored(user: UserView, payload: JsonView, now: int)
    ensures
        !valid_host(payload) ==> (host_creation(Ok(user), payload, now) matches Err(error)
            && error.status == 400),
        valid_host(payload) ==> (host_creation(Ok(user), payload, now) matches Ok((owner, command))
            && owner == user && (command matches CommandView::InsertRecord {
            kind,
            user_id,
            data,
            created_at,
            updated_at,
        } && kind == RecordKind::Host && user_id == user.user_id && data
            == crate::json_text::printed_json(payload) && created_at == now && updated_at == now)),
{
}

/// An update stores the merged host in the place of the one that was found, and refuses what
/// would be no host.
pub proof fn updates_replace_what_was_found(
    row: RecordRow,
    id: int,
    user: UserView,
    payload: JsonView,
    now: int,
)
    ensures
        ({
            let merged = merged_host(payload, crate::json_text::stored_tree(row.data@));
            match host_update(Ok(Some(row)), id, user, payload, now) {
                Ok((shown, command)) => valid_host(merged) && shown == merged && (command matches
                    CommandView::UpdateRecord { kind, id: number, user_id, data, updated_at }
                    && kind == RecordKind::Host && number == id && user_id == user.user_id && data
                    == crate::json_text::printed_json(merged) && updated_at == now),
                Err(error) => !valid_host(merged) && error.status == 400,
            }
        }),
        host_update(Ok(None), id, user, payload, now) matches Err(error) && error.status == 404,
{
}

/// The password of a host is given as it is stored under `password`, and empty where the host has
/// none.
pub proof fn passwords_are_given_as_stored(shown: JsonView, password: Seq<char>)
    ensures
        shown.member("password"@) == Some(JsonView::Text(password)) ==> password_body(
            shown,
        ).text_at("value"@) == Some(password),
        !(shown.member("password"@) matches Some(JsonView::Text(_))) ==> (password_body(
            shown,
        ).text_at("value"@) matches Some(text) && text.len() == 0),
{
    reveal_strlit("");
}

/// Every host that is listed is tried under its own number and at the address that it stores.
pub proof fn hosts_are_tried_under_their_number(probe: StatusProbe, row: RecordRow)
    requires
        probes_row(probe, row),
    ensures
        probe.id == row.id,
        ({
            let stored = crate::json_text::stored_tree(row.data@);
            &&& probe.address is None <==> status_probe(stored) is None
            &&& probe.address matches Some(address) ==> status_probe(stored) == Some(address@)
        }),
{
}

} // verus!
