//! The sessions of the file manager: how one is opened, kept and found again.

use crate::error::{ApiError, ErrorView};
use crate::json::{Json, JsonObject, JsonView};
use crate::ssh::{
    choose_auth, next_step, step_failure, AgentUse, AuthOffer, ConnectStep, Purpose, SshAuth,
};
use crate::text::{joined3, u64_text};
use vstd::hash_map::StringHashMap;
use vstd::prelude::*;

verus! {

/// How a session reaches its host.
#[derive(Clone, Debug)]
pub struct FileSessionConfig {
    pub session_id: Option<String>,
    pub ip: String,
    pub port: u16,
    pub username: String,
    pub password: Option<String>,
    pub ssh_key: Option<String>,
    pub key_password: Option<String>,
    pub auth_type: Option<String>,
}

impl FileSessionConfig {
    /// What the host says about logging in.
    pub open spec fn offer(self) -> AuthOffer {
        AuthOffer {
            auth_type: crate::json::string_view(self.auth_type),
            key: crate::json::string_view(self.ssh_key),
            key_password: crate::json::string_view(self.key_password),
            password: crate::json::string_view(self.password),
        }
    }

    /// The address of the host.
    pub fn address(&self) -> (r: String)
        ensures
            r@ == crate::ssh::host_address(self.ip@, self.port as int),
    {
        joined3(self.ip.as_str(), ":", u64_text(self.port as u64).as_str())
    }

    /// How to log in: by key where the host says so, and by password otherwise.
    pub fn auth(&self) -> (r: Result<SshAuth, String>)
        ensures
            crate::ssh::choice_view(r) == crate::ssh::chosen_auth(self.offer(), AgentUse::Unused),
    {
        choose_auth(
            &self.auth_type,
            &self.ssh_key,
            &self.key_password,
            &self.password,
            AgentUse::Unused,
        )
    }
}

/// The number under which a session is kept; a request to connect has to give it.
pub fn file_connect(config: &FileSessionConfig) -> (r: Result<String, ApiError>)
    ensures
        match config.session_id {
            Some(id) => r matches Ok(kept) && kept@ == id@,
            None => r matches Err(error) && error@ == crate::error::bad_request(
                "sessionId is required"@,
            ),
        },
{
    match &config.session_id {
        Some(id) => Ok(id.clone()),
        None => Err(ApiError::bad_request("sessionId is required")),
    }
}

/// The error of a step in connecting that failed: a session that cannot be made is a failure of
/// the server, everything else is the request's.
pub open spec fn connect_error(step: ConnectStep, message: Seq<char>) -> ErrorView {
    let words = crate::ssh::failed_step(step, message);
    if step == ConnectStep::Session {
        crate::error::internal(words)
    } else {
        crate::error::bad_request(words)
    }
}

/// The error of a step in connecting that failed.
pub fn connect_failure(step: ConnectStep, message: &str) -> (r: ApiError)
    ensures
        r@ == connect_error(step, message@),
{
    let words = step_failure(step, message);
    if step == ConnectStep::Session {
        ApiError::internal(words.as_str())
    } else {
        ApiError::bad_request(words.as_str())
    }
}

/// What follows a step in connecting: after one that went well the next, or the error that there
/// is no way of logging in; after one that failed its error.
pub open spec fn connect_outcome(
    offer: AuthOffer,
    step: ConnectStep,
    done: Result<(), Seq<char>>,
) -> Result<ConnectStep, ErrorView> {
    match done {
        Ok(_) => match crate::ssh::step_after(
            step,
            crate::ssh::chosen_auth(offer, AgentUse::Unused),
            Purpose::Files,
        ) {
            Ok(next) => Ok(next),
            Err(message) => Err(crate::error::bad_request(message)),
        },
        Err(message) => Err(connect_error(step, message)),
    }
}

/// What follows a step in connecting.
pub fn connect_file_session(
    config: &FileSessionConfig,
    step: ConnectStep,
    done: Result<(), String>,
) -> (r: Result<ConnectStep, ApiError>)
    ensures
        (match r {
            Ok(next) => Ok(next),
            Err(error) => Err(error@),
        }) == connect_outcome(
            config.offer(),
            step,
            match done {
                Ok(_) => Ok(()),
                Err(message) => Err(message@),
            },
        ),
{
    match done {
        Ok(_) => match next_step(step, &config.auth(), Purpose::Files) {
            Ok(next) => Ok(next),
            Err(message) => Err(ApiError::bad_request(message.as_str())),
        },
        Err(message) => Err(connect_failure(step, message.as_str())),
    }
}

/// The body of a session that is connected.
pub open spec fn connected_body(session_id: Seq<char>) -> JsonView {
    JsonView::Object(
        map![
            "success"@ => JsonView::Bool(true),
            "connected"@ => JsonView::Bool(true),
            "sessionId"@ => JsonView::Text(session_id),
            "connectionLogs"@ => JsonView::Array(
                seq![
                    JsonView::Object(
                        map![
                            "type"@ => JsonView::Text("success"@),
                            "stage"@ => JsonView::Text("ready"@),
                            "message"@ => JsonView::Text("SFTP connected"@),
                        ],
                    ),
                ],
            ),
        ],
    )
}

/// Tells that a session is connected.
pub fn file_connect_reply(session_id: &str) -> (r: Json)
    ensures
        r@ == connected_body(session_id@),
{
    let log = Json::Object(
        JsonObject::new().with("type", Json::from_text("success")).with(
            "stage",
            Json::from_text("ready"),
        ).with("message", Json::from_text("SFTP connected")),
    );
    let ghost entry = log@;
    let logs = Json::Array(vec![log]);
    proof {
        assert(logs@->Array_0 =~= seq![entry]);
    }
    Json::Object(
        JsonObject::new().with("success", Json::Bool(true)).with(
            "connected",
            Json::Bool(true),
        ).with("sessionId", Json::from_text(session_id)).with("connectionLogs", logs),
    )
}

// ---------------------------------------------------------------------------------------------
// The sessions that are kept
// ---------------------------------------------------------------------------------------------

/// A session: how it reaches its host, and what holds the connection.
pub struct FileSession<S> {
    pub config: FileSessionConfig,
    pub session: S,
}

/// The sessions that are kept, each under its number.
#[verifier::reject_recursive_types(S)]
pub struct FileSessions<S> {
    sessions: StringHashMap<FileSession<S>>,
}

impl<S> View for FileSessions<S> {
    type V = Map<Seq<char>, FileSession<S>>;

    closed spec fn view(&self) -> Map<Seq<char>, FileSession<S>> {
        self.sessions@
    }
}

/// No sessions.
pub fn new_file_sessions<S>() -> (r: FileSessions<S>)
    ensures
        r@ == Map::<Seq<char>, FileSession<S>>::empty(),
{
    FileSessions { sessions: StringHashMap::new() }
}

/// The error where the sessions cannot be had.
pub fn sessions_locked() -> (r: ApiError)
    ensures
        r@ == crate::error::internal("File session lock poisoned"@),
{
    ApiError::internal("File session lock poisoned")
}

/// The error where one session cannot be had.
pub fn session_locked() -> (r: ApiError)
    ensures
        r@ == crate::error::internal("SSH session lock poisoned"@),
{
    ApiError::internal("SSH session lock poisoned")
}

/// The body that tells whether a session is kept under a number.
pub open spec fn status_body<S>(
    sessions: Map<Seq<char>, FileSession<S>>,
    session_id: Seq<char>,
) -> JsonView {
    JsonView::Object(map!["connected"@ => JsonView::Bool(sessions.contains_key(session_id))])
}

/// The body that tells that a session is gone.
pub open spec fn disconnected_body() -> JsonView {
    JsonView::Object(
        map!["success"@ => JsonView::Bool(true), "connected"@ => JsonView::Bool(false)],
    )
}

impl<S> FileSessions<S> {
    /// Keeps a session under its number, in place of the one that is kept there.
    pub fn connect(&mut self, session_id: String, config: FileSessionConfig, session: S)
        ensures
            final(self)@ == old(self)@.insert(session_id@, (FileSession { config, session })),
    {
        self.sessions.insert(session_id, FileSession { config, session });
    }

    /// Drops the session that is kept under a number, if there is one.
    pub fn file_disconnect(&mut self, session_id: &str) -> (r: Json)
        ensures
            final(self)@ == old(self)@.remove(session_id@),
            r@ == disconnected_body(),
            r@ == JsonView::Object(
                map!["success"@ => JsonView::Bool(true), "connected"@ => JsonView::Bool(false)],
            ),
    {
        self.sessions.remove(session_id);
        Json::Object(
            JsonObject::new().with("success", Json::Bool(true)).with(
                "connected",
                Json::Bool(false),
            ),
        )
    }

    /// Tells whether a session is kept under a number.
    pub fn file_status(&self, session_id: &str) -> (r: Json)
        ensures
            r@ == status_body(self@, session_id@),
            r@ == JsonView::Object(
                map!["connected"@ => JsonView::Bool(self@.contains_key(session_id@))],
            ),
    {
        Json::Object(
            JsonObject::new().with(
                "connected",
                Json::Bool(self.sessions.contains_key(session_id)),
            ),
        )
    }

    /// The session that is kept under a number.
    pub fn file_session(&self, session_id: &str) -> (r: Result<&FileSession<S>, ApiError>)
        ensures
            match r {
                Ok(session) => self@.contains_key(session_id@) && *session == self@[session_id@],
                Err(error) => !self@.contains_key(session_id@) && error@
                    == crate::error::bad_request("SSH connection not established"@),
            },
    {
        match self.sessions.get(session_id) {
            Some(session) => Ok(session),
            None => Err(ApiError::bad_request("SSH connection not established")),
        }
    }
}

/// The body that tells whether a session is alive.
pub open spec fn alive_body(authenticated: Option<bool>) -> JsonView {
    JsonView::Object(
        map![
            "success"@ => JsonView::Bool(authenticated == Some(true)),
            "connected"@ => JsonView::Bool(authenticated == Some(true)),
        ],
    )
}

/// Tells whether a session is alive: it is kept, can be had, and is logged in.
pub fn file_keepalive_reply(authenticated: Option<bool>) -> (r: Json)
    ensures
        r@ == alive_body(authenticated),
        r@ == JsonView::Object(
            map![
                "success"@ => JsonView::Bool(authenticated == Some(true)),
                "connected"@ => JsonView::Bool(authenticated == Some(true)),
            ],
        ),
{
    let connected: bool = authenticated.unwrap_or(false);
    Json::Object(
        JsonObject::new().with("success", Json::Bool(connected)).with(
            "connected",
            Json::Bool(connected),
        ),
    )
}

/// How SFTP is opened on a kept session.
#[derive(Clone, Copy, Debug, PartialEq, Eq, Structural)]
pub enum SftpPlan {
    /// On the session as it is.
    Open,
    /// On a session that is connected anew and kept in its place.
    ReconnectAndOpen,
}

/// How SFTP is opened on a kept session: one that is no longer logged in is connected anew.
pub fn file_sftp(authenticated: bool) -> (r: SftpPlan)
    ensures
        r == SftpPlan::Open <==> authenticated,
{
    if authenticated {
        SftpPlan::Open
    } else {
        SftpPlan::ReconnectAndOpen
    }
}

// ---------------------------------------------------------------------------------------------
// Laws
// ---------------------------------------------------------------------------------------------

/// A session that is connected is found until it is disconnected, and connecting or
/// disconnecting it leaves the other sessions alone.
pub proof fn sessions_do_not_disturb_each_other<S>(
    sessions: Map<Seq<char>, FileSession<S>>,
    id: Seq<char>,
    session: FileSession<S>,
    other: Seq<char>,
)
    requires
        other != id,
    ensures
        sessions.insert(id, session).contains_key(id),
        sessions.insert(id, session)[id] == session,
        !sessions.insert(id, session).remove(id).contains_key(id),
        sessions.insert(id, session).contains_key(other) == sessions.contains_key(other),
        sessions.remove(id).contains_key(other) == sessions.contains_key(other),
        sessions.contains_key(other) ==> sessions.insert(id, session)[other] == sessions[other],
        sessions.contains_key(other) ==> sessions.remove(id)[other] == sessions[other],
{
}

/// The names of the members of an answer are all different.
proof fn lemma_member_names()
    ensures
        "success"@.len() == 7,
        "connected"@.len() == 9,
        "connected"@[0] == 'c',
        "sessionId"@.len() == 9,
        "sessionId"@[0] == 's',
        "connectionLogs"@.len() == 14,
{
    reveal_strlit("success");
    reveal_strlit("connected");
    reveal_strlit("sessionId");
    reveal_strlit("connectionLogs");
}

/// A session that is connected is told so, under its own number.
pub proof fn connected_sessions_are_told(session_id: Seq<char>)
    ensures
        connected_body(session_id).bool_at("success"@) == Some(true),
        connected_body(session_id).bool_at("connected"@) == Some(true),
        connected_body(session_id).text_at("sessionId"@) == Some(session_id),
{
    lemma_member_names();
}

/// A session logs in with what its host offers: each text is the one that the request gives
/// under that name.
pub proof fn sessions_offer_their_own_secrets(config: FileSessionConfig)
    ensures
        config.password matches Some(password) ==> config.offer().password == Some(password@),
        config.password is None ==> config.offer().password is None,
        config.ssh_key matches Some(key) ==> config.offer().key == Some(key@),
        config.ssh_key is None ==> config.offer().key is None,
        config.key_password matches Some(phrase) ==> config.offer().key_password == Some(phrase@),
        config.key_password is None ==> config.offer().key_password is None,
        config.auth_type matches Some(way) ==> config.offer().auth_type == Some(way@),
        config.auth_type is None ==> config.offer().auth_type is None,
{
}

/// A step in connecting that failed ends the connection with its message: a session that cannot
/// be made with status 500, and every other step with status 400.
pub proof fn failed_steps_end_the_connection(
    offer: AuthOffer,
    step: ConnectStep,
    message: Seq<char>,
)
    ensures
        connect_outcome(offer, step, Err(message)) matches Err(error) && (step
            == ConnectStep::Session <==> error.status == 500) && (step != ConnectStep::Session
            <==> error.status == 400) && (step != ConnectStep::Authenticated
            ==> message.is_suffix_of(error.message)),
{
    crate::ssh::failures_keep_their_message(step, message);
}

/// Files are never reached by agent: a host that offers neither a key nor a password is refused
/// with status 400 once the handshake is done.
pub proof fn files_need_a_key_or_a_password(offer: AuthOffer)
    requires
        offer.key is None,
        offer.password is None,
    ensures
        connect_outcome(offer, ConnectStep::Handshake, Ok(())) matches Err(error) && error.status
            == 400,
{
}

/// A connected session has one entry in its log, which tells that it is ready.
pub proof fn connected_sessions_log_that_they_are_ready(session_id: Seq<char>)
    ensures
        connected_body(session_id).member("connectionLogs"@) matches Some(JsonView::Array(logs))
            && logs.len() == 1 && logs[0].text_at("type"@) == Some("success"@) && logs[0].text_at(
            "stage"@,
        ) == Some("ready"@) && logs[0].text_at("message"@) == Some("SFTP connected"@),
{
    lemma_member_names();
    reveal_strlit("type");
    reveal_strlit("stage");
    reveal_strlit("message");
    assert("type"@.len() == 4);
    assert("stage"@.len() == 5);
    assert("message"@.len() == 7);
}

/// A session is told to be connected from when it is kept until it is dropped, whatever happens
/// to the others.
pub proof fn kept_sessions_are_told<S>(
    sessions: Map<Seq<char>, FileSession<S>>,
    id: Seq<char>,
    session: FileSession<S>,
    other: Seq<char>,
)
    requires
        other != id,
    ensures
        status_body(sessions.insert(id, session), id).bool_at("connected"@) == Some(true),
        status_body(sessions.remove(id), id).bool_at("connected"@) == Some(false),
        status_body(sessions.insert(id, session), other) == status_body(sessions, other),
        status_body(sessions.remove(id), other) == status_body(sessions, other),
        disconnected_body().bool_at("success"@) == Some(true),
        disconnected_body().bool_at("connected"@) == Some(false),
{
    lemma_member_names();
}

/// A session is alive where it can be had and is logged in, and not otherwise.
pub proof fn living_sessions_are_told(authenticated: Option<bool>)
    ensures
        alive_body(Some(true)).bool_at("success"@) == Some(true),
        alive_body(Some(true)).bool_at("connected"@) == Some(true),
        authenticated != Some(true) ==> alive_body(authenticated).bool_at("success"@) == Some(false)
            && alive_body(authenticated).bool_at("connected"@) == Some(false),
{
    lemma_member_names();
}

} // verus!
