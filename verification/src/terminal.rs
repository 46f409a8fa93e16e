//! Terminals: what the messages of a client do, how a terminal is connected, and what it does
//! with its input and output.

use crate::credentials::{find_credential, CredentialAuth, CredentialView};
use crate::json::{Json, JsonObject, JsonView};
use crate::ssh::{
    choose_auth, is_text, next_step, step_failure, AgentUse, AuthOffer, ConnectStep, Purpose,
    SshAuth,
};
use crate::store::{CommandView, DbCommand};
use crate::terminal_loop::TerminalLoop;
use crate::text::{contains, joined, joined3, same_text, u64_text};
use vstd::prelude::*;
use vstd::string::*;
use vstd::utf8::*;

verus! {

// ---------------------------------------------------------------------------------------------
// Limits
// ---------------------------------------------------------------------------------------------

/// How long each address of a host is tried, in seconds.
pub const CONNECT_SECONDS: u64 = 15;

/// How long a read from the host may take while connecting, in seconds.
pub const READ_SECONDS: u64 = 5;

/// How long a write to the host may take while connecting, in seconds.
pub const WRITE_SECONDS: u64 = 10;

/// How long an SSH operation may take, in milliseconds.
pub const SSH_OPERATION_MILLIS: u32 = 20000;

/// The interval at which the host is asked to keep the connection, in seconds.
pub const KEEPALIVE_INTERVAL_SECONDS: u32 = 15;

/// The longest wait between two keepalives, in milliseconds.
pub const KEEPALIVE_TICK_MILLIS: u64 = 10000;

/// The wait after a keepalive that could not be sent at once, in milliseconds.
pub const KEEPALIVE_RETRY_MILLIS: u64 = 250;

/// The pause between two rounds of a terminal, in milliseconds.
pub const IDLE_MILLIS: u64 = 5;

/// The pause between two looks for output, in milliseconds.
pub const OUTPUT_MILLIS: u64 = 8;

/// How much input a terminal holds back, in bytes.
pub const MAX_PENDING_INPUT_BYTES: usize = 1048576;

/// The kind of terminal that the host is asked for.
pub const PTY_TYPE: &'static str = "xterm-256color";

/// How much output is read at once, in bytes.
pub const READ_BUFFER_BYTES: usize = 8192;

// ---------------------------------------------------------------------------------------------
// Messages of a client
// ---------------------------------------------------------------------------------------------

/// A message of a client.
#[derive(Debug)]
pub struct TerminalMessage {
    pub message_type: String,
    pub data: Option<Json>,
}

/// A message with its parts as views.
pub struct MessageView {
    pub message_type: Seq<char>,
    pub data: Option<JsonView>,
}

impl View for TerminalMessage {
    type V = MessageView;

    open spec fn view(&self) -> MessageView {
        MessageView {
            message_type: self.message_type@,
            data: match self.data {
                Some(data) => Some(data@),
                None => None,
            },
        }
    }
}

/// What a client asks of a running terminal.
#[derive(Debug)]
pub enum TerminalCommand {
    Input(String),
    Resize { cols: u32, rows: u32 },
}

/// The size that a client asks for.
#[derive(Debug)]
pub struct ResizeRequest {
    pub cols: Option<u32>,
    pub rows: Option<u32>,
}

/// What is done about a message.
#[derive(Debug)]
pub enum SocketAction {
    /// Send an event to the client.
    Send(Json),
    /// Connect to the host that the data describes.
    Connect(Json),
    /// Hand input to the terminal.
    Input(String),
    /// Hand the size that the data describes to the terminal.
    Resize(Json),
    /// Close the connection to the client.
    Close,
    /// Nothing.
    Ignore,
}

/// What is done about a message, with its parts as views.
pub enum SocketActionView {
    Send(JsonView),
    Connect(JsonView),
    Input(Seq<char>),
    Resize(JsonView),
    Close,
    Ignore,
}

impl View for SocketAction {
    type V = SocketActionView;

    open spec fn view(&self) -> SocketActionView {
        match *self {
            SocketAction::Send(event) => SocketActionView::Send(event@),
            SocketAction::Connect(data) => SocketActionView::Connect(data@),
            SocketAction::Input(text) => SocketActionView::Input(text@),
            SocketAction::Resize(data) => SocketActionView::Resize(data@),
            SocketAction::Close => SocketActionView::Close,
            SocketAction::Ignore => SocketActionView::Ignore,
        }
    }
}

/// An event that has a message.
pub open spec fn event_body(event: Seq<char>, message: Seq<char>) -> JsonView {
    JsonView::Object(
        map!["type"@ => JsonView::Text(event), "message"@ => JsonView::Text(message)],
    )
}

fn event(name: &str, message: &str) -> (r: Json)
    ensures
        r@ == event_body(name@, message@),
{
    Json::Object(
        JsonObject::new().with("type", Json::from_text(name)).with(
            "message",
            Json::from_text(message),
        ),
    )
}

/// What is done about a message, where there may be a terminal to hand it to. `None` stands for
/// a message that cannot be read.
pub open spec fn action_for(message: Option<MessageView>, connected: bool) -> SocketActionView {
    match message {
        None => SocketActionView::Send(event_body("error"@, "Invalid terminal message"@)),
        Some(read) => if read.message_type == "ping"@ {
            SocketActionView::Send(JsonView::Object(map!["type"@ => JsonView::Text("pong"@)]))
        } else if read.message_type == "connectToHost"@ || read.message_type
            == "reconnect_with_credentials"@ {
            match read.data {
                Some(data) => SocketActionView::Connect(data),
                None => SocketActionView::Send(
                    event_body("error"@, "Missing connection data"@),
                ),
            }
        } else if read.message_type == "input"@ {
            match read.data {
                Some(JsonView::Text(text)) => if connected {
                    SocketActionView::Input(text)
                } else {
                    SocketActionView::Ignore
                },
                _ => SocketActionView::Ignore,
            }
        } else if read.message_type == "resize"@ {
            match read.data {
                Some(data) => if connected {
                    SocketActionView::Resize(data)
                } else {
                    SocketActionView::Ignore
                },
                None => SocketActionView::Ignore,
            }
        } else if read.message_type == "disconnect"@ {
            SocketActionView::Close
        } else {
            SocketActionView::Ignore
        },
    }
}

/// What is done about a message.
pub fn handle_terminal_message(message: Option<TerminalMessage>, connected: bool) -> (r:
    SocketAction)
    ensures
        r@ == action_for(
            match message {
                Some(read) => Some(read@),
                None => None,
            },
            connected,
        ),
{
    let read = match message {
        Some(read) => read,
        None => return SocketAction::Send(event("error", "Invalid terminal message")),
    };
    let name = read.message_type.as_str();
    if same_text(name, "ping") {
        SocketAction::Send(Json::Object(JsonObject::new().with("type", Json::from_text("pong"))))
    } else if same_text(name, "connectToHost") || same_text(name, "reconnect_with_credentials") {
        match read.data {
            Some(data) => SocketAction::Connect(data),
            None => SocketAction::Send(event("error", "Missing connection data")),
        }
    } else if same_text(name, "input") {
        match read.data {
            Some(Json::Text(text)) => if connected {
                SocketAction::Input(text)
            } else {
                SocketAction::Ignore
            },
            _ => SocketAction::Ignore,
        }
    } else if same_text(name, "resize") {
        match read.data {
            Some(data) => if connected {
                SocketAction::Resize(data)
            } else {
                SocketAction::Ignore
            },
            None => SocketAction::Ignore,
        }
    } else if same_text(name, "disconnect") {
        SocketAction::Close
    } else {
        SocketAction::Ignore
    }
}

/// The event for data that describes no host.
pub open spec fn invalid_data_body() -> JsonView {
    event_body("error"@, "Invalid connection data"@)
}

/// The event for data that describes no host.
pub fn invalid_connection_data() -> (r: Json)
    ensures
        r@ == invalid_data_body(),
{
    event("error", "Invalid connection data")
}

/// The columns and rows of a size, where both are given.
pub open spec fn whole_size(size: Option<ResizeRequest>) -> Option<(u32, u32)> {
    match size {
        Some(ResizeRequest { cols: Some(cols), rows: Some(rows) }) => Some((cols, rows)),
        _ => None,
    }
}

/// The command for a size: only where both sides of it are given.
pub fn resize_command(size: Option<ResizeRequest>) -> (r: Option<TerminalCommand>)
    ensures
        (match r {
            Some(TerminalCommand::Resize { cols, rows }) => Some((cols, rows)),
            _ => None,
        }) == whole_size(size),
        r == (match size {
            Some(ResizeRequest { cols: Some(cols), rows: Some(rows) }) => Some(
                TerminalCommand::Resize { cols, rows },
            ),
            _ => None,
        }),
{
    match size {
        Some(ResizeRequest { cols: Some(cols), rows: Some(rows) }) => Some(
            TerminalCommand::Resize { cols, rows },
        ),
        _ => None,
    }
}

// ---------------------------------------------------------------------------------------------
// Connecting
// ---------------------------------------------------------------------------------------------

/// How a terminal reaches its host.
#[derive(Debug)]
pub struct TerminalHostConfig {
    pub ip: String,
    pub port: u16,
    pub username: String,
    pub password: Option<String>,
    pub key: Option<String>,
    pub key_password: Option<String>,
    pub auth_type: Option<String>,
    pub credential_id: Option<i64>,
    pub user_id: Option<String>,
}

/// What a client asks for: a host, and the size of the terminal.
#[derive(Debug)]
pub struct TerminalConnectData {
    pub cols: Option<u32>,
    pub rows: Option<u32>,
    pub host_config: TerminalHostConfig,
}

/// The size that a terminal gets: what the client asks for, or 80 columns and 24 rows.
pub open spec fn terminal_size(cols: Option<u32>, rows: Option<u32>) -> (u32, u32) {
    (
        match cols {
            Some(wide) => wide,
            None => 80,
        },
        match rows {
            Some(high) => high,
            None => 24,
        },
    )
}

impl TerminalConnectData {
    /// The size that the terminal gets: what the client asks for, or 80 columns and 24 rows.
    pub fn pty_size(&self) -> (r: (u32, u32))
        ensures
            r.0 == (match self.cols {
                Some(cols) => cols,
                None => 80,
            }),
            r.1 == (match self.rows {
                Some(rows) => rows,
                None => 24,
            }),
            r == terminal_size(self.cols, self.rows),
    {
        (self.cols.unwrap_or(80), self.rows.unwrap_or(24))
    }
}

impl TerminalHostConfig {
    /// What the host says about logging in.
    pub open spec fn offer(self) -> AuthOffer {
        AuthOffer {
            auth_type: crate::json::string_view(self.auth_type),
            key: crate::json::string_view(self.key),
            key_password: crate::json::string_view(self.key_password),
            password: crate::json::string_view(self.password),
        }
    }

    /// The address of the host.
    pub fn address(&self) -> (r: String)
        ensures
            r@ == crate::ssh::host_address(self.ip@, self.port as int),
    {
        joined3(self.ip.as_str(), ":", u64_text(self.port as u64).as_str())
    }

    /// How to log in: by key, by agent where the host says `none`, or by password.
    pub fn auth(&self) -> (r: Result<SshAuth, String>)
        ensures
            crate::ssh::choice_view(r) == crate::ssh::chosen_auth(self.offer(), AgentUse::Allowed),
    {
        choose_auth(
            &self.auth_type,
            &self.key,
            &self.key_password,
            &self.password,
            AgentUse::Allowed,
        )
    }

    /// Whether the host is logged in to with a stored credential.
    pub open spec fn uses_credential(self) -> bool {
        crate::json::string_view(self.auth_type) == Some("credential"@)
    }

    /// The statement that finds the credential of the host, where it uses one; it has to name
    /// it.
    pub fn credential_command(&self) -> (r: Result<Option<DbCommand>, String>)
        ensures
            if !self.uses_credential() {
                r matches Ok(None)
            } else {
                match self.credential_id {
                    Some(id) => r matches Ok(Some(command)) && command@
                        == crate::credentials::credential_lookup(
                        id as int,
                        crate::json::string_view(self.user_id),
                    ),
                    None => r matches Err(message) && message@ == "Credential is required"@,
                }
            },
    {
        if !is_text(&self.auth_type, "credential") {
            return Ok(None);
        }
        let user_id: Option<&str> = match &self.user_id {
            Some(user_id) => Some(user_id.as_str()),
            None => None,
        };
        match find_credential(self.credential_id, user_id) {
            Some(command) => Ok(Some(command)),
            None => Err("Credential is required".to_owned()),
        }
    }

    /// Whether a host is another one, with the login of a credential.
    pub open spec fn with_login(self, credential: CredentialView, after: TerminalHostConfig) -> bool {
        &&& after.ip == self.ip
        &&& after.port == self.port
        &&& after.credential_id == self.credential_id
        &&& after.user_id == self.user_id
        &&& after.username@ == match credential.username {
            Some(username) => username,
            None => self.username@,
        }
        &&& crate::json::string_view(after.password) == credential.password
        &&& crate::json::string_view(after.key) == credential.key
        &&& crate::json::string_view(after.key_password) == credential.key_password
        &&& crate::json::string_view(after.auth_type) == Some(credential.auth_type)
    }

    /// Puts the login of a credential in place of the one that the host came with; the name
    /// only where the credential has one.
    pub fn apply_terminal_credential(&mut self, credential: CredentialAuth)
        ensures
            old(self).with_login(credential@, *final(self)),
    {
        if let Some(username) = credential.username {
            self.username = username;
        }
        self.password = credential.password;
        self.key = credential.key;
        self.key_password = credential.key_password;
        self.auth_type = Some(credential.auth_type);
    }
}

/// The words for an address that cannot be resolved.
pub fn resolve_failure(address: &str, message: &str) -> (r: String)
    ensures
        r@ == "Failed to resolve "@ + address@ + ": "@ + message@,
{
    joined(joined3("Failed to resolve ", address, ": ").as_str(), message)
}

/// What is done next to reach a host.
#[derive(Debug)]
pub enum TcpStep {
    /// Try the address at this place.
    Connect(usize),
    /// Give up.
    Failed(String),
}

/// What is done next after some of so many addresses were tried in vain: the place of the one
/// that is tried, or the words for having failed.
pub open spec fn tcp_next(
    tried: int,
    addresses: int,
    last_error: Option<Seq<char>>,
) -> Result<int, Seq<char>> {
    if tried < addresses {
        Ok(tried)
    } else {
        match last_error {
            Some(error) => Err("TCP connection failed: "@ + error),
            None => Err("TCP connection failed: "@ + "no resolved addresses"@),
        }
    }
}

/// What is done next after some of so many addresses were tried in vain: the next one, and when
/// there is none left, the connection failed for the reason of the last.
pub fn connect_tcp(tried: usize, addresses: usize, last_error: Option<&str>) -> (r: TcpStep)
    ensures
        (match r {
            TcpStep::Connect(place) => Ok(place as int),
            TcpStep::Failed(message) => Err(message@),
        }) == tcp_next(tried as int, addresses as int, crate::json::chars_view(last_error)),
        if tried < addresses {
            r == TcpStep::Connect(tried)
        } else {
            r matches TcpStep::Failed(message) && message@ == "TCP connection failed: "@
                + match last_error {
                Some(error) => error@,
                None => "no resolved addresses"@,
            }
        },
{
    if tried < addresses {
        return TcpStep::Connect(tried);
    }
    let reason: &str = match last_error {
        Some(error) => error,
        None => "no resolved addresses",
    };
    TcpStep::Failed(joined("TCP connection failed: ", reason))
}

/// What follows a step in connecting. The words of a TCP connection that failed are its own.
pub open spec fn connect_outcome(
    offer: AuthOffer,
    step: ConnectStep,
    done: Result<(), Seq<char>>,
) -> Result<ConnectStep, Seq<char>> {
    match done {
        Ok(_) => crate::ssh::step_after(
            step,
            crate::ssh::chosen_auth(offer, AgentUse::Allowed),
            Purpose::Terminal,
        ),
        Err(message) => Err(
            if step == ConnectStep::Tcp {
                message
            } else {
                crate::ssh::failed_step(step, message)
            },
        ),
    }
}

/// How far a connection has come.
#[derive(Debug)]
pub enum ConnectProgress {
    /// This step is next.
    Next(ConnectStep),
    /// The terminal runs, and the client is sent the event first.
    Running(Json, TerminalLoop),
}

/// What follows a step in connecting. A terminal runs once its shell was started, and nothing
/// else makes one run: a connection that is ready stays so.
pub fn connect_terminal(
    host: &TerminalHostConfig,
    step: ConnectStep,
    done: Result<(), String>,
    now: u64,
) -> (r: Result<ConnectProgress, String>)
    requires
        now + KEEPALIVE_TICK_MILLIS <= u64::MAX,
    ensures
        match connect_outcome(
            host.offer(),
            step,
            match done {
                Ok(_) => Ok(()),
                Err(message) => Err(message@),
            },
        ) {
            Ok(next) => if step == ConnectStep::Shell {
                r matches Ok(ConnectProgress::Running(event, terminal)) && event@
                    == connected_body() && terminal@ == crate::terminal_loop::started(now as int)
            } else {
                r matches Ok(ConnectProgress::Next(following)) && following == next
            },
            Err(message) => r matches Err(error) && error@ == message,
        },
{
    let next = match done {
        Ok(_) => next_step(step, &host.auth(), Purpose::Terminal),
        Err(message) => if step == ConnectStep::Tcp {
            Err(message)
        } else {
            Err(step_failure(step, message.as_str()))
        },
    };
    match next {
        Ok(following) => if step == ConnectStep::Shell {
            Ok(
                ConnectProgress::Running(
                    event("connected", "SSH connected"),
                    TerminalLoop::started(now),
                ),
            )
        } else {
            Ok(ConnectProgress::Next(following))
        },
        Err(message) => Err(message),
    }
}

/// The event for a terminal that is connected.
pub open spec fn connected_body() -> JsonView {
    event_body("connected"@, "SSH connected"@)
}

/// The event for a terminal that failed: one of its own where the login had nothing to offer.
pub open spec fn failure_body(error: Seq<char>) -> JsonView {
    event_body(
        if crate::text::has_part(error, "key is missing"@) || crate::text::has_part(
            error,
            "password is missing"@,
        ) {
            "auth_method_not_available"@
        } else {
            "error"@
        },
        "Failed to connect to host: "@ + error,
    )
}

/// The event for a terminal that failed.
pub fn failure_event(error: &str) -> (r: Json)
    ensures
        r@ == failure_body(error@),
{
    let message = joined("Failed to connect to host: ", error);
    let nothing_to_offer: bool = contains(error, "key is missing") || contains(
        error,
        "password is missing",
    );
    let name: &str = if nothing_to_offer {
        "auth_method_not_available"
    } else {
        "error"
    };
    event(name, message.as_str())
}

// ---------------------------------------------------------------------------------------------
// Laws
// ---------------------------------------------------------------------------------------------

/// A terminal that fails because its host has nothing to log in with tells the client so, and
/// not just that it failed.
pub proof fn missing_logins_are_told_apart(offer: AuthOffer, agent: AgentUse)
    ensures
        crate::ssh::chosen_auth(offer, agent) matches Err(message) ==> failure_body(message)
            == event_body(
            "auth_method_not_available"@,
            "Failed to connect to host: "@ + message,
        ),
{
    reveal_strlit("SSH key is missing");
    reveal_strlit("SSH password is missing");
    reveal_strlit("key is missing");
    reveal_strlit("password is missing");
    let at: int = 4;
    assert("SSH key is missing"@.subrange(at, at + "key is missing"@.len()) =~= "key is missing"@);
    assert("SSH password is missing"@.subrange(at, at + "password is missing"@.len())
        =~= "password is missing"@);
}

/// Without a terminal, no message of a client reaches one: input and sizes are dropped.
pub proof fn nothing_reaches_a_missing_terminal(message: Option<MessageView>)
    ensures
        !(action_for(message, false) is Input),
        !(action_for(message, false) is Resize),
{
}

/// The types of messages, and the members of events, are all different.
proof fn lemma_words()
    ensures
        "ping"@.len() == 4,
        "ping"@[1] == 'i',
        "pong"@.len() == 4,
        "pong"@[1] == 'o',
        "connectToHost"@.len() == 13,
        "reconnect_with_credentials"@.len() == 26,
        "input"@.len() == 5,
        "input"@[0] == 'i',
        "resize"@.len() == 6,
        "disconnect"@.len() == 10,
        "type"@.len() == 4,
        "type"@[1] == 'y',
        "message"@.len() == 7,
        "error"@.len() == 5,
        "error"@[0] == 'e',
        "connected"@.len() == 9,
        "auth_method_not_available"@.len() == 25,
{
    reveal_strlit("ping");
    reveal_strlit("pong");
    reveal_strlit("connectToHost");
    reveal_strlit("reconnect_with_credentials");
    reveal_strlit("input");
    reveal_strlit("resize");
    reveal_strlit("disconnect");
    reveal_strlit("type");
    reveal_strlit("message");
    reveal_strlit("error");
    reveal_strlit("connected");
    reveal_strlit("auth_method_not_available");
}

/// An event shows its type and its message.
pub proof fn events_show_their_message(name: Seq<char>, message: Seq<char>)
    ensures
        event_body(name, message).text_at("type"@) == Some(name),
        event_body(name, message).text_at("message"@) == Some(message),
        connected_body().text_at("type"@) == Some("connected"@),
        invalid_data_body().text_at("type"@) == Some("error"@),
        invalid_data_body().text_at("message"@) == Some("Invalid connection data"@),
{
    lemma_words();
}

/// What a client types reaches its terminal as it is, and a size too; without a terminal neither
/// goes anywhere.
pub proof fn typed_text_reaches_the_terminal(text: Seq<char>, size: JsonView)
    ensures
        ({
            let typed = Some(
                MessageView { message_type: "input"@, data: Some(JsonView::Text(text)) },
            );
            let sized = Some(MessageView { message_type: "resize"@, data: Some(size) });
            &&& action_for(typed, true) == SocketActionView::Input(text)
            &&& action_for(typed, false) == SocketActionView::Ignore
            &&& action_for(sized, true) == SocketActionView::Resize(size)
            &&& action_for(sized, false) == SocketActionView::Ignore
        }),
{
    lemma_words();
}

/// A client connects with the data that it sends, in one of two words, with a terminal or
/// without; without data it is sent an error.
pub proof fn clients_connect_with_their_data(data: JsonView, connected: bool)
    ensures
        ({
            let first = |given: Option<JsonView>|
                Some(MessageView { message_type: "connectToHost"@, data: given });
            let again = |given: Option<JsonView>|
                Some(MessageView { message_type: "reconnect_with_credentials"@, data: given });
            &&& action_for(first(Some(data)), connected) == SocketActionView::Connect(data)
            &&& action_for(again(Some(data)), connected) == SocketActionView::Connect(data)
            &&& action_for(first(None), connected) matches SocketActionView::Send(event)
                && event.text_at("type"@) == Some("error"@)
            &&& action_for(again(None), connected) matches SocketActionView::Send(event)
                && event.text_at("type"@) == Some("error"@)
        }),
{
    lemma_words();
}

/// A ping is answered with a pong, a message that cannot be read with an error, a disconnect
/// closes the connection, and any other word does nothing, whatever comes with it.
pub proof fn other_messages_are_answered_or_ignored(
    word: Seq<char>,
    data: Option<JsonView>,
    connected: bool,
)
    ensures
        action_for(Some(MessageView { message_type: "ping"@, data }), connected) matches
            SocketActionView::Send(event) && event.text_at("type"@) == Some("pong"@),
        action_for(None, connected) matches SocketActionView::Send(event) && event.text_at("type"@)
            == Some("error"@),
        action_for(Some(MessageView { message_type: "disconnect"@, data }), connected)
            == SocketActionView::Close,
        word != "ping"@ && word != "connectToHost"@ && word != "reconnect_with_credentials"@ && word
            != "input"@ && word != "resize"@ && word != "disconnect"@ ==> action_for(
            Some(MessageView { message_type: word, data }),
            connected,
        ) == SocketActionView::Ignore,
{
    lemma_words();
}

/// A terminal that fails tells the client the whole error behind a few words, and of what type it
/// is: a login that had nothing to offer is told apart from every other error.
pub proof fn failures_are_told_whole(error: Seq<char>)
    ensures
        ({
            let body = failure_body(error);
            &&& body.text_at("message"@) matches Some(text) && error.is_suffix_of(text)
            &&& body.text_at("type"@) == Some("auth_method_not_available"@) || body.text_at(
                "type"@,
            ) == Some("error"@)
            &&& body.text_at("type"@) == Some("auth_method_not_available"@)
                <==> crate::text::has_part(error, "key is missing"@) || crate::text::has_part(
                error,
                "password is missing"@,
            )
        }),
{
    lemma_words();
    let text = "Failed to connect to host: "@ + error;
    assert(text.subrange(text.len() - error.len(), text.len() as int) =~= error);
}

/// A host that uses a credential logs in with all of it: the password, the key, the passphrase
/// and the way to log in are those of the credential and none of its own, and so is the user
/// name where the credential has one. Where it is reached does not change.
pub proof fn credentials_replace_the_login(
    host: TerminalHostConfig,
    credential: CredentialView,
    after: TerminalHostConfig,
)
    requires
        host.with_login(credential, after),
    ensures
        after.ip@ == host.ip@ && after.port == host.port,
        after.user_id == host.user_id && after.credential_id == host.credential_id,
        after.offer().password == credential.password,
        after.offer().key == credential.key,
        after.offer().key_password == credential.key_password,
        after.offer().auth_type == Some(credential.auth_type),
        credential.username matches Some(username) ==> after.username@ == username,
        credential.username is None ==> after.username@ == host.username@,
{
}

/// A terminal logs in with what its host offers, and files do so with theirs: each text is the
/// one that the host gives under that name.
pub proof fn hosts_offer_their_own_secrets(host: TerminalHostConfig)
    ensures
        host.password matches Some(password) ==> host.offer().password == Some(password@),
        host.password is None ==> host.offer().password is None,
        host.key matches Some(key) ==> host.offer().key == Some(key@),
        host.key is None ==> host.offer().key is None,
        host.key_password matches Some(phrase) ==> host.offer().key_password == Some(phrase@),
        host.key_password is None ==> host.offer().key_password is None,
        host.auth_type matches Some(way) ==> host.offer().auth_type == Some(way@),
        host.auth_type is None ==> host.offer().auth_type is None,
        host.uses_credential() <==> (host.auth_type matches Some(way) && way@ == "credential"@),
{
}

/// A step in connecting that failed ends the connection; the message of its error is told at the
/// end of the words, but for a login that does not hold, which has none.
pub proof fn failed_steps_end_the_connection(
    offer: AuthOffer,
    step: ConnectStep,
    message: Seq<char>,
)
    ensures
        connect_outcome(offer, step, Err(message)) is Err,
        step != ConnectStep::Authenticated ==> (connect_outcome(offer, step, Err(message)) matches
            Err(words) && message.is_suffix_of(words)),
        connect_outcome(offer, ConnectStep::Tcp, Err(message)) == Err::<ConnectStep, Seq<char>>(
            message,
        ),
{
    crate::ssh::failures_keep_their_message(step, message);
    assert(message.subrange(0, message.len() as int) =~= message);
}

/// A terminal gets the columns and the rows that its client asks for, each for itself, and 80 by
/// 24 where it does not ask.
pub proof fn terminals_get_the_size_they_ask_for(
    wide: u32,
    high: u32,
    cols: Option<u32>,
    rows: Option<u32>,
)
    ensures
        terminal_size(Some(wide), rows).0 == wide,
        terminal_size(cols, Some(high)).1 == high,
        terminal_size(None, rows).0 == 80,
        terminal_size(cols, None).1 == 24,
{
}

/// A message and what is done about it are seen with their own words, data and texts.
pub proof fn messages_are_seen_whole(message: TerminalMessage, data: Json, text: String)
    ensures
        message@.message_type == message.message_type@,
        message.data matches Some(sent) ==> message@.data == Some(sent@),
        message.data is None ==> message@.data is None,
        SocketAction::Send(data)@ == SocketActionView::Send(data@),
        SocketAction::Connect(data)@ == SocketActionView::Connect(data@),
        SocketAction::Resize(data)@ == SocketActionView::Resize(data@),
        SocketAction::Input(text)@ == SocketActionView::Input(text@),
        SocketAction::Close@ == SocketActionView::Close,
        SocketAction::Ignore@ == SocketActionView::Ignore,
{
}

/// A size counts where it has columns and rows, which are kept apart; with one of them missing
/// it does not.
pub proof fn sizes_need_both_sides(size: ResizeRequest)
    ensures
        whole_size(Some(size)) matches Some((cols, rows)) ==> size.cols == Some(cols) && size.rows
            == Some(rows),
        size.cols is Some && size.rows is Some ==> whole_size(Some(size)) is Some,
        whole_size(None) is None,
{
}

/// Every address is tried, one after the other. When none is left, the words for having failed
/// end in the error of the last.
pub proof fn every_address_is_tried(tried: int, addresses: int, error: Seq<char>)
    ensures
        tried < addresses ==> tcp_next(tried, addresses, Some(error)) == Ok::<int, Seq<char>>(tried)
            && tcp_next(tried, addresses, None) == Ok::<int, Seq<char>>(tried),
        tried >= addresses ==> (tcp_next(tried, addresses, Some(error)) matches Err(words)
            && "TCP connection failed: "@.is_prefix_of(words) && words.len()
            == "TCP connection failed: "@.len() + error.len() && error.is_suffix_of(words)),
        tried >= addresses ==> (tcp_next(tried, addresses, None) matches Err(words)
            && "no resolved addresses"@.is_suffix_of(words)),
{
    let head = "TCP connection failed: "@;
    let none = "no resolved addresses"@;
    assert((head + error).subrange(0, head.len() as int) =~= head);
    assert((head + error).subrange(head.len() as int, (head + error).len() as int) =~= error);
    assert((head + none).subrange(head.len() as int, (head + none).len() as int) =~= none);
}

} // verus!
