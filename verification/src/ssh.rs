//! How an SSH connection is made: its steps, the ways of logging in, and the words for what can
//! fail.

use crate::text::{joined, same_text, trim};
use vstd::prelude::*;

verus! {

// ---------------------------------------------------------------------------------------------
// Logging in
// ---------------------------------------------------------------------------------------------

/// A way of logging in.
#[derive(Debug)]
pub enum SshAuth {
    Key { key: String, passphrase: Option<String> },
    Agent,
    Password { password: String },
}

/// A way of logging in with its texts as characters.
pub enum AuthView {
    Key { key: Seq<char>, passphrase: Option<Seq<char>> },
    Agent,
    Password { password: Seq<char> },
}

impl View for SshAuth {
    type V = AuthView;

    open spec fn view(&self) -> AuthView {
        match *self {
            SshAuth::Key { key, passphrase } => AuthView::Key {
                key: key@,
                passphrase: crate::json::string_view(passphrase),
            },
            SshAuth::Agent => AuthView::Agent,
            SshAuth::Password { password } => AuthView::Password { password: password@ },
        }
    }
}

/// What a host says about logging in.
pub struct AuthOffer {
    pub auth_type: Option<Seq<char>>,
    pub key: Option<Seq<char>>,
    pub key_password: Option<Seq<char>>,
    pub password: Option<Seq<char>>,
}

/// Whether an agent may be asked to log in.
#[derive(Clone, Copy, Debug, PartialEq, Eq, Structural)]
pub enum AgentUse {
    Allowed,
    Unused,
}

/// How to log in: by key where the host says so, and then it needs a key that is not blank; by
/// agent where the host says `none` and the agent may be asked; and else by password, which must
/// not be empty.
pub open spec fn chosen_auth(offer: AuthOffer, agent: AgentUse) -> Result<AuthView, Seq<char>> {
    if offer.auth_type == Some("key"@) {
        match offer.key {
            Some(key) => if crate::text::trimmed(key).len() > 0 {
                Ok(AuthView::Key { key, passphrase: offer.key_password })
            } else {
                Err("SSH key is missing"@)
            },
            None => Err("SSH key is missing"@),
        }
    } else if agent == AgentUse::Allowed && offer.auth_type == Some("none"@) {
        Ok(AuthView::Agent)
    } else {
        match offer.password {
            Some(password) => if password.len() > 0 {
                Ok(AuthView::Password { password })
            } else {
                Err("SSH password is missing"@)
            },
            None => Err("SSH password is missing"@),
        }
    }
}

/// The result of a choice as views.
pub open spec fn choice_view(r: Result<SshAuth, String>) -> Result<AuthView, Seq<char>> {
    match r {
        Ok(auth) => Ok(auth@),
        Err(message) => Err(message@),
    }
}

/// Whether a text that may be missing is a given one.
pub(crate) fn is_text(value: &Option<String>, text: &str) -> (r: bool)
    ensures
        r == (crate::json::string_view(*value) == Some(text@)),
{
    match value {
        Some(inner) => same_text(inner.as_str(), text),
        None => false,
    }
}

/// Chooses how to log in.
pub fn choose_auth(
    auth_type: &Option<String>,
    key: &Option<String>,
    key_password: &Option<String>,
    password: &Option<String>,
    agent: AgentUse,
) -> (r: Result<SshAuth, String>)
    ensures
        choice_view(r) == chosen_auth(
            AuthOffer {
                auth_type: crate::json::string_view(*auth_type),
                key: crate::json::string_view(*key),
                key_password: crate::json::string_view(*key_password),
                password: crate::json::string_view(*password),
            },
            agent,
        ),
{
    if is_text(auth_type, "key") {
        if let Some(text) = key {
            if !trim(text.as_str()).is_empty() {
                let passphrase: Option<String> = match key_password {
                    Some(phrase) => Some(phrase.clone()),
                    None => None,
                };
                return Ok(SshAuth::Key { key: text.clone(), passphrase });
            }
        }
        return Err("SSH key is missing".to_owned());
    }
    if agent == AgentUse::Allowed && is_text(auth_type, "none") {
        return Ok(SshAuth::Agent);
    }
    if let Some(text) = password {
        if !text.as_str().is_empty() {
            return Ok(SshAuth::Password { password: text.clone() });
        }
    }
    Err("SSH password is missing".to_owned())
}

/// The address of a host: its name, a colon and its port.
pub open spec fn host_address(ip: Seq<char>, port: int) -> Seq<char> {
    ip + ":"@ + crate::text::decimal(port)
}

// ---------------------------------------------------------------------------------------------
// The steps
// ---------------------------------------------------------------------------------------------

/// A step in making a connection.
#[derive(Clone, Copy, Debug, PartialEq, Eq, Structural)]
pub enum ConnectStep {
    /// Open the TCP connection.
    Tcp,
    /// Make the SSH session.
    Session,
    /// Shake hands with the host.
    Handshake,
    /// Log in with a key.
    KeyAuth,
    /// Log in with the agent.
    AgentAuth,
    /// Log in with a password.
    PasswordAuth,
    /// See whether the login holds.
    Authenticated,
    /// Open a channel.
    Channel,
    /// Ask for a terminal.
    Pty,
    /// Start the shell.
    Shell,
    /// The connection is there.
    Ready,
}

/// What a connection is made for.
#[derive(Clone, Copy, Debug, PartialEq, Eq, Structural)]
pub enum Purpose {
    Files,
    Terminal,
}

/// The step that logs in.
pub open spec fn auth_step(auth: AuthView) -> ConnectStep {
    match auth {
        AuthView::Key { .. } => ConnectStep::KeyAuth,
        AuthView::Agent => ConnectStep::AgentAuth,
        AuthView::Password { .. } => ConnectStep::PasswordAuth,
    }
}

/// The step that follows one that went well. How to log in is looked at after the handshake,
/// and where there is no way, the connection fails.
pub open spec fn step_after(
    step: ConnectStep,
    auth: Result<AuthView, Seq<char>>,
    purpose: Purpose,
) -> Result<ConnectStep, Seq<char>> {
    match step {
        ConnectStep::Tcp => Ok(ConnectStep::Session),
        ConnectStep::Session => Ok(ConnectStep::Handshake),
        ConnectStep::Handshake => match auth {
            Ok(way) => Ok(auth_step(way)),
            Err(message) => Err(message),
        },
        ConnectStep::KeyAuth => Ok(ConnectStep::Authenticated),
        ConnectStep::AgentAuth => Ok(ConnectStep::Authenticated),
        ConnectStep::PasswordAuth => Ok(ConnectStep::Authenticated),
        ConnectStep::Authenticated => Ok(
            match purpose {
                Purpose::Files => ConnectStep::Ready,
                Purpose::Terminal => ConnectStep::Channel,
            },
        ),
        ConnectStep::Channel => Ok(ConnectStep::Pty),
        ConnectStep::Pty => Ok(ConnectStep::Shell),
        ConnectStep::Shell => Ok(ConnectStep::Ready),
        ConnectStep::Ready => Ok(ConnectStep::Ready),
    }
}

/// The step that follows one that went well.
pub fn next_step(step: ConnectStep, auth: &Result<SshAuth, String>, purpose: Purpose) -> (r: Result<
    ConnectStep,
    String,
>)
    ensures
        (match r {
            Ok(next) => Ok(next),
            Err(message) => Err(message@),
        }) == step_after(step, choice_view(*auth), purpose),
{
    match step {
        ConnectStep::Tcp => Ok(ConnectStep::Session),
        ConnectStep::Session => Ok(ConnectStep::Handshake),
        ConnectStep::Handshake => match auth {
            Ok(SshAuth::Key { .. }) => Ok(ConnectStep::KeyAuth),
            Ok(SshAuth::Agent) => Ok(ConnectStep::AgentAuth),
            Ok(SshAuth::Password { .. }) => Ok(ConnectStep::PasswordAuth),
            Err(message) => Err(message.clone()),
        },
        ConnectStep::KeyAuth => Ok(ConnectStep::Authenticated),
        ConnectStep::AgentAuth => Ok(ConnectStep::Authenticated),
        ConnectStep::PasswordAuth => Ok(ConnectStep::Authenticated),
        ConnectStep::Authenticated => match purpose {
            Purpose::Files => Ok(ConnectStep::Ready),
            Purpose::Terminal => Ok(ConnectStep::Channel),
        },
        ConnectStep::Channel => Ok(ConnectStep::Pty),
        ConnectStep::Pty => Ok(ConnectStep::Shell),
        ConnectStep::Shell => Ok(ConnectStep::Ready),
        ConnectStep::Ready => Ok(ConnectStep::Ready),
    }
}

/// The words for a step that failed. A login that does not hold has no message of its own.
pub open spec fn failed_step(step: ConnectStep, message: Seq<char>) -> Seq<char> {
    match step {
        ConnectStep::Tcp => "TCP connection failed: "@ + message,
        ConnectStep::Session => "SSH session failed: "@ + message,
        ConnectStep::Handshake => "SSH handshake failed: "@ + message,
        ConnectStep::KeyAuth => "SSH key authentication failed: "@ + message,
        ConnectStep::AgentAuth => "SSH agent authentication failed: "@ + message,
        ConnectStep::PasswordAuth => "SSH password authentication failed: "@ + message,
        ConnectStep::Authenticated => "SSH authentication failed"@,
        ConnectStep::Channel => "SSH channel failed: "@ + message,
        ConnectStep::Pty => "PTY request failed: "@ + message,
        ConnectStep::Shell => "Shell request failed: "@ + message,
        ConnectStep::Ready => message,
    }
}

/// The words for a step that failed.
pub fn step_failure(step: ConnectStep, message: &str) -> (r: String)
    ensures
        r@ == failed_step(step, message@),
{
    match step {
        ConnectStep::Tcp => joined("TCP connection failed: ", message),
        ConnectStep::Session => joined("SSH session failed: ", message),
        ConnectStep::Handshake => joined("SSH handshake failed: ", message),
        ConnectStep::KeyAuth => joined("SSH key authentication failed: ", message),
        ConnectStep::AgentAuth => joined("SSH agent authentication failed: ", message),
        ConnectStep::PasswordAuth => joined("SSH password authentication failed: ", message),
        ConnectStep::Authenticated => "SSH authentication failed".to_owned(),
        ConnectStep::Channel => joined("SSH channel failed: ", message),
        ConnectStep::Pty => joined("PTY request failed: ", message),
        ConnectStep::Shell => joined("Shell request failed: ", message),
        ConnectStep::Ready => message.to_owned(),
    }
}

// ---------------------------------------------------------------------------------------------
// Laws
// ---------------------------------------------------------------------------------------------

/// The step that is reached after so many steps that went well, from the first on.
pub open spec fn step_at(n: nat, auth: Result<AuthView, Seq<char>>, purpose: Purpose) -> Result<
    ConnectStep,
    Seq<char>,
>
    decreases n,
{
    if n == 0 {
        Ok(ConnectStep::Tcp)
    } else {
        match step_at((n - 1) as nat, auth, purpose) {
            Ok(step) => step_after(step, auth, purpose),
            Err(message) => Err(message),
        }
    }
}

/// How many steps a connection takes.
pub open spec fn steps_needed(purpose: Purpose) -> nat {
    match purpose {
        Purpose::Files => 5,
        Purpose::Terminal => 8,
    }
}

/// A connection for which there is a way of logging in is made in the same steps every time: it
/// logs in by that way, sees whether the login holds, and is ready only after that; a terminal,
/// only after its shell was started too.
pub proof fn connections_log_in_first(auth: AuthView, purpose: Purpose)
    ensures
        step_at(0, Ok(auth), purpose) == Ok::<ConnectStep, Seq<char>>(ConnectStep::Tcp),
        step_at(3, Ok(auth), purpose) == Ok::<ConnectStep, Seq<char>>(auth_step(auth)),
        step_at(4, Ok(auth), purpose) == Ok::<ConnectStep, Seq<char>>(ConnectStep::Authenticated),
        purpose == Purpose::Files ==> step_at(5, Ok(auth), purpose) == Ok::<ConnectStep, Seq<char>>(
            ConnectStep::Ready,
        ),
        purpose == Purpose::Terminal ==> step_at(8, Ok(auth), purpose) == Ok::<
            ConnectStep,
            Seq<char>,
        >(ConnectStep::Ready),
        purpose == Purpose::Terminal ==> step_at(7, Ok(auth), purpose) == Ok::<
            ConnectStep,
            Seq<char>,
        >(ConnectStep::Shell),
        forall|n: nat|
            n < steps_needed(purpose) ==> #[trigger] step_at(n, Ok(auth), purpose) != Ok::<
                ConnectStep,
                Seq<char>,
            >(ConnectStep::Ready),
{
    reveal_with_fuel(step_at, 9);
    assert forall|n: nat| n < steps_needed(purpose) implies #[trigger] step_at(n, Ok(auth), purpose)
        != Ok::<ConnectStep, Seq<char>>(ConnectStep::Ready) by {
        assert(n == 0 || n == 1 || n == 2 || n == 3 || n == 4 || n == 5 || n == 6 || n == 7);
    }
}

/// A connection without a way of logging in fails after the handshake, for the reason that
/// there is none.
pub proof fn connections_without_login_fail(message: Seq<char>, purpose: Purpose, n: nat)
    requires
        n >= 3,
    ensures
        step_at(n, Err(message), purpose) == Err::<ConnectStep, Seq<char>>(message),
    decreases n,
{
    reveal_with_fuel(step_at, 4);
    if n > 3 {
        connections_without_login_fail(message, purpose, (n - 1) as nat);
    }
}

/// No connection logs in with a blank key or an empty password.
pub proof fn logins_are_never_blank(offer: AuthOffer, agent: AgentUse)
    ensures
        chosen_auth(offer, agent) matches Ok(AuthView::Key { key, passphrase })
            ==> crate::text::trimmed(key).len() > 0,
        chosen_auth(offer, agent) matches Ok(AuthView::Password { password }) ==> password.len() > 0,
        agent == AgentUse::Unused ==> !(chosen_auth(offer, agent) matches Ok(AuthView::Agent)),
{
}

/// A login by key takes the key and the passphrase that the host offers, one by password the
/// password, and one by agent neither; there is no login by key without a key that is not blank,
/// and none by password without a password.
pub proof fn logins_use_what_is_offered(offer: AuthOffer, agent: AgentUse)
    ensures
        chosen_auth(offer, agent) matches Ok(AuthView::Key { key, passphrase }) ==> offer.key
            == Some(key) && passphrase == offer.key_password && offer.auth_type == Some("key"@),
        chosen_auth(offer, agent) matches Ok(AuthView::Password { password }) ==> offer.password
            == Some(password) && password.len() > 0 && offer.auth_type != Some("key"@),
        chosen_auth(offer, agent) matches Ok(AuthView::Agent) ==> offer.auth_type == Some("none"@)
            && agent == AgentUse::Allowed,
{
    reveal_strlit("key");
    reveal_strlit("none");
    assert("key"@.len() != "none"@.len());
}

/// A host that says `key` and offers a key that is not blank is logged in to by key, one that
/// says `none` by agent where it may be asked, and every other by the password that it offers.
pub proof fn logins_follow_the_host(offer: AuthOffer, agent: AgentUse, i: int)
    ensures
        offer.auth_type == Some("key"@) && (offer.key matches Some(key) && 0 <= i < key.len()
            && !crate::text::white_space(key[i])) ==> chosen_auth(offer, agent) matches Ok(
            AuthView::Key { .. },
        ),
        offer.auth_type == Some("key"@) && offer.key is None ==> chosen_auth(offer, agent) is Err,
        offer.auth_type == Some("none"@) && agent == AgentUse::Allowed ==> chosen_auth(
            offer,
            agent,
        ) matches Ok(AuthView::Agent),
        offer.auth_type != Some("key"@) && (offer.auth_type != Some("none"@) || agent
            == AgentUse::Unused) ==> (chosen_auth(offer, agent) is Ok <==> (offer.password matches
            Some(password) && password.len() > 0)),
{
    reveal_strlit("key");
    reveal_strlit("none");
    assert("key"@.len() != "none"@.len());
    if let Some(key) = offer.key {
        crate::text::blank_texts_trim_to_nothing(key);
    }
}

/// What failed in connecting is told with the message of its error at the end, but for a login
/// that does not hold, which has none.
pub proof fn failures_keep_their_message(step: ConnectStep, message: Seq<char>)
    ensures
        step != ConnectStep::Authenticated ==> message.is_suffix_of(failed_step(step, message)),
{
    let words = failed_step(step, message);
    if step != ConnectStep::Authenticated {
        assert(words.subrange(words.len() - message.len(), words.len() as int) =~= message);
    }
}

/// A host is reached at its own name and port: the address begins with the name, and behind it
/// are a colon and the digits of the port, so that another port is another address.
pub proof fn hosts_are_reached_at_their_port(ip: Seq<char>, port: int, other: int)
    requires
        0 <= port <= 65535,
        0 <= other <= 65535,
    ensures
        ({
            let address = host_address(ip, port);
            &&& address.take(ip.len() as int) == ip
            &&& address[ip.len() as int] == ':'
            &&& crate::text::digits_value(address.skip(ip.len() as int + 1)) == port
        }),
        host_address(ip, port) == host_address(ip, other) <==> port == other,
{
    reveal_strlit(":");
    crate::text::decimals_read_back(port);
    crate::text::decimals_read_back(other);
    let at = ip.len() as int;
    assert(host_address(ip, port).take(at) =~= ip);
    assert(host_address(ip, port).skip(at + 1) =~= crate::text::decimal(port));
    assert(host_address(ip, other).skip(at + 1) =~= crate::text::decimal(other));
}

/// A way of logging in is seen with its own key, passphrase and password, and a choice as the way
/// or the reason that there is none.
pub proof fn logins_are_seen_whole(key: String, phrase: String, password: String, message: String)
    ensures
        (SshAuth::Key { key, passphrase: Some(phrase) })@ == (AuthView::Key {
            key: key@,
            passphrase: Some(phrase@),
        }),
        (SshAuth::Key { key, passphrase: None })@ == (AuthView::Key { key: key@, passphrase: None }),
        SshAuth::Agent@ == AuthView::Agent,
        (SshAuth::Password { password })@ == (AuthView::Password { password: password@ }),
        choice_view(Ok(SshAuth::Password { password })) == Ok::<AuthView, Seq<char>>(
            AuthView::Password { password: password@ },
        ),
        choice_view(Err(message)) == Err::<AuthView, Seq<char>>(message@),
{
}

} // verus!
