//! What the database is asked to do, what its rows hold, and how it fails.

use crate::error::{ApiError, ErrorView};
use crate::text::joined;
use vstd::prelude::*;

verus! {

/// The two tables of documents that belong to a user.
#[derive(Clone, Copy, Debug, PartialEq, Eq, Structural)]
pub enum RecordKind {
    Host,
    Credential,
}

/// A statement for the database.
#[derive(Debug)]
pub enum DbCommand {
    /// The user with a name.
    FindUser { username: String },
    /// A new user.
    InsertUser { user_id: String, username: String, password_hash: String, is_admin: bool },
    /// A new session.
    InsertSession { token: String, user_id: String, expires_at: i64, created_at: i64 },
    /// The session with a token, and its user.
    FindSession { token: String },
    /// The documents of a user, in the order of their numbers.
    ListRecords { kind: RecordKind, user_id: String },
    /// The document with a number, of one user or of any.
    FindRecord { kind: RecordKind, id: i64, owner: Option<String> },
    /// A new document.
    InsertRecord { kind: RecordKind, user_id: String, data: String, created_at: i64, updated_at: i64 },
    /// New text for a document of a user.
    UpdateRecord { kind: RecordKind, id: i64, user_id: String, data: String, updated_at: i64 },
    /// The end of a document of a user.
    DeleteRecord { kind: RecordKind, id: i64, user_id: String },
}

/// A statement with its texts as characters.
pub enum CommandView {
    FindUser { username: Seq<char> },
    InsertUser { user_id: Seq<char>, username: Seq<char>, password_hash: Seq<char>, is_admin: bool },
    InsertSession { token: Seq<char>, user_id: Seq<char>, expires_at: int, created_at: int },
    FindSession { token: Seq<char> },
    ListRecords { kind: RecordKind, user_id: Seq<char> },
    FindRecord { kind: RecordKind, id: int, owner: Option<Seq<char>> },
    InsertRecord {
        kind: RecordKind,
        user_id: Seq<char>,
        data: Seq<char>,
        created_at: int,
        updated_at: int,
    },
    UpdateRecord { kind: RecordKind, id: int, user_id: Seq<char>, data: Seq<char>, updated_at: int },
    DeleteRecord { kind: RecordKind, id: int, user_id: Seq<char> },
}

impl View for DbCommand {
    type V = CommandView;

    open spec fn view(&self) -> CommandView {
        match *self {
            DbCommand::FindUser { username } => CommandView::FindUser { username: username@ },
            DbCommand::InsertUser { user_id, username, password_hash, is_admin } =>
                CommandView::InsertUser {
                user_id: user_id@,
                username: username@,
                password_hash: password_hash@,
                is_admin,
            },
            DbCommand::InsertSession { token, user_id, expires_at, created_at } =>
                CommandView::InsertSession {
                token: token@,
                user_id: user_id@,
                expires_at: expires_at as int,
                created_at: created_at as int,
            },
            DbCommand::FindSession { token } => CommandView::FindSession { token: token@ },
            DbCommand::ListRecords { kind, user_id } => CommandView::ListRecords {
                kind,
                user_id: user_id@,
            },
            DbCommand::FindRecord { kind, id, owner } => CommandView::FindRecord {
                kind,
                id: id as int,
                owner: crate::json::string_view(owner),
            },
            DbCommand::InsertRecord { kind, user_id, data, created_at, updated_at } =>
                CommandView::InsertRecord {
                kind,
                user_id: user_id@,
                data: data@,
                created_at: created_at as int,
                updated_at: updated_at as int,
            },
            DbCommand::UpdateRecord { kind, id, user_id, data, updated_at } =>
                CommandView::UpdateRecord {
                kind,
                id: id as int,
                user_id: user_id@,
                data: data@,
                updated_at: updated_at as int,
            },
            DbCommand::DeleteRecord { kind, id, user_id } => CommandView::DeleteRecord {
                kind,
                id: id as int,
                user_id: user_id@,
            },
        }
    }
}

impl CommandView {
    /// Whether the statement reads or writes documents.
    pub open spec fn on_records(self) -> bool {
        match self {
            CommandView::ListRecords { .. } => true,
            CommandView::FindRecord { .. } => true,
            CommandView::InsertRecord { .. } => true,
            CommandView::UpdateRecord { .. } => true,
            CommandView::DeleteRecord { .. } => true,
            _ => false,
        }
    }

    /// Whether the statement touches documents of one user only.
    pub open spec fn confined_to(self, user: Seq<char>) -> bool {
        match self {
            CommandView::ListRecords { user_id, .. } => user_id == user,
            CommandView::FindRecord { owner, .. } => owner == Some(user),
            CommandView::InsertRecord { user_id, .. } => user_id == user,
            CommandView::UpdateRecord { user_id, .. } => user_id == user,
            CommandView::DeleteRecord { user_id, .. } => user_id == user,
            _ => true,
        }
    }
}

/// A stored document: its number, its text and its two times.
#[derive(Debug)]
pub struct RecordRow {
    pub id: i64,
    pub data: String,
    pub created_at: i64,
    pub updated_at: i64,
}

/// A user as the database holds it, its flags as integers.
#[derive(Debug)]
pub struct UserRow {
    pub id: String,
    pub username: String,
    pub password_hash: String,
    pub is_admin: i64,
    pub is_oidc: i64,
    pub totp_enabled: i64,
}

/// A session with its user, the flags as integers.
#[derive(Debug)]
pub struct SessionRow {
    pub user_id: String,
    pub username: String,
    pub is_admin: i64,
    pub is_oidc: i64,
    pub totp_enabled: i64,
    pub expires_at: i64,
}

/// How a statement fails: the database could not be had, the statement could not be prepared or
/// run, or one of its rows could not be read. All but the first carry a message.
#[derive(Debug)]
pub enum DbFault {
    Locked,
    Prepare(String),
    Run(String),
    Row(String),
}

/// A failure with its message as characters.
pub enum FaultView {
    Locked,
    Prepare(Seq<char>),
    Run(Seq<char>),
    Row(Seq<char>),
}

impl View for DbFault {
    type V = FaultView;

    open spec fn view(&self) -> FaultView {
        match *self {
            DbFault::Locked => FaultView::Locked,
            DbFault::Prepare(message) => FaultView::Prepare(message@),
            DbFault::Run(message) => FaultView::Run(message@),
            DbFault::Row(message) => FaultView::Row(message@),
        }
    }
}

/// What a request is answered whose statement failed, with the words for each step.
pub open spec fn list_fault(
    fault: FaultView,
    prepare: Seq<char>,
    run: Seq<char>,
    row: Seq<char>,
) -> ErrorView {
    match fault {
        FaultView::Locked => crate::error::internal("Database lock poisoned"@),
        FaultView::Prepare(message) => crate::error::internal(prepare + message),
        FaultView::Run(message) => crate::error::internal(run + message),
        FaultView::Row(message) => crate::error::internal(row + message),
    }
}

/// What a request is answered whose statement failed, with the same words for every step.
pub open spec fn plain_fault(fault: FaultView, words: Seq<char>) -> ErrorView {
    list_fault(fault, words, words, words)
}

impl DbFault {
    /// The error of a request whose statement failed, with the words for each step.
    pub fn in_list(self, prepare: &str, run: &str, row: &str) -> (r: ApiError)
        ensures
            r@ == list_fault(self@, prepare@, run@, row@),
    {
        match self {
            DbFault::Locked => ApiError::internal("Database lock poisoned"),
            DbFault::Prepare(message) => ApiError::internal(
                joined(prepare, message.as_str()).as_str(),
            ),
            DbFault::Run(message) => ApiError::internal(joined(run, message.as_str()).as_str()),
            DbFault::Row(message) => ApiError::internal(joined(row, message.as_str()).as_str()),
        }
    }

    /// The error of a request whose statement failed, with the same words for every step.
    pub fn plain(self, words: &str) -> (r: ApiError)
        ensures
            r@ == plain_fault(self@, words@),
    {
        self.in_list(words, words, words)
    }
}

// ---------------------------------------------------------------------------------------------
// Laws
// ---------------------------------------------------------------------------------------------

/// A statement that fails is a failure of the server, told in the words for the step that failed
/// and with the message of its error behind them.
pub proof fn faults_are_told_in_their_words(
    message: Seq<char>,
    prepare: Seq<char>,
    run: Seq<char>,
    row: Seq<char>,
)
    ensures
        list_fault(FaultView::Prepare(message), prepare, run, row) == (ErrorView {
            status: 500,
            message: prepare + message,
        }),
        list_fault(FaultView::Run(message), prepare, run, row) == (ErrorView {
            status: 500,
            message: run + message,
        }),
        list_fault(FaultView::Row(message), prepare, run, row) == (ErrorView {
            status: 500,
            message: row + message,
        }),
        list_fault(FaultView::Locked, prepare, run, row).status == 500,
        plain_fault(FaultView::Run(message), run) == (ErrorView {
            status: 500,
            message: run + message,
        }),
{
}

/// A statement is seen with every part of it as it is.
pub proof fn statements_are_seen_whole(
    kind: RecordKind,
    id: i64,
    user_id: String,
    data: String,
    token: String,
    flag: bool,
    first: i64,
    second: i64,
)
    ensures
        (DbCommand::FindUser { username: data })@ == (CommandView::FindUser { username: data@ }),
        (DbCommand::InsertUser { user_id, username: data, password_hash: token, is_admin: flag })@
            == (CommandView::InsertUser {
            user_id: user_id@,
            username: data@,
            password_hash: token@,
            is_admin: flag,
        }),
        (DbCommand::InsertSession { token, user_id, expires_at: first, created_at: second })@ == (
        CommandView::InsertSession {
            token: token@,
            user_id: user_id@,
            expires_at: first as int,
            created_at: second as int,
        }),
        (DbCommand::FindSession { token })@ == (CommandView::FindSession { token: token@ }),
        (DbCommand::ListRecords { kind, user_id })@ == (CommandView::ListRecords {
            kind,
            user_id: user_id@,
        }),
        (DbCommand::FindRecord { kind, id, owner: Some(user_id) })@ == (CommandView::FindRecord {
            kind,
            id: id as int,
            owner: Some(user_id@),
        }),
        (DbCommand::FindRecord { kind, id, owner: None })@ == (CommandView::FindRecord {
            kind,
            id: id as int,
            owner: None,
        }),
        (DbCommand::InsertRecord { kind, user_id, data, created_at: first, updated_at: second })@
            == (CommandView::InsertRecord {
            kind,
            user_id: user_id@,
            data: data@,
            created_at: first as int,
            updated_at: second as int,
        }),
        (DbCommand::UpdateRecord { kind, id, user_id, data, updated_at: first })@ == (
        CommandView::UpdateRecord {
            kind,
            id: id as int,
            user_id: user_id@,
            data: data@,
            updated_at: first as int,
        }),
        (DbCommand::DeleteRecord { kind, id, user_id })@ == (CommandView::DeleteRecord {
            kind,
            id: id as int,
            user_id: user_id@,
        }),
{
}

/// A failure is seen as what it is, with its message.
pub proof fn faults_are_seen_whole(message: String)
    ensures
        DbFault::Locked@ == FaultView::Locked,
        DbFault::Prepare(message)@ == FaultView::Prepare(message@),
        DbFault::Run(message)@ == FaultView::Run(message@),
        DbFault::Row(message)@ == FaultView::Row(message@),
{
}

} // verus!
