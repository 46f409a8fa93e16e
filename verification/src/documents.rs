//! The documents of a user: which statement a request for one leads to, and how rows become
//! bodies.

use crate::accounts::{UserResponse, UserView};
use crate::error::{ApiError, ErrorView};
use crate::json::{Json, JsonObject, JsonView};
use crate::store::{CommandView, DbCommand, RecordKind};
use vstd::prelude::*;

verus! {

/// A request that may go on: its user, and the statement that it needs.
#[derive(Debug)]
pub struct Granted {
    pub user: UserResponse,
    pub command: DbCommand,
}

/// What a request leads to: a user with a statement, or a refusal.
pub open spec fn granted_view(r: Result<Granted, ApiError>) -> Result<
    (UserView, CommandView),
    ErrorView,
> {
    match r {
        Ok(granted) => Ok((granted.user@, granted.command@)),
        Err(error) => Err(error@),
    }
}

/// The statement that lists the documents of a user.
pub open spec fn list_command(kind: RecordKind, user: UserView) -> CommandView {
    CommandView::ListRecords { kind, user_id: user.user_id }
}

/// The statement that finds a document of a user.
pub open spec fn find_command(kind: RecordKind, id: int, user: UserView) -> CommandView {
    CommandView::FindRecord { kind, id, owner: Some(user.user_id) }
}

/// The statement that stores a new document of a user.
pub open spec fn insert_command(
    kind: RecordKind,
    user: UserView,
    data: Seq<char>,
    now: int,
) -> CommandView {
    CommandView::InsertRecord {
        kind,
        user_id: user.user_id,
        data,
        created_at: now,
        updated_at: now,
    }
}

/// The statement that replaces a document of a user.
pub open spec fn update_command(
    kind: RecordKind,
    id: int,
    user: UserView,
    data: Seq<char>,
    now: int,
) -> CommandView {
    CommandView::UpdateRecord { kind, id, user_id: user.user_id, data, updated_at: now }
}

/// The statement that deletes a document of a user.
pub open spec fn delete_command(kind: RecordKind, id: int, user: UserView) -> CommandView {
    CommandView::DeleteRecord { kind, id, user_id: user.user_id }
}

/// What a request leads to whose statement depends on its user alone.
pub open spec fn access(
    auth: Result<UserView, ErrorView>,
    command: spec_fn(UserView) -> CommandView,
) -> Result<(UserView, CommandView), ErrorView> {
    match auth {
        Ok(user) => Ok((user, command(user))),
        Err(error) => Err(error),
    }
}

/// Lets a user list its documents.
pub fn list_records(kind: RecordKind, auth: Result<UserResponse, ApiError>) -> (r: Result<
    Granted,
    ApiError,
>)
    ensures
        granted_view(r) == access(
            crate::sessions::auth_view(auth),
            |user: UserView| list_command(kind, user),
        ),
{
    match auth {
        Ok(user) => {
            let command = DbCommand::ListRecords { kind, user_id: user.user_id.clone() };
            Ok(Granted { user, command })
        },
        Err(error) => Err(error),
    }
}

/// Lets a user find one of its documents.
pub fn find_record(
    kind: RecordKind,
    id: i64,
    auth: Result<UserResponse, ApiError>,
) -> (r: Result<Granted, ApiError>)
    ensures
        granted_view(r) == access(
            crate::sessions::auth_view(auth),
            |user: UserView| find_command(kind, id as int, user),
        ),
{
    match auth {
        Ok(user) => {
            let command = DbCommand::FindRecord { kind, id, owner: Some(user.user_id.clone()) };
            Ok(Granted { user, command })
        },
        Err(error) => Err(error),
    }
}

/// Lets a user delete one of its documents.
pub fn delete_record(
    kind: RecordKind,
    id: i64,
    auth: Result<UserResponse, ApiError>,
) -> (r: Result<Granted, ApiError>)
    ensures
        granted_view(r) == access(
            crate::sessions::auth_view(auth),
            |user: UserView| delete_command(kind, id as int, user),
        ),
{
    match auth {
        Ok(user) => {
            let command = DbCommand::DeleteRecord { kind, id, user_id: user.user_id.clone() };
            Ok(Granted { user, command })
        },
        Err(error) => Err(error),
    }
}

/// The statement that stores a text as a new document of a user.
pub fn insert_record(kind: RecordKind, user: &UserResponse, data: String, now: i64) -> (r: DbCommand)
    ensures
        r@ == insert_command(kind, user@, data@, now as int),
{
    DbCommand::InsertRecord {
        kind,
        user_id: user.user_id.clone(),
        data,
        created_at: now,
        updated_at: now,
    }
}

/// The statement that replaces a document of a user by a text.
pub fn update_record(
    kind: RecordKind,
    id: i64,
    user: &UserResponse,
    data: String,
    now: i64,
) -> (r: DbCommand)
    ensures
        r@ == update_command(kind, id as int, user@, data@, now as int),
{
    DbCommand::UpdateRecord { kind, id, user_id: user.user_id.clone(), data, updated_at: now }
}

/// An update that may be stored: the new document, and the statement that stores it.
#[derive(Debug)]
pub struct RecordUpdate {
    pub payload: Json,
    pub command: DbCommand,
}

/// An update as views.
pub open spec fn update_view(r: Result<RecordUpdate, ApiError>) -> Result<
    (JsonView, CommandView),
    ErrorView,
> {
    match r {
        Ok(update) => Ok((update.payload@, update.command@)),
        Err(error) => Err(error@),
    }
}

/// The body of a request that has nothing more to say.
pub open spec fn success_body() -> JsonView {
    JsonView::Object(map!["success"@ => JsonView::Bool(true)])
}

/// The body of a request that has nothing more to say.
pub fn success() -> (r: Json)
    ensures
        r@ == success_body(),
{
    Json::Object(JsonObject::new().with("success", Json::Bool(true)))
}

// ---------------------------------------------------------------------------------------------
// Laws
// ---------------------------------------------------------------------------------------------

/// Every statement that a request leads to touches documents of its own user only.
pub proof fn statements_stay_with_their_user(
    kind: RecordKind,
    id: int,
    user: UserView,
    data: Seq<char>,
    now: int,
)
    ensures
        list_command(kind, user).confined_to(user.user_id),
        find_command(kind, id, user).confined_to(user.user_id),
        insert_command(kind, user, data, now).confined_to(user.user_id),
        update_command(kind, id, user, data, now).confined_to(user.user_id),
        delete_command(kind, id, user).confined_to(user.user_id),
{
}

/// A request that is not authenticated leads to no statement: it is refused as authentication
/// was.
pub proof fn refused_requests_touch_nothing(
    error: ErrorView,
    command: spec_fn(UserView) -> CommandView,
)
    ensures
        access(Err(error), command) == Err::<(UserView, CommandView), ErrorView>(error),
{
}

/// Every statement names the table, the document and the user of its request, and a new document
/// is made and changed at the time of the request.
pub proof fn statements_name_what_was_asked_for(
    kind: RecordKind,
    id: int,
    user: UserView,
    data: Seq<char>,
    now: int,
)
    ensures
        list_command(kind, user) matches CommandView::ListRecords { kind: table, user_id } && table
            == kind && user_id == user.user_id,
        find_command(kind, id, user) matches CommandView::FindRecord {
            kind: table,
            id: number,
            owner,
        } && table == kind && number == id && owner == Some(user.user_id),
        delete_command(kind, id, user) matches CommandView::DeleteRecord {
            kind: table,
            id: number,
            user_id,
        } && table == kind && number == id && user_id == user.user_id,
        insert_command(kind, user, data, now) matches CommandView::InsertRecord {
            kind: table,
            user_id,
            data: text,
            created_at,
            updated_at,
        } && table == kind && user_id == user.user_id && text == data && created_at == now
            && updated_at == now,
        update_command(kind, id, user, data, now) matches CommandView::UpdateRecord {
            kind: table,
            id: number,
            user_id,
            data: text,
            updated_at,
        } && table == kind && number == id && user_id == user.user_id && text == data && updated_at
            == now,
{
}

/// A request that is authenticated leads to the statement for its own user.
pub proof fn granted_requests_are_their_users(
    user: UserView,
    command: spec_fn(UserView) -> CommandView,
)
    ensures
        access(Ok(user), command) matches Ok((who, statement)) && who == user && statement
            == command(user),
{
}

/// A request is seen as its user and its statement, an update as its document and its statement,
/// and both as their refusal where they are refused.
pub proof fn requests_are_seen_whole(granted: Granted, update: RecordUpdate, error: ApiError)
    ensures
        granted_view(Ok(granted)) == Ok::<(UserView, CommandView), ErrorView>(
            (granted.user@, granted.command@),
        ),
        granted_view(Err(error)) == Err::<(UserView, CommandView), ErrorView>(error@),
        update_view(Ok(update)) == Ok::<(JsonView, CommandView), ErrorView>(
            (update.payload@, update.command@),
        ),
        update_view(Err(error)) == Err::<(JsonView, CommandView), ErrorView>(error@),
        success_body().bool_at("success"@) == Some(true),
{
}

} // verus!
