//! Credentials: how they are checked, shown, updated and used.

use crate::accounts::{UserResponse, UserView};
use crate::clock::timestamp_string;
use crate::documents::{
    delete_record, find_record, insert_record, list_records, success, update_record, Granted,
    RecordUpdate,
};
use crate::error::{ApiError, ErrorView};
use crate::json::{Fields, Json, JsonView, NumberView};
use crate::json_text::{parse_json, parse_stored, print_json};
use crate::records::{apply_defaults, preserve_string_fields, Defaults};
use crate::store::{CommandView, DbCommand, DbFault, RecordKind, RecordRow};
use crate::text::{joined, same_text, trim};
use vstd::prelude::*;
use vstd::string::*;

verus! {

// ---------------------------------------------------------------------------------------------
// Checks
// ---------------------------------------------------------------------------------------------

/// Whether a payload is a credential: it has a name that is not blank, and is used by password,
/// which is what it is used by where it does not say, or by key.
pub open spec fn valid_credential(payload: JsonView) -> bool {
    &&& payload.text_at("name"@) matches Some(name) && crate::text::trimmed(name).len() > 0
    &&& payload.text_at("authType"@) matches Some(auth_type) ==> auth_type == "password"@
        || auth_type == "key"@
}

/// Checks the payload of a credential.
pub fn validate_credential_payload(payload: &Json) -> (r: Result<(), ApiError>)
    ensures
        r is Ok <==> valid_credential(payload@),
        r matches Err(error) ==> error@ == crate::error::bad_request("Invalid credential data"@),
{
    let name_ok: bool = match payload.text_at("name") {
        Some(name) => !trim(name).is_empty(),
        None => false,
    };
    let auth_type: &str = match payload.text_at("authType") {
        Some(auth_type) => auth_type,
        None => "password",
    };
    if !name_ok || !(same_text(auth_type, "password") || same_text(auth_type, "key")) {
        return Err(ApiError::bad_request("Invalid credential data"));
    }
    Ok(())
}

// ---------------------------------------------------------------------------------------------
// Showing a credential
// ---------------------------------------------------------------------------------------------

/// What a credential is shown with where it does not say.
pub open spec fn credential_defaults() -> Defaults {
    seq![
        ("description"@, JsonView::Text(""@)),
        ("folder"@, JsonView::Text(""@)),
        ("tags"@, JsonView::Array(Seq::empty())),
        ("authType"@, JsonView::Text("password"@)),
        ("usageCount"@, JsonView::Number(NumberView::Integer(0))),
        ("lastUsed"@, JsonView::Null),
    ]
}

fn default_members() -> (r: Vec<(&'static str, Json)>)
    ensures
        crate::records::defaults_view(r@) == credential_defaults(),
{
    let r: Vec<(&'static str, Json)> = vec![
        ("description", Json::from_text("")),
        ("folder", Json::from_text("")),
        ("tags", Json::empty_array()),
        ("authType", Json::from_text("password")),
        ("usageCount", Json::from_i64(0)),
        ("lastUsed", Json::Null),
    ];
    proof {
        assert(crate::records::defaults_view(r@) =~= credential_defaults());
    }
    r
}

/// The members of a credential as it is shown: those that are stored, with the defaults for
/// those that are not, under the number, the owner and the times of the row.
pub open spec fn shown_credential(
    id: int,
    user_id: Seq<char>,
    stored: Fields,
    created_at: int,
    updated_at: int,
) -> Fields {
    crate::records::with_defaults(
        stored.insert("id"@, JsonView::Number(NumberView::Integer(id))).insert(
            "userId"@,
            JsonView::Text(user_id),
        ),
        credential_defaults(),
    ).insert("createdAt"@, JsonView::Text(crate::text::decimal(created_at))).insert(
        "updatedAt"@,
        JsonView::Text(crate::text::decimal(updated_at)),
    )
}

/// The body that shows a stored credential; one that is no object is shown as one without
/// members.
pub open spec fn credential_body(
    id: int,
    user_id: Seq<char>,
    stored: JsonView,
    created_at: int,
    updated_at: int,
) -> JsonView {
    JsonView::Object(
        shown_credential(id, user_id, stored.fields_or_empty(), created_at, updated_at),
    )
}

/// Shows a credential.
pub fn credential_json(
    id: i64,
    user_id: &str,
    data: Json,
    created_at: i64,
    updated_at: i64,
) -> (r: Json)
    ensures
        r@ == credential_body(id as int, user_id@, data@, created_at as int, updated_at as int),
{
    let mut object = data.into_object();
    object.insert("id".to_owned(), Json::from_i64(id));
    object.insert("userId".to_owned(), Json::from_text(user_id));
    apply_defaults(&mut object, default_members());
    object.insert("createdAt".to_owned(), Json::Text(timestamp_string(created_at)));
    object.insert("updatedAt".to_owned(), Json::Text(timestamp_string(updated_at)));
    Json::Object(object)
}

// ---------------------------------------------------------------------------------------------
// Updating a credential
// ---------------------------------------------------------------------------------------------

/// The way a credential is used: what the payload says, else what is stored, else `password`.
pub open spec fn merged_auth_type(payload: Fields, existing: Fields) -> Seq<char> {
    match crate::json::field_text(payload, "authType"@) {
        Some(text) => text,
        None => match crate::json::field_text(existing, "authType"@) {
            Some(text) => text,
            None => "password"@,
        },
    }
}

/// The secrets that an update keeps where it leaves them out.
pub open spec fn kept_secrets(auth_type: Seq<char>) -> Seq<Seq<char>> {
    if auth_type == "password"@ {
        seq!["password"@]
    } else if auth_type == "key"@ {
        seq!["key"@, "publicKey"@, "keyPassword"@, "keyType"@]
    } else {
        Seq::empty()
    }
}

/// What an update makes of a stored credential.
pub open spec fn merged_credential(payload: JsonView, existing: JsonView) -> JsonView {
    match (payload, existing) {
        (JsonView::Object(sent), JsonView::Object(stored)) => JsonView::Object(
            crate::records::preserved_all(
                sent,
                stored,
                kept_secrets(merged_auth_type(sent, stored)),
            ),
        ),
        _ => payload,
    }
}

fn secrets_to_keep(auth_type: &str) -> (r: Vec<&'static str>)
    ensures
        crate::records::keys_view(r@) == kept_secrets(auth_type@),
{
    let r: Vec<&'static str> = if same_text(auth_type, "password") {
        vec!["password"]
    } else if same_text(auth_type, "key") {
        vec!["key", "publicKey", "keyPassword", "keyType"]
    } else {
        Vec::new()
    };
    proof {
        assert(crate::records::keys_view(r@) =~= kept_secrets(auth_type@));
    }
    r
}

/// Keeps the stored secrets that an update of a credential leaves out.
pub fn merge_preserved_credential_fields(payload: &mut Json, existing: &Json)
    ensures
        final(payload)@ == merged_credential(old(payload)@, existing@),
{
    let stored = match existing {
        Json::Object(stored) => stored,
        _ => return,
    };
    let mut taken = Json::Null;
    std::mem::swap(&mut taken, payload);
    let mut object = match taken {
        Json::Object(object) => object,
        other => {
            *payload = other;
            return;
        },
    };
    let auth_type: String = match object.get("authType") {
        Some(Json::Text(text)) => text.clone(),
        _ => match stored.get("authType") {
            Some(Json::Text(text)) => text.clone(),
            _ => "password".to_owned(),
        },
    };
    preserve_string_fields(&mut object, stored, secrets_to_keep(auth_type.as_str()));
    *payload = Json::Object(object);
}

// ---------------------------------------------------------------------------------------------
// Using a credential
// ---------------------------------------------------------------------------------------------

/// What a credential gives for logging in.
#[derive(Debug)]
pub struct CredentialAuth {
    pub username: Option<String>,
    pub password: Option<String>,
    pub key: Option<String>,
    pub key_password: Option<String>,
    pub auth_type: String,
}

/// What a credential gives for logging in, with its texts as characters.
pub struct CredentialView {
    pub username: Option<Seq<char>>,
    pub password: Option<Seq<char>>,
    pub key: Option<Seq<char>>,
    pub key_password: Option<Seq<char>>,
    pub auth_type: Seq<char>,
}

impl View for CredentialAuth {
    type V = CredentialView;

    open spec fn view(&self) -> CredentialView {
        CredentialView {
            username: crate::json::string_view(self.username),
            password: crate::json::string_view(self.password),
            key: crate::json::string_view(self.key),
            key_password: crate::json::string_view(self.key_password),
            auth_type: self.auth_type@,
        }
    }
}

/// The text under a key, where there is one that is not empty.
pub open spec fn full_text_at(data: JsonView, key: Seq<char>) -> Option<Seq<char>> {
    match data.text_at(key) {
        Some(text) => if text.len() > 0 {
            Some(text)
        } else {
            None
        },
        None => None,
    }
}

fn full_text(data: &Json, key: &str) -> (r: Option<String>)
    ensures
        crate::json::string_view(r) == full_text_at(data@, key@),
{
    match data.text_at(key) {
        Some(text) => if text.is_empty() {
            None
        } else {
            Some(text.to_owned())
        },
        None => None,
    }
}

/// What stored data gives for logging in.
pub open spec fn auth_of(data: JsonView) -> CredentialView {
    CredentialView {
        username: full_text_at(data, "username"@),
        password: full_text_at(data, "password"@),
        key: full_text_at(data, "key"@),
        key_password: full_text_at(data, "keyPassword"@),
        auth_type: match data.text_at("authType"@) {
            Some(auth_type) => auth_type,
            None => "password"@,
        },
    }
}

/// Reads what a credential gives for logging in.
pub fn credential_auth(data: &Json) -> (r: CredentialAuth)
    ensures
        r@ == auth_of(data@),
{
    CredentialAuth {
        username: full_text(data, "username"),
        password: full_text(data, "password"),
        key: full_text(data, "key"),
        key_password: full_text(data, "keyPassword"),
        auth_type: match data.text_at("authType") {
            Some(auth_type) => auth_type.to_owned(),
            None => "password".to_owned(),
        },
    }
}

/// The statement that finds a credential among those of a user, or among all where no user is
/// given.
pub open spec fn credential_lookup(id: int, user_id: Option<Seq<char>>) -> CommandView {
    CommandView::FindRecord { kind: RecordKind::Credential, id, owner: user_id }
}

/// The statement that finds the credential of a connection, where it has one: among those of a
/// user, or among all where no user is given.
pub fn find_credential(credential_id: Option<i64>, user_id: Option<&str>) -> (r: Option<DbCommand>)
    ensures
        match credential_id {
            Some(id) => r matches Some(command) && command@ == credential_lookup(
                id as int,
                crate::json::chars_view(user_id),
            ),
            None => r is None,
        },
{
    match credential_id {
        Some(id) => {
            let owner: Option<String> = match user_id {
                Some(user_id) => Some(user_id.to_owned()),
                None => None,
            };
            Some(DbCommand::FindRecord { kind: RecordKind::Credential, id, owner })
        },
        None => None,
    }
}

/// What becomes of the credential of a connection.
pub open spec fn credential_outcome(found: Result<Option<RecordRow>, DbFault>) -> Result<
    CredentialView,
    Seq<char>,
> {
    match found {
        Ok(Some(row)) => match crate::json_text::parsed_json(row.data@) {
            Ok(data) => Ok(auth_of(data)),
            Err(message) => Err("Invalid credential data: "@ + message),
        },
        Ok(None) => Err("Credential not found"@),
        Err(fault) => Err(
            crate::store::plain_fault(fault@, "Failed to load credential: "@).message,
        ),
    }
}

/// Reads the credential of a connection, given the row that was found.
pub fn resolve_credential_auth(found: Result<Option<RecordRow>, DbFault>) -> (r: Result<
    CredentialAuth,
    String,
>)
    ensures
        (match r {
            Ok(auth) => Ok(auth@),
            Err(message) => Err(message@),
        }) == credential_outcome(found),
{
    match found {
        Ok(Some(row)) => match parse_json(row.data.as_str()) {
            Ok(data) => Ok(credential_auth(&data)),
            Err(message) => Err(joined("Invalid credential data: ", message.as_str())),
        },
        Ok(None) => Err("Credential not found".to_owned()),
        Err(fault) => Err(fault.plain("Failed to load credential: ").message),
    }
}

// ---------------------------------------------------------------------------------------------
// Requests
// ---------------------------------------------------------------------------------------------

/// The body that shows the credential of a row.
pub open spec fn row_body(row: RecordRow, user_id: Seq<char>) -> JsonView {
    credential_body(
        row.id as int,
        user_id,
        crate::json_text::stored_tree(row.data@),
        row.created_at as int,
        row.updated_at as int,
    )
}

/// Lets a user list its credentials.
pub fn list_credentials(auth: Result<UserResponse, ApiError>) -> (r: Result<Granted, ApiError>)
    ensures
        crate::documents::granted_view(r) == crate::documents::access(
            crate::sessions::auth_view(auth),
            |user: UserView| crate::documents::list_command(RecordKind::Credential, user),
        ),
{
    list_records(RecordKind::Credential, auth)
}

/// What a list of credentials comes to: every row is shown, in its order.
pub open spec fn credentials_outcome(
    rows: Result<Vec<RecordRow>, DbFault>,
    user_id: Seq<char>,
) -> Result<JsonView, ErrorView> {
    match rows {
        Ok(found) => Ok(
            JsonView::Array(found@.map_values(|row: RecordRow| row_body(row, user_id))),
        ),
        Err(fault) => Err(
            crate::store::list_fault(
                fault@,
                "Failed to prepare credential query: "@,
                "Failed to query credentials: "@,
                "Failed to read credential row: "@,
            ),
        ),
    }
}

/// Shows the credentials of a user, given the rows that were found.
pub fn list_credentials_reply(
    user: &UserResponse,
    rows: Result<Vec<RecordRow>, DbFault>,
) -> (r: Result<Json, ApiError>)
    ensures
        crate::error::outcome(r) == credentials_outcome(rows, user.user_id@),
{
    let found = match rows {
        Ok(found) => found,
        Err(fault) => return Err(
            fault.in_list(
                "Failed to prepare credential query: ",
                "Failed to query credentials: ",
                "Failed to read credential row: ",
            ),
        ),
    };
    let mut credentials: Vec<Json> = Vec::new();
    for i in 0..found.len()
        invariant
            credentials@.len() == i,
            forall|j: int|
                0 <= j < i ==> #[trigger] credentials@[j]@ == row_body(found@[j], user.user_id@),
    {
        let row = &found[i];
        credentials.push(
            credential_json(
                row.id,
                user.user_id.as_str(),
                parse_stored(row.data.as_str()),
                row.created_at,
                row.updated_at,
            ),
        );
    }
    let ghost items = credentials@;
    let body = Json::Array(credentials);
    proof {
        let expected = found@.map_values(|row: RecordRow| row_body(row, user.user_id@));
        assert forall|j: int| 0 <= j < expected.len() implies body@->Array_0[j] == expected[j] by {
            assert(items[j]@ == row_body(found@[j], user.user_id@));
        }
        assert(body@->Array_0 =~= expected);
    }
    Ok(body)
}

/// What a request to create a credential leads to. The payload is checked first, and then the
/// user.
pub open spec fn credential_creation(
    auth: Result<UserView, ErrorView>,
    payload: JsonView,
    now: int,
) -> Result<(UserView, CommandView), ErrorView> {
    if !valid_credential(payload) {
        Err(crate::error::bad_request("Invalid credential data"@))
    } else {
        match auth {
            Ok(user) => Ok(
                (
                    user,
                    crate::documents::insert_command(
                        RecordKind::Credential,
                        user,
                        crate::json_text::printed_json(payload),
                        now,
                    ),
                ),
            ),
            Err(error) => Err(error),
        }
    }
}

/// Lets a user create a credential.
pub fn create_credential(auth: Result<UserResponse, ApiError>, payload: &Json, now: i64) -> (r:
    Result<Granted, ApiError>)
    ensures
        crate::documents::granted_view(r) == credential_creation(
            crate::sessions::auth_view(auth),
            payload@,
            now as int,
        ),
        r is Ok && crate::json_text::readable(payload@) ==> crate::json_text::stored_tree(
            crate::json_text::printed_json(payload@),
        ) == payload@,
{
    if let Err(error) = validate_credential_payload(payload) {
        return Err(error);
    }
    let user = match auth {
        Ok(user) => user,
        Err(error) => return Err(error),
    };
    let command = insert_record(RecordKind::Credential, &user, print_json(payload), now);
    Ok(Granted { user, command })
}

/// Shows a credential that was created, given the number that the database gave it.
pub fn create_credential_reply(
    user: &UserResponse,
    payload: Json,
    stored: Result<i64, DbFault>,
    now: i64,
) -> (r: Result<Json, ApiError>)
    ensures
        crate::error::outcome(r) == match stored {
            Ok(id) => Ok::<JsonView, ErrorView>(
                credential_body(id as int, user.user_id@, payload@, now as int, now as int),
            ),
            Err(fault) => Err(crate::store::plain_fault(fault@, "Failed to save credential: "@)),
        },
{
    match stored {
        Ok(id) => Ok(credential_json(id, user.user_id.as_str(), payload, now, now)),
        Err(fault) => Err(fault.plain("Failed to save credential: ")),
    }
}

/// Lets a user get one of its credentials.
pub fn get_credential(auth: Result<UserResponse, ApiError>, credential_id: i64) -> (r: Result<
    Granted,
    ApiError,
>)
    ensures
        crate::documents::granted_view(r) == crate::documents::access(
            crate::sessions::auth_view(auth),
            |user: UserView|
                crate::documents::find_command(RecordKind::Credential, credential_id as int, user),
        ),
{
    find_record(RecordKind::Credential, credential_id, auth)
}

/// What a request for a credential comes to.
pub open spec fn credential_reply_outcome(
    found: Result<Option<RecordRow>, DbFault>,
    credential_id: int,
    user_id: Seq<char>,
) -> Result<JsonView, ErrorView> {
    match found {
        Ok(Some(row)) => Ok(
            credential_body(
                credential_id,
                user_id,
                crate::json_text::stored_tree(row.data@),
                row.created_at as int,
                row.updated_at as int,
            ),
        ),
        Ok(None) => Err(crate::error::not_found("Credential not found"@)),
        Err(fault) => Err(crate::store::plain_fault(fault@, "Failed to load credential: "@)),
    }
}

/// Shows a credential, given the row that was found.
pub fn get_credential_reply(
    user: &UserResponse,
    credential_id: i64,
    found: Result<Option<RecordRow>, DbFault>,
) -> (r: Result<Json, ApiError>)
    ensures
        crate::error::outcome(r) == credential_reply_outcome(
            found,
            credential_id as int,
            user.user_id@,
        ),
{
    match found {
        Ok(Some(row)) => Ok(
            credential_json(
                credential_id,
                user.user_id.as_str(),
                parse_stored(row.data.as_str()),
                row.created_at,
                row.updated_at,
            ),
        ),
        Ok(None) => Err(ApiError::not_found("Credential not found")),
        Err(fault) => Err(fault.plain("Failed to load credential: ")),
    }
}

/// Lets a user update one of its credentials: the payload is checked first, then the user, and
/// the stored credential is looked up.
pub fn update_credential(
    auth: Result<UserResponse, ApiError>,
    credential_id: i64,
    payload: &Json,
) -> (r: Result<Granted, ApiError>)
    ensures
        crate::documents::granted_view(r) == if valid_credential(payload@) {
            crate::documents::access(
                crate::sessions::auth_view(auth),
                |user: UserView|
                    crate::documents::find_command(
                        RecordKind::Credential,
                        credential_id as int,
                        user,
                    ),
            )
        } else {
            Err(crate::error::bad_request("Invalid credential data"@))
        },
{
    if let Err(error) = validate_credential_payload(payload) {
        return Err(error);
    }
    find_record(RecordKind::Credential, credential_id, auth)
}

/// What an update of a stored credential leads to: the payload takes over the secrets that it
/// leaves out, and replaces the document.
pub open spec fn credential_update(
    found: Result<Option<RecordRow>, DbFault>,
    credential_id: int,
    user: UserView,
    payload: JsonView,
    now: int,
) -> Result<(JsonView, CommandView), ErrorView> {
    match found {
        Ok(Some(row)) => {
            let merged = merged_credential(payload, crate::json_text::stored_tree(row.data@));
            Ok(
                (
                    merged,
                    crate::documents::update_command(
                        RecordKind::Credential,
                        credential_id,
                        user,
                        crate::json_text::printed_json(merged),
                        now,
                    ),
                ),
            )
        },
        Ok(None) => Err(crate::error::not_found("Credential not found"@)),
        Err(fault) => Err(crate::store::plain_fault(fault@, "Failed to load credential: "@)),
    }
}

/// Updates a stored credential, given the row that was found.
pub fn update_credential_merge(
    user: &UserResponse,
    credential_id: i64,
    payload: Json,
    found: Result<Option<RecordRow>, DbFault>,
    now: i64,
) -> (r: Result<RecordUpdate, ApiError>)
    ensures
        crate::documents::update_view(r) == credential_update(
            found,
            credential_id as int,
            user@,
            payload@,
            now as int,
        ),
        r matches Ok(update) ==> (crate::json_text::readable(update.payload@)
            ==> crate::json_text::stored_tree(crate::json_text::printed_json(update.payload@))
            == update.payload@),
{
    let row = match found {
        Ok(Some(row)) => row,
        Ok(None) => return Err(ApiError::not_found("Credential not found")),
        Err(fault) => return Err(fault.plain("Failed to load credential: ")),
    };
    let existing = parse_stored(row.data.as_str());
    let mut merged = payload;
    merge_preserved_credential_fields(&mut merged, &existing);
    let command = update_record(
        RecordKind::Credential,
        credential_id,
        user,
        print_json(&merged),
        now,
    );
    Ok(RecordUpdate { payload: merged, command })
}

/// Shows a credential that was updated.
pub fn update_credential_reply(
    user: &UserResponse,
    credential_id: i64,
    payload: Json,
    updated: Result<usize, DbFault>,
    now: i64,
) -> (r: Result<Json, ApiError>)
    ensures
        crate::error::outcome(r) == match updated {
            Ok(_) => Ok::<JsonView, ErrorView>(
                credential_body(
                    credential_id as int,
                    user.user_id@,
                    payload@,
                    now as int,
                    now as int,
                ),
            ),
            Err(fault) => Err(crate::store::plain_fault(fault@, "Failed to update credential: "@)),
        },
{
    match updated {
        Ok(_) => Ok(credential_json(credential_id, user.user_id.as_str(), payload, now, now)),
        Err(fault) => Err(fault.plain("Failed to update credential: ")),
    }
}

/// Lets a user delete one of its credentials.
pub fn delete_credential(auth: Result<UserResponse, ApiError>, credential_id: i64) -> (r: Result<
    Granted,
    ApiError,
>)
    ensures
        crate::documents::granted_view(r) == crate::documents::access(
            crate::sessions::auth_view(auth),
            |user: UserView|
                crate::documents::delete_command(RecordKind::Credential, credential_id as int, user),
        ),
{
    delete_record(RecordKind::Credential, credential_id, auth)
}

/// Answers the deletion of a credential, whether it was there or not.
pub fn delete_credential_reply(deleted: Result<(), DbFault>) -> (r: Result<Json, ApiError>)
    ensures
        crate::error::outcome(r) == match deleted {
            Ok(_) => Ok::<JsonView, ErrorView>(crate::documents::success_body()),
            Err(fault) => Err(crate::store::plain_fault(fault@, "Failed to delete credential: "@)),
        },
{
    match deleted {
        Ok(_) => Ok(success()),
        Err(fault) => Err(fault.plain("Failed to delete credential: ")),
    }
}

// ---------------------------------------------------------------------------------------------
// Laws
// ---------------------------------------------------------------------------------------------

/// Showing a credential keeps everything that is stored, but for its number, its owner and its
/// times.
pub proof fn showing_keeps_stored_members(
    id: int,
    user_id: Seq<char>,
    stored: Fields,
    created_at: int,
    updated_at: int,
    key: Seq<char>,
)
    requires
        stored.contains_key(key),
        key != "id"@,
        key != "userId"@,
        key != "createdAt"@,
        key != "updatedAt"@,
    ensures
        shown_credential(id, user_id, stored, created_at, updated_at).contains_key(key),
        shown_credential(id, user_id, stored, created_at, updated_at)[key] == stored[key],
{
    let numbered = stored.insert("id"@, JsonView::Number(NumberView::Integer(id))).insert(
        "userId"@,
        JsonView::Text(user_id),
    );
    crate::records::defaults_keep_what_is_there(numbered, credential_defaults(), key);
}

/// A shown credential has a value for every member that has a default.
pub proof fn showing_fills_every_default(
    id: int,
    user_id: Seq<char>,
    stored: Fields,
    created_at: int,
    updated_at: int,
    i: int,
)
    requires
        0 <= i < credential_defaults().len(),
    ensures
        shown_credential(id, user_id, stored, created_at, updated_at).contains_key(
            credential_defaults()[i].0,
        ),
{
    let numbered = stored.insert("id"@, JsonView::Number(NumberView::Integer(id))).insert(
        "userId"@,
        JsonView::Text(user_id),
    );
    crate::records::defaults_fill_every_key(numbered, credential_defaults(), i);
}

/// A member of an updated credential is the one that was sent, or the stored text of a secret
/// that was left out.
pub proof fn updating_takes_payload_or_stored_secret(payload: Fields, existing: Fields, key: Seq<char>)
    ensures
        ({
            let merged = merged_credential(JsonView::Object(payload), JsonView::Object(existing));
            let kept = kept_secrets(merged_auth_type(payload, existing)).contains(key)
                && crate::records::left_out(payload, key) && crate::records::has_text(existing, key);
            merged.member(key) == if kept {
                Some(existing[key])
            } else {
                JsonView::Object(payload).member(key)
            }
        }),
{
    let secrets = kept_secrets(merged_auth_type(payload, existing));
    crate::records::preserving_works_field_by_field(payload, existing, secrets, key);
}

/// Sending a credential back as it is stored changes nothing.
pub proof fn updating_by_itself_changes_nothing(credential: JsonView)
    ensures
        merged_credential(credential, credential) == credential,
{
    if let JsonView::Object(fields) = credential {
        crate::records::preserving_from_itself_changes_nothing(
            fields,
            kept_secrets(merged_auth_type(fields, fields)),
        );
    }
}

/// An update keeps a credential valid: its name and the way it is used are those of the payload.
pub proof fn updating_keeps_valid(payload: JsonView, existing: JsonView)
    requires
        valid_credential(payload),
    ensures
        valid_credential(merged_credential(payload, existing)),
{
    if let (JsonView::Object(sent), JsonView::Object(stored)) = (payload, existing) {
        reveal_strlit("name");
        reveal_strlit("authType");
        reveal_strlit("password");
        reveal_strlit("key");
        reveal_strlit("publicKey");
        reveal_strlit("keyPassword");
        reveal_strlit("keyType");
        let secrets = kept_secrets(merged_auth_type(sent, stored));
        assert("authType"@[0] == 'a');
        assert("password"@[0] == 'p');
        assert forall|i: int| 0 <= i < secrets.len() implies #[trigger] secrets[i] != "name"@
            && secrets[i] != "authType"@ by {
            assert("name"@.len() == 4);
            assert("authType"@.len() == 8);
            assert(secrets[i].len() == 8 ==> secrets[i] == "password"@);
        }
        updating_takes_payload_or_stored_secret(sent, stored, "name"@);
        updating_takes_payload_or_stored_secret(sent, stored, "authType"@);
    }
}

/// The names of the members that showing a credential computes or fills in are all different.
proof fn lemma_member_names()
    ensures
        "description"@.len() == 11,
        "folder"@.len() == 6,
        "folder"@[0] == 'f',
        "tags"@.len() == 4,
        "authType"@.len() == 8,
        "authType"@[0] == 'a',
        "usageCount"@.len() == 10,
        "lastUsed"@.len() == 8,
        "lastUsed"@[0] == 'l',
        "id"@.len() == 2,
        "userId"@.len() == 6,
        "userId"@[0] == 'u',
        "createdAt"@.len() == 9,
        "createdAt"@[0] == 'c',
        "updatedAt"@.len() == 9,
        "updatedAt"@[0] == 'u',
{
    reveal_strlit("description");
    reveal_strlit("folder");
    reveal_strlit("tags");
    reveal_strlit("authType");
    reveal_strlit("usageCount");
    reveal_strlit("lastUsed");
    reveal_strlit("id");
    reveal_strlit("userId");
    reveal_strlit("createdAt");
    reveal_strlit("updatedAt");
}

/// A shown credential carries the number of its row, its owner and the two times of the row in
/// decimal, whatever is stored under these names.
pub proof fn shown_credentials_carry_their_row(
    id: int,
    user_id: Seq<char>,
    stored: JsonView,
    created_at: int,
    updated_at: int,
)
    ensures
        ({
            let body = credential_body(id, user_id, stored, created_at, updated_at);
            &&& body is Object
            &&& body.integer_at("id"@) == Some(id)
            &&& body.text_at("userId"@) == Some(user_id)
            &&& body.text_at("createdAt"@) == Some(crate::text::decimal(created_at))
            &&& body.text_at("updatedAt"@) == Some(crate::text::decimal(updated_at))
        }),
{
    lemma_member_names();
    let numbered = stored.fields_or_empty().insert(
        "id"@,
        JsonView::Number(NumberView::Integer(id)),
    ).insert("userId"@, JsonView::Text(user_id));
    crate::records::defaults_keep_what_is_there(numbered, credential_defaults(), "id"@);
    crate::records::defaults_keep_what_is_there(numbered, credential_defaults(), "userId"@);
}

/// A credential that says nothing of it is shown with these: it has no description, folder or
/// tags, is used by password, and was never used.
pub proof fn credentials_are_shown_with_these_defaults(
    id: int,
    user_id: Seq<char>,
    stored: Fields,
    created_at: int,
    updated_at: int,
)
    ensures
        ({
            let shown = shown_credential(id, user_id, stored, created_at, updated_at);
            &&& !stored.contains_key("description"@) ==> shown["description"@]
                == JsonView::Text(""@)
            &&& !stored.contains_key("folder"@) ==> shown["folder"@] == JsonView::Text(""@)
            &&& !stored.contains_key("tags"@) ==> shown["tags"@] == JsonView::Array(Seq::empty())
            &&& !stored.contains_key("authType"@) ==> shown["authType"@]
                == JsonView::Text("password"@)
            &&& !stored.contains_key("usageCount"@) ==> shown["usageCount"@]
                == JsonView::Number(NumberView::Integer(0))
            &&& !stored.contains_key("lastUsed"@) ==> shown["lastUsed"@] == JsonView::Null
        }),
{
    lemma_member_names();
    let numbered = stored.insert("id"@, JsonView::Number(NumberView::Integer(id))).insert(
        "userId"@,
        JsonView::Text(user_id),
    );
    if !stored.contains_key("description"@) {
        crate::records::defaults_give_their_values(numbered, credential_defaults(), 0);
    }
    if !stored.contains_key("folder"@) {
        crate::records::defaults_give_their_values(numbered, credential_defaults(), 1);
    }
    if !stored.contains_key("tags"@) {
        crate::records::defaults_give_their_values(numbered, credential_defaults(), 2);
    }
    if !stored.contains_key("authType"@) {
        crate::records::defaults_give_their_values(numbered, credential_defaults(), 3);
    }
    if !stored.contains_key("usageCount"@) {
        crate::records::defaults_give_their_values(numbered, credential_defaults(), 4);
    }
    if !stored.contains_key("lastUsed"@) {
        crate::records::defaults_give_their_values(numbered, credential_defaults(), 5);
    }
}

/// A shown credential has no members but those that are stored, those that have a default, and
/// its number, its owner and its times.
pub proof fn showing_a_credential_adds_nothing_else(
    id: int,
    user_id: Seq<char>,
    stored: Fields,
    created_at: int,
    updated_at: int,
    key: Seq<char>,
)
    requires
        shown_credential(id, user_id, stored, created_at, updated_at).contains_key(key),
        !stored.contains_key(key),
        key != "id"@,
        key != "userId"@,
        key != "createdAt"@,
        key != "updatedAt"@,
    ensures
        exists|i: int|
            0 <= i < credential_defaults().len() && #[trigger] credential_defaults()[i].0 == key,
{
    let numbered = stored.insert("id"@, JsonView::Number(NumberView::Integer(id))).insert(
        "userId"@,
        JsonView::Text(user_id),
    );
    if forall|i: int|
        0 <= i < credential_defaults().len() ==> #[trigger] credential_defaults()[i].0 != key {
        crate::records::defaults_add_only_their_keys(numbered, credential_defaults(), key);
    }
}

/// The names of the secrets of a credential and of the ways to use it are all different.
proof fn lemma_secret_names()
    ensures
        "password"@.len() == 8,
        "password"@[0] == 'p',
        "key"@.len() == 3,
        "publicKey"@.len() == 9,
        "keyPassword"@.len() == 11,
        "keyType"@.len() == 7,
        "authType"@.len() == 8,
        "authType"@[0] == 'a',
        "username"@.len() == 8,
        "username"@[0] == 'u',
        "name"@.len() == 4,
{
    reveal_strlit("password");
    reveal_strlit("key");
    reveal_strlit("publicKey");
    reveal_strlit("keyPassword");
    reveal_strlit("keyType");
    reveal_strlit("authType");
    reveal_strlit("username");
    reveal_strlit("name");
}

/// Whether an update lets a credential be used in a way: it says so itself, says nothing and the
/// stored credential does, or neither says anything and the way is by password.
pub open spec fn used_by(payload: Fields, existing: Fields, way: Seq<char>) -> bool {
    let sent = JsonView::Object(payload).member("authType"@);
    let stored = JsonView::Object(existing).member("authType"@);
    ||| sent == Some(JsonView::Text(way))
    ||| !(sent matches Some(JsonView::Text(_))) && stored == Some(JsonView::Text(way))
    ||| !(sent matches Some(JsonView::Text(_))) && !(stored matches Some(JsonView::Text(_))) && way
        == "password"@
}

/// A credential that is used by password never loses its password, and one that is used by key
/// never its key, public key, passphrase or type, because an update leaves them out: the merged
/// credential has the very text that is stored.
pub proof fn updating_loses_no_secret(payload: Fields, existing: Fields, text: Seq<char>)
    requires
        text.len() > 0,
    ensures
        ({
            let merged = merged_credential(JsonView::Object(payload), JsonView::Object(existing));
            let kept = |key: Seq<char>|
                crate::records::left_out(payload, key) && existing.contains_key(key)
                    && existing[key] == JsonView::Text(text) ==> merged.text_at(key) == Some(text);
            &&& used_by(payload, existing, "password"@) ==> kept("password"@)
            &&& used_by(payload, existing, "key"@) ==> kept("key"@) && kept("publicKey"@) && kept(
                "keyPassword"@,
            ) && kept("keyType"@)
        }),
{
    lemma_secret_names();
    let way = merged_auth_type(payload, existing);
    let secrets = kept_secrets(way);
    if way == "password"@ {
        assert(secrets[0] == "password"@);
    } else if way == "key"@ {
        assert(secrets[0] == "key"@ && secrets[1] == "publicKey"@ && secrets[2] == "keyPassword"@
            && secrets[3] == "keyType"@);
    }
    updating_takes_payload_or_stored_secret(payload, existing, "password"@);
    updating_takes_payload_or_stored_secret(payload, existing, "key"@);
    updating_takes_payload_or_stored_secret(payload, existing, "publicKey"@);
    updating_takes_payload_or_stored_secret(payload, existing, "keyPassword"@);
    updating_takes_payload_or_stored_secret(payload, existing, "keyType"@);
}

/// An update takes nothing else from the stored credential: whatever is sent stays as it was
/// sent, and what is not sent is gone, unless it is a secret of the way it is used.
pub proof fn updating_takes_nothing_else_over(payload: Fields, existing: Fields, key: Seq<char>)
    requires
        !crate::records::left_out(payload, key) || (!(key == "password"@ && used_by(
            payload,
            existing,
            "password"@,
        )) && !((key == "key"@ || key == "publicKey"@ || key == "keyPassword"@ || key
            == "keyType"@) && used_by(payload, existing, "key"@))),
    ensures
        merged_credential(JsonView::Object(payload), JsonView::Object(existing)).member(key)
            == JsonView::Object(payload).member(key),
{
    lemma_secret_names();
    updating_takes_payload_or_stored_secret(payload, existing, key);
    let secrets = kept_secrets(merged_auth_type(payload, existing));
    if secrets.contains(key) {
        let i = choose|i: int| 0 <= i < secrets.len() && secrets[i] == key;
        assert(secrets[i] == key);
    }
}

/// A payload or a stored document that is no object is not merged: the payload stays.
pub proof fn only_objects_are_merged(payload: JsonView, existing: JsonView)
    requires
        !(payload is Object) || !(existing is Object),
    ensures
        merged_credential(payload, existing) == payload,
{
}

/// A payload is a credential just where it has a name with a character that is no white space,
/// and says `password`, `key` or nothing of the way it is used.
pub proof fn credentials_need_a_name(payload: JsonView)
    ensures
        valid_credential(payload) <==> (exists|name: Seq<char>, i: int|
            payload.member("name"@) == Some(JsonView::Text(name)) && 0 <= i < name.len()
                && !crate::text::white_space(#[trigger] name[i])) && (payload.member("authType"@)
            matches Some(JsonView::Text(way)) ==> way == "password"@ || way == "key"@),
{
    if let Some(name) = payload.text_at("name"@) {
        crate::text::blank_texts_trim_to_nothing(name);
        assert(payload.member("name"@) == Some(JsonView::Text(name)));
        if crate::text::trimmed(name).len() > 0 {
            let i = choose|i: int|
                0 <= i < name.len() && !crate::text::white_space(#[trigger] name[i]);
            assert(!crate::text::white_space(name[i]));
        }
    }
}

/// What is stored under a name is what a credential gives for it: the user name under
/// `username`, the password under `password`, the key under `key` and the passphrase under
/// `keyPassword`, each where the text there is not empty, and none otherwise.
pub proof fn credentials_give_what_they_store(stored: Fields, text: Seq<char>)
    ensures
        ({
            let auth = auth_of(JsonView::Object(stored));
            let gives = |given: Option<Seq<char>>, key: Seq<char>|
                given == Some(text) <==> text.len() > 0 && stored.contains_key(key) && stored[key]
                    == JsonView::Text(text);
            &&& gives(auth.username, "username"@)
            &&& gives(auth.password, "password"@)
            &&& gives(auth.key, "key"@)
            &&& gives(auth.key_password, "keyPassword"@)
        }),
{
}

/// A credential is used in the way that it stores under `authType`, and by password where it
/// stores none.
pub proof fn credentials_are_used_as_they_say(stored: Fields, way: Seq<char>)
    ensures
        stored.contains_key("authType"@) && stored["authType"@] == JsonView::Text(way) ==> auth_of(
            JsonView::Object(stored),
        ).auth_type == way,
        !stored.contains_key("authType"@) || !(stored["authType"@] is Text) ==> auth_of(
            JsonView::Object(stored),
        ).auth_type == "password"@,
{
}

/// The user name, the password, the key and the passphrase that a credential gives do not depend
/// on anything else that it stores, its name and its label among them.
pub proof fn credentials_give_nothing_else(a: Fields, b: Fields)
    requires
        JsonView::Object(a).member("username"@) == JsonView::Object(b).member("username"@),
        JsonView::Object(a).member("password"@) == JsonView::Object(b).member("password"@),
        JsonView::Object(a).member("key"@) == JsonView::Object(b).member("key"@),
        JsonView::Object(a).member("keyPassword"@) == JsonView::Object(b).member("keyPassword"@),
        JsonView::Object(a).member("authType"@) == JsonView::Object(b).member("authType"@),
    ensures
        auth_of(JsonView::Object(a)) == auth_of(JsonView::Object(b)),
{
}

/// The credential of a connection is read from the row that was found, and there is none where
/// there is no row or its text is no JSON.
pub proof fn connections_use_the_stored_credential(row: RecordRow, stored: JsonView)
    ensures
        crate::json_text::parsed_json(row.data@) == Ok::<JsonView, Seq<char>>(stored)
            ==> credential_outcome(Ok(Some(row))) == Ok::<CredentialView, Seq<char>>(
            auth_of(stored),
        ),
        crate::json_text::parsed_json(row.data@) is Err ==> credential_outcome(Ok(Some(row))) is Err,
        credential_outcome(Ok(None)) is Err,
{
}

/// A credential is shown alone as it is shown in a list, and one that is not there is refused
/// with status 404.
pub proof fn credentials_are_shown_alike(row: RecordRow, user_id: Seq<char>)
    ensures
        credential_reply_outcome(Ok(Some(row)), row.id as int, user_id) == Ok::<
            JsonView,
            ErrorView,
        >(row_body(row, user_id)),
        credential_reply_outcome(Ok(None), row.id as int, user_id) matches Err(error)
            && error.status == 404,
{
}

/// A payload that is no credential is refused with status 400 and nothing is stored; any other
/// is stored as it was sent, for the user who sent it.
pub proof fn only_credentials_are_stored(user: UserView, payload: JsonView, now: int)
    ensures
        !valid_credential(payload) ==> (credential_creation(Ok(user), payload, now) matches Err(
            error,
        ) && error.status == 400),
        valid_credential(payload) ==> (credential_creation(Ok(user), payload, now) matches Ok(
            (owner, command),
        ) && owner == user && (command matches CommandView::InsertRecord {
            kind,
            user_id,
            data,
            created_at,
            updated_at,
        } && kind == RecordKind::Credential && user_id == user.user_id && data
            == crate::json_text::printed_json(payload) && created_at == now && updated_at == now)),
{
}

/// An update stores the merged credential in the place of the one that was found.
pub proof fn updates_replace_what_was_found(
    row: RecordRow,
    id: int,
    user: UserView,
    payload: JsonView,
    now: int,
)
    ensures
        ({
            let merged = merged_credential(payload, crate::json_text::stored_tree(row.data@));
            credential_update(Ok(Some(row)), id, user, payload, now) matches Ok((shown, command))
                && shown == merged && (command matches CommandView::UpdateRecord {
                kind,
                id: number,
                user_id,
                data,
                updated_at,
            } && kind == RecordKind::Credential && number == id && user_id == user.user_id && data
                == crate::json_text::printed_json(merged) && updated_at == now)
        }),
        credential_update(Ok(None), id, user, payload, now) matches Err(error) && error.status
            == 404,
{
}

/// A connection of a user looks for its credential among those of that user and nowhere else.
pub proof fn connections_look_among_their_users_credentials(id: int, user_id: Seq<char>)
    ensures
        credential_lookup(id, Some(user_id)).confined_to(user_id),
        credential_lookup(id, Some(user_id)) matches CommandView::FindRecord {
            kind,
            id: number,
            owner,
        } && kind == RecordKind::Credential && number == id && owner == Some(user_id),
{
}

/// What a credential gives is seen with each part of it as it is.
pub proof fn logins_are_seen_whole(auth: CredentialAuth)
    ensures
        auth@.username == crate::json::string_view(auth.username),
        auth@.password == crate::json::string_view(auth.password),
        auth@.key == crate::json::string_view(auth.key),
        auth@.key_password == crate::json::string_view(auth.key_password),
        auth@.auth_type == auth.auth_type@,
{
}

} // verus!
