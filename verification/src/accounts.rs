//! Users, logins and sessions.

use crate::error::{ApiError, ErrorView, Reply, ReplyView};
use crate::json::{Json, JsonObject, JsonView, NumberView};
use crate::store::{CommandView, DbCommand, DbFault, FaultView, UserRow};
use crate::text::{contains, i64_text, joined, trim};
use vstd::prelude::*;
use vstd::string::*;

verus! {

// ---------------------------------------------------------------------------------------------
// Outside functions
// ---------------------------------------------------------------------------------------------

/// What `bcrypt::verify` finds: whether a password belongs to a hash, or the message of the
/// error of a text that is no hash.
pub uninterp spec fn password_check(password: Seq<char>, hash: Seq<char>) -> Result<
    bool,
    Seq<char>,
>;

/// `bcrypt::verify`. Its result is a function of the password and the hash.
#[verifier::external_body]
fn verify_password(password: &str, hash: &str) -> (r: Result<bool, String>)
    ensures
        match r {
            Ok(matches) => password_check(password@, hash@) == Ok::<bool, Seq<char>>(matches),
            Err(message) => password_check(password@, hash@) == Err::<bool, Seq<char>>(message@),
        },
{
    bcrypt::verify(password, hash).map_err(|error| error.to_string())
}

/// Whether `bcrypt::verify` finds a password in a hash.
pub open spec fn password_fits(password: Seq<char>, hash: Seq<char>) -> bool {
    password_check(password, hash) == Ok::<bool, Seq<char>>(true)
}

/// The shape of a hash that `bcrypt::hash` makes at its default cost.
pub open spec fn hash_shape(hash: Seq<char>) -> bool {
    hash.len() == 60 && "$2b$12$"@.is_prefix_of(hash)
}

/// `bcrypt::hash` at `bcrypt::DEFAULT_COST`. The salt is random, so the hash is not known; but
/// it has the shape of a hash of that cost, and `bcrypt::verify` finds the password in it. It
/// fails only where the machine gives no random bytes.
#[verifier::external_body]
fn hash_password(password: &str) -> (r: Result<String, String>)
    ensures
        r matches Ok(hash) ==> hash_shape(hash@) && password_fits(password@, hash@),
{
    bcrypt::hash(password, bcrypt::DEFAULT_COST).map_err(|error| error.to_string())
}

/// A small hexadecimal digit.
pub open spec fn hex_digit(c: char) -> bool {
    '0' <= c <= '9' || 'a' <= c <= 'f'
}

/// The text of a random UUID: groups of 8, 4, 4, 4 and 12 digits with hyphens between them,
/// the version and the variant in their places.
pub open spec fn uuid_text(text: Seq<char>) -> bool {
    &&& text.len() == 36
    &&& forall|i: int|
        0 <= i < 36 ==> if i == 8 || i == 13 || i == 18 || i == 23 {
            #[trigger] text[i] == '-'
        } else {
            hex_digit(text[i])
        }
    &&& text[14] == '4'
    &&& text[19] == '8' || text[19] == '9' || text[19] == 'a' || text[19] == 'b'
}

/// `uuid::Uuid::new_v4` as text. The digits are random; only their shape is known. The call
/// panics where the machine gives no random bytes.
#[verifier::external_body]
pub(crate) fn fresh_uuid() -> (r: String)
    ensures
        uuid_text(r@),
{
    uuid::Uuid::new_v4().to_string()
}

// ---------------------------------------------------------------------------------------------
// Requests and users
// ---------------------------------------------------------------------------------------------

/// The request for a new user.
#[derive(Debug)]
pub struct CreateUserRequest {
    pub username: String,
    pub password: String,
}

/// The request for a session.
#[derive(Debug)]
pub struct LoginRequest {
    pub username: String,
    pub password: String,
    pub remember_me: Option<bool>,
}

/// A user who is authenticated.
#[derive(Debug)]
pub struct UserResponse {
    pub user_id: String,
    pub username: String,
    pub is_admin: bool,
    pub is_oidc: bool,
    pub totp_enabled: bool,
    pub data_unlocked: bool,
}

/// An authenticated user with its texts as characters.
pub struct UserView {
    pub user_id: Seq<char>,
    pub username: Seq<char>,
    pub is_admin: bool,
    pub is_oidc: bool,
    pub totp_enabled: bool,
    pub data_unlocked: bool,
}

impl View for UserResponse {
    type V = UserView;

    open spec fn view(&self) -> UserView {
        UserView {
            user_id: self.user_id@,
            username: self.username@,
            is_admin: self.is_admin,
            is_oidc: self.is_oidc,
            totp_enabled: self.totp_enabled,
            data_unlocked: self.data_unlocked,
        }
    }
}

impl UserView {
    /// The user as JSON.
    pub open spec fn json(self) -> JsonView {
        JsonView::Object(
            map![
                "userId"@ => JsonView::Text(self.user_id),
                "username"@ => JsonView::Text(self.username),
                "is_admin"@ => JsonView::Bool(self.is_admin),
                "is_oidc"@ => JsonView::Bool(self.is_oidc),
                "totp_enabled"@ => JsonView::Bool(self.totp_enabled),
                "data_unlocked"@ => JsonView::Bool(self.data_unlocked),
            ],
        )
    }
}

impl UserResponse {
    /// The user as JSON.
    pub fn to_json(&self) -> (r: Json)
        ensures
            r@ == self@.json(),
    {
        Json::Object(
            JsonObject::new().with("userId", Json::from_text(self.user_id.as_str())).with(
                "username",
                Json::from_text(self.username.as_str()),
            ).with("is_admin", Json::Bool(self.is_admin)).with(
                "is_oidc",
                Json::Bool(self.is_oidc),
            ).with("totp_enabled", Json::Bool(self.totp_enabled)).with(
                "data_unlocked",
                Json::Bool(self.data_unlocked),
            ),
        )
    }
}

// ---------------------------------------------------------------------------------------------
// New users
// ---------------------------------------------------------------------------------------------

/// The number of users, once the database has counted them.
pub fn user_count_value(counted: Result<i64, DbFault>) -> (r: Result<i64, ApiError>)
    ensures
        match counted {
            Ok(count) => r == Ok::<i64, ApiError>(count),
            Err(fault) => r matches Err(error) && error@ == crate::store::plain_fault(
                fault@,
                "Failed to count users: "@,
            ),
        },
{
    match counted {
        Ok(count) => Ok(count),
        Err(fault) => Err(fault.plain("Failed to count users: ")),
    }
}

/// Whether the first user is still missing.
pub fn setup_required(counted: Result<i64, DbFault>) -> (r: Result<Json, ApiError>)
    ensures
        crate::error::outcome(r) == match counted {
            Ok(count) => Ok::<JsonView, ErrorView>(
                JsonView::Object(map!["setup_required"@ => JsonView::Bool(becomes_admin(count as int))]),
            ),
            Err(fault) => Err(crate::store::plain_fault(fault@, "Failed to count users: "@)),
        },
{
    match user_count_value(counted) {
        Ok(count) => Ok(
            Json::Object(JsonObject::new().with("setup_required", Json::Bool(count == 0))),
        ),
        Err(error) => Err(error),
    }
}

/// The number of users as a body.
pub fn user_count(counted: Result<i64, DbFault>) -> (r: Result<Json, ApiError>)
    ensures
        crate::error::outcome(r) == match counted {
            Ok(count) => Ok::<JsonView, ErrorView>(
                JsonView::Object(
                    map!["count"@ => JsonView::Number(NumberView::Integer(count as int))],
                ),
            ),
            Err(fault) => Err(crate::store::plain_fault(fault@, "Failed to count users: "@)),
        },
{
    match user_count_value(counted) {
        Ok(count) => Ok(Json::Object(JsonObject::new().with("count", Json::from_i64(count)))),
        Err(error) => Err(error),
    }
}

/// A user who may be stored: the name without the white space around it, and the hash.
#[derive(Debug)]
pub struct PreparedUser {
    pub username: String,
    pub password_hash: String,
}

/// The name that a user is kept and found under: the one that is typed, without the white space
/// around it.
pub open spec fn kept_name(username: Seq<char>) -> Seq<char> {
    crate::text::trimmed(username)
}

/// Whether a request for a new user gives a name and a password.
pub open spec fn names_user(username: Seq<char>, password: Seq<char>) -> bool {
    crate::text::trimmed(username).len() > 0 && password.len() > 0
}

/// Checks a request for a new user against the outcome of hashing its password.
pub fn prepare_user(request: &CreateUserRequest, hashed: Result<String, String>) -> (r: Result<
    PreparedUser,
    ApiError,
>)
    ensures
        match r {
            Ok(user) => names_user(request.username@, request.password@) && hashed is Ok
                && user.username@ == kept_name(request.username@)
                && user.password_hash@ == hashed->Ok_0@,
            Err(error) => error@ == if !names_user(request.username@, request.password@) {
                crate::error::bad_request("Username and password are required"@)
            } else {
                crate::error::internal("Failed to hash password: "@ + hashed->Err_0@)
            } && (names_user(request.username@, request.password@) ==> hashed is Err),
        },
{
    let username = trim(request.username.as_str());
    if username.is_empty() || request.password.as_str().is_empty() {
        return Err(ApiError::bad_request("Username and password are required"));
    }
    match hashed {
        Ok(password_hash) => Ok(PreparedUser { username: username.to_owned(), password_hash }),
        Err(message) => Err(
            ApiError::internal(joined("Failed to hash password: ", message.as_str()).as_str()),
        ),
    }
}

/// Checks a request for a new user and hashes its password. A request without a name or a
/// password is refused; any other succeeds, unless hashing fails.
pub fn create_user(request: &CreateUserRequest) -> (r: Result<PreparedUser, ApiError>)
    ensures
        !names_user(request.username@, request.password@) ==> (r matches Err(error) && error@
            == crate::error::bad_request("Username and password are required"@)),
        match r {
            Ok(user) => user.username@ == kept_name(request.username@) && hash_shape(
                user.password_hash@,
            ) && password_fits(request.password@, user.password_hash@),
            Err(error) => names_user(request.username@, request.password@) ==> exists|
                message: Seq<char>,
            |
                error@ == crate::error::internal(
                    #[trigger] ("Failed to hash password: "@ + message),
                ),
        },
{
    let username = trim(request.username.as_str());
    if username.is_empty() || request.password.as_str().is_empty() {
        return prepare_user(request, Err(String::new()));
    }
    let hashed = hash_password(request.password.as_str());
    prepare_user(request, hashed)
}

/// Whether a new user is the administrator, given how many users there are: the first one is.
pub open spec fn becomes_admin(count: int) -> bool {
    count == 0
}

/// A new user with its number and its rights.
#[derive(Debug)]
pub struct NewUser {
    pub id: String,
    pub username: String,
    pub password_hash: String,
    pub is_admin: bool,
}

/// Gives a new user its rights, once the users are counted, under a number. The first user is
/// the administrator.
pub fn enroll_as(prepared: PreparedUser, counted: Result<i64, DbFault>, id: String) -> (r: Result<
    NewUser,
    ApiError,
>)
    ensures
        match counted {
            Ok(count) => r == Ok::<NewUser, ApiError>(
                NewUser {
                    id,
                    username: prepared.username,
                    password_hash: prepared.password_hash,
                    is_admin: becomes_admin(count as int),
                },
            ),
            Err(fault) => r matches Err(error) && error@ == crate::store::plain_fault(
                fault@,
                "Failed to count users: "@,
            ),
        },
{
    match user_count_value(counted) {
        Ok(count) => Ok(
            NewUser {
                id,
                username: prepared.username,
                password_hash: prepared.password_hash,
                is_admin: count == 0,
            },
        ),
        Err(error) => Err(error),
    }
}

/// Gives a new user its rights, once the users are counted, under a fresh number.
pub fn enroll_user(prepared: PreparedUser, counted: Result<i64, DbFault>) -> (r: Result<
    NewUser,
    ApiError,
>)
    ensures
        match counted {
            Ok(count) => r matches Ok(user) && uuid_text(user.id@) && user.username
                == prepared.username && user.password_hash == prepared.password_hash
                && user.is_admin == becomes_admin(count as int),
            Err(fault) => r matches Err(error) && error@ == crate::store::plain_fault(
                fault@,
                "Failed to count users: "@,
            ),
        },
{
    enroll_as(prepared, counted, fresh_uuid())
}

/// The error of a new user whom the database did not store: a name that is taken is a conflict.
pub open spec fn unstored_user(fault: FaultView) -> ErrorView {
    match fault {
        FaultView::Run(message) => if crate::text::has_part(message, "UNIQUE"@) {
            crate::error::conflict("Username already exists"@)
        } else {
            crate::error::internal("Failed to create user: "@ + message)
        },
        _ => crate::store::plain_fault(fault, "Failed to create user: "@),
    }
}

/// The answer to a request for a new user who was stored.
pub open spec fn enrolled_body(id: Seq<char>, is_admin: bool) -> JsonView {
    JsonView::Object(
        map![
            "success"@ => JsonView::Bool(true),
            "userId"@ => JsonView::Text(id),
            "is_admin"@ => JsonView::Bool(is_admin),
        ],
    )
}

impl NewUser {
    /// The statement that stores the user, as it is seen.
    pub open spec fn insert_view(self) -> CommandView {
        CommandView::InsertUser {
            user_id: self.id@,
            username: self.username@,
            password_hash: self.password_hash@,
            is_admin: self.is_admin,
        }
    }

    /// The statement that stores the user.
    pub fn insert_command(&self) -> (r: DbCommand)
        ensures
            r@ == self.insert_view(),
            r@ == (CommandView::InsertUser {
                user_id: self.id@,
                username: self.username@,
                password_hash: self.password_hash@,
                is_admin: self.is_admin,
            }),
    {
        DbCommand::InsertUser {
            user_id: self.id.clone(),
            username: self.username.clone(),
            password_hash: self.password_hash.clone(),
            is_admin: self.is_admin,
        }
    }

    /// The answer to the request for the user, once the database has tried to store it.
    pub fn reply(&self, stored: Result<(), DbFault>) -> (r: Result<Json, ApiError>)
        ensures
            crate::error::outcome(r) == match stored {
                Ok(_) => Ok::<JsonView, ErrorView>(enrolled_body(self.id@, self.is_admin)),
                Err(fault) => Err(unstored_user(fault@)),
            },
    {
        match stored {
            Ok(_) => Ok(
                Json::Object(
                    JsonObject::new().with("success", Json::Bool(true)).with(
                        "userId",
                        Json::from_text(self.id.as_str()),
                    ).with("is_admin", Json::Bool(self.is_admin)),
                ),
            ),
            Err(fault) => Err(user_not_stored(fault)),
        }
    }
}

/// The error of a new user whom the database did not store.
fn user_not_stored(fault: DbFault) -> (r: ApiError)
    ensures
        r@ == unstored_user(fault@),
{
    if let DbFault::Run(message) = &fault {
        if contains(message.as_str(), "UNIQUE") {
            return ApiError::conflict("Username already exists");
        }
    }
    fault.plain("Failed to create user: ")
}

// ---------------------------------------------------------------------------------------------
// Logins
// ---------------------------------------------------------------------------------------------

/// A day in seconds: how long a session lasts.
pub const SESSION_SECONDS: i64 = 86400;

/// Thirty days in seconds: how long a session lasts that is to be remembered.
pub const REMEMBERED_SECONDS: i64 = 2592000;

/// How long a session lasts.
pub open spec fn session_length(remember_me: Option<bool>) -> int {
    if remember_me == Some(true) {
        REMEMBERED_SECONDS as int
    } else {
        SESSION_SECONDS as int
    }
}

/// The cookie that carries a session token.
pub open spec fn session_cookie(token: Seq<char>, seconds: int) -> Seq<char> {
    "jwt="@ + token + "; Path=/; HttpOnly; SameSite=Lax; Max-Age="@ + crate::text::decimal(seconds)
}

/// A login that succeeded: the statement that stores its session, and the answer that follows.
#[derive(Debug)]
pub struct LoginGrant {
    pub session: DbCommand,
    pub reply: Reply,
}

/// A login that succeeded, as a mathematical value.
pub struct GrantView {
    pub session: CommandView,
    pub reply: ReplyView,
}

impl View for LoginGrant {
    type V = GrantView;

    open spec fn view(&self) -> GrantView {
        GrantView { session: self.session@, reply: self.reply@ }
    }
}

/// The statement that looks up the user of a login by its name, without the white space around
/// it.
pub fn login(request: &LoginRequest) -> (r: DbCommand)
    ensures
        r@ == (CommandView::FindUser { username: kept_name(request.username@) }),
{
    DbCommand::FindUser { username: trim(request.username.as_str()).to_owned() }
}

/// The session of a login at `now`, and its answer.
pub open spec fn granted_login(
    remember_me: Option<bool>,
    user: UserRow,
    token: Seq<char>,
    now: int,
) -> GrantView {
    GrantView {
        session: CommandView::InsertSession {
            token,
            user_id: user.id@,
            expires_at: now + session_length(remember_me),
            created_at: now,
        },
        reply: ReplyView {
            status: 200,
            body: JsonView::Object(
                map![
                    "success"@ => JsonView::Bool(true),
                    "is_admin"@ => JsonView::Bool(user.is_admin != 0),
                    "username"@ => JsonView::Text(user.username@),
                    "requires_totp"@ => JsonView::Bool(false),
                    "rememberMe"@ => JsonView::Bool(remember_me == Some(true)),
                    "is_oidc"@ => JsonView::Bool(user.is_oidc != 0),
                    "totp_enabled"@ => JsonView::Bool(user.totp_enabled != 0),
                    "data_unlocked"@ => JsonView::Bool(true),
                ],
            ),
            cookie: Some(session_cookie(token, session_length(remember_me))),
        },
    }
}

/// What a login comes to: refused where there is no such user or the password is another's,
/// failed where the stored hash is none, and granted otherwise.
pub open spec fn login_outcome(
    remember_me: Option<bool>,
    found: Result<Option<UserRow>, DbFault>,
    check: Result<bool, Seq<char>>,
    token: Seq<char>,
    now: int,
) -> Result<GrantView, ErrorView> {
    match found {
        Err(fault) => Err(crate::store::plain_fault(fault@, "Failed to query user: "@)),
        Ok(None) => Err(crate::error::unauthorized("Invalid username or password"@)),
        Ok(Some(row)) => match check {
            Err(message) => Err(crate::error::internal("Failed to verify password: "@ + message)),
            Ok(false) => Err(crate::error::unauthorized("Invalid username or password"@)),
            Ok(true) => Ok(granted_login(remember_me, row, token, now)),
        },
    }
}

/// The outcome of a login as views.
pub open spec fn login_view(r: Result<LoginGrant, ApiError>) -> Result<GrantView, ErrorView> {
    match r {
        Ok(grant) => Ok(grant@),
        Err(error) => Err(error@),
    }
}

/// Answers a login, given the user that was found, what became of the password, and a token.
pub fn login_with(
    remember_me: Option<bool>,
    found: Result<Option<UserRow>, DbFault>,
    check: Result<bool, String>,
    token: String,
    now: i64,
) -> (r: Result<LoginGrant, ApiError>)
    requires
        found matches Ok(Some(_)) && check == Ok::<bool, String>(true) ==> now + session_length(
            remember_me,
        ) <= i64::MAX,
    ensures
        login_view(r) == login_outcome(
            remember_me,
            found,
            match check {
                Ok(matches) => Ok(matches),
                Err(message) => Err(message@),
            },
            token@,
            now as int,
        ),
{
    let row = match found {
        Ok(Some(row)) => row,
        Ok(None) => return Err(ApiError::unauthorized("Invalid username or password")),
        Err(fault) => return Err(fault.plain("Failed to query user: ")),
    };
    let ok: bool = match check {
        Ok(ok) => ok,
        Err(message) => return Err(
            ApiError::internal(joined("Failed to verify password: ", message.as_str()).as_str()),
        ),
    };
    if !ok {
        return Err(ApiError::unauthorized("Invalid username or password"));
    }
    let remember: bool = remember_me.unwrap_or(false);
    let max_age: i64 = if remember {
        REMEMBERED_SECONDS
    } else {
        SESSION_SECONDS
    };
    let mut cookie = joined("jwt=", token.as_str());
    cookie.append("; Path=/; HttpOnly; SameSite=Lax; Max-Age=");
    cookie.append(i64_text(max_age).as_str());
    let body = JsonObject::new().with("success", Json::Bool(true)).with(
        "is_admin",
        Json::Bool(row.is_admin != 0),
    ).with("username", Json::from_text(row.username.as_str())).with(
        "requires_totp",
        Json::Bool(false),
    ).with("rememberMe", Json::Bool(remember)).with("is_oidc", Json::Bool(row.is_oidc != 0)).with(
        "totp_enabled",
        Json::Bool(row.totp_enabled != 0),
    ).with("data_unlocked", Json::Bool(true));
    let session = DbCommand::InsertSession {
        token,
        user_id: row.id,
        expires_at: now + max_age,
        created_at: now,
    };
    let reply = Reply { status: 200, body: Json::Object(body), cookie: Some(cookie) };
    Ok(LoginGrant { session, reply })
}

/// What becomes of the password of a login.
pub open spec fn login_check(
    password: Seq<char>,
    found: Result<Option<UserRow>, DbFault>,
) -> Result<bool, Seq<char>> {
    match found {
        Ok(Some(row)) => password_check(password, row.password_hash@),
        _ => Ok(false),
    }
}

/// Answers a login, given the user that was found: checks the password, and grants a session
/// under a fresh token.
pub fn login_reply(
    request: &LoginRequest,
    found: Result<Option<UserRow>, DbFault>,
    now: i64,
) -> (r: Result<LoginGrant, ApiError>)
    requires
        found matches Ok(Some(_)) ==> now + session_length(request.remember_me) <= i64::MAX,
    ensures
        exists|token: Seq<char>| #[trigger]
            uuid_text(token) && login_view(r) == login_outcome(
                request.remember_me,
                found,
                login_check(request.password@, found),
                token,
                now as int,
            ),
{
    let check: Result<bool, String> = match &found {
        Ok(Some(row)) => verify_password(request.password.as_str(), row.password_hash.as_str()),
        _ => Ok(false),
    };
    let token = fresh_uuid();
    let ghost token_text = token@;
    let ghost given = found;
    let r = login_with(request.remember_me, found, check, token, now);
    proof {
        assert(uuid_text(token_text));
        assert(login_view(r) == login_outcome(
            request.remember_me,
            given,
            login_check(request.password@, given),
            token_text,
            now as int,
        ));
    }
    r
}

impl LoginGrant {
    /// The answer to the login, once the database has tried to store its session.
    pub fn reply(self, stored: Result<(), DbFault>) -> (r: Result<Reply, ApiError>)
        ensures
            match stored {
                Ok(_) => r == Ok::<Reply, ApiError>(self.reply),
                Err(fault) => r matches Err(error) && error@ == crate::store::plain_fault(
                    fault@,
                    "Failed to create session: "@,
                ),
            },
    {
        match stored {
            Ok(_) => Ok(self.reply),
            Err(fault) => Err(fault.plain("Failed to create session: ")),
        }
    }
}

/// The answer to a logout.
pub open spec fn logged_out() -> ReplyView {
    ReplyView {
        status: 200,
        body: JsonView::Object(
            map![
                "success"@ => JsonView::Bool(true),
                "message"@ => JsonView::Text("Logged out"@),
            ],
        ),
        cookie: Some("jwt=; Path=/; HttpOnly; SameSite=Lax; Max-Age=0"@),
    }
}

/// Ends the session on the client: an empty cookie that expires at once.
pub fn logout() -> (r: Reply)
    ensures
        r@ == logged_out(),
{
    Reply {
        status: 200,
        body: Json::Object(
            JsonObject::new().with("success", Json::Bool(true)).with(
                "message",
                Json::from_text("Logged out"),
            ),
        ),
        cookie: Some("jwt=; Path=/; HttpOnly; SameSite=Lax; Max-Age=0".to_owned()),
    }
}

// ---------------------------------------------------------------------------------------------
// Laws
// ---------------------------------------------------------------------------------------------

/// A login is granted to no one whose password is not found in the stored hash.
pub proof fn wrong_password_is_refused(
    password: Seq<char>,
    found: Result<Option<UserRow>, DbFault>,
    remember_me: Option<bool>,
    token: Seq<char>,
    now: int,
)
    requires
        !(found matches Ok(Some(row)) && password_fits(password, row.password_hash@)),
    ensures
        login_outcome(remember_me, found, login_check(password, found), token, now) is Err,
{
}

/// A login does not tell whether the name or the password was wrong.
pub proof fn refused_logins_look_alike(
    row: UserRow,
    remember_me: Option<bool>,
    token: Seq<char>,
    now: int,
)
    ensures
        login_outcome(remember_me, Ok(Some(row)), Ok(false), token, now) == login_outcome(
            remember_me,
            Ok(None),
            Ok(false),
            token,
            now,
        ),
{
}

/// The names of the members of the answers are all different.
proof fn lemma_member_names()
    ensures
        "userId"@.len() == 6,
        "username"@.len() == 8,
        "username"@[0] == 'u',
        "is_admin"@.len() == 8,
        "is_admin"@[0] == 'i',
        "is_oidc"@.len() == 7,
        "is_oidc"@[0] == 'i',
        "totp_enabled"@.len() == 12,
        "data_unlocked"@.len() == 13,
        "data_unlocked"@[0] == 'd',
        "success"@.len() == 7,
        "success"@[0] == 's',
        "requires_totp"@.len() == 13,
        "requires_totp"@[0] == 'r',
        "rememberMe"@.len() == 10,
{
    reveal_strlit("userId");
    reveal_strlit("username");
    reveal_strlit("is_admin");
    reveal_strlit("is_oidc");
    reveal_strlit("totp_enabled");
    reveal_strlit("data_unlocked");
    reveal_strlit("success");
    reveal_strlit("requires_totp");
    reveal_strlit("rememberMe");
}

/// A user is shown with its number, its name and its rights, each under its own name.
pub proof fn users_are_shown_with_their_rights(user: UserView)
    ensures
        user.json().text_at("userId"@) == Some(user.user_id),
        user.json().text_at("username"@) == Some(user.username),
        user.json().bool_at("is_admin"@) == Some(user.is_admin),
        user.json().bool_at("is_oidc"@) == Some(user.is_oidc),
        user.json().bool_at("totp_enabled"@) == Some(user.totp_enabled),
        user.json().bool_at("data_unlocked"@) == Some(user.data_unlocked),
{
    lemma_member_names();
}

/// A new user needs a name with a character that is no white space, and a password.
pub proof fn users_need_a_name_and_a_password(username: Seq<char>, password: Seq<char>)
    ensures
        names_user(username, password) <==> password.len() > 0 && exists|i: int|
            0 <= i < username.len() && !crate::text::white_space(#[trigger] username[i]),
{
    crate::text::blank_texts_trim_to_nothing(username);
}

/// A session lasts a day, and thirty days where the login asks to be remembered.
pub proof fn sessions_last_a_day_or_thirty(remember_me: Option<bool>)
    ensures
        remember_me == Some(true) ==> session_length(remember_me) == 30 * 24 * 3600,
        remember_me != Some(true) ==> session_length(remember_me) == 24 * 3600,
{
}

/// The session of a login is stored under its token for the user who logged in, and ends as many
/// seconds after it was made as the cookie is kept.
pub proof fn logins_store_their_session(
    remember_me: Option<bool>,
    user: UserRow,
    token: Seq<char>,
    now: int,
)
    ensures
        ({
            let grant = granted_login(remember_me, user, token, now);
            &&& grant.session matches CommandView::InsertSession {
                token: stored,
                user_id,
                expires_at,
                created_at,
            } && stored == token && user_id == user.id@ && created_at == now && grant.reply.cookie
                == Some(session_cookie(token, expires_at - created_at)) && (expires_at - created_at
                == if remember_me == Some(true) {
                2592000
            } else {
                86400int
            })
        }),
{
}

/// The answer to a login tells the user its name and rights as they are stored, that it succeeded
/// and whether it is remembered.
pub proof fn logins_tell_the_user(
    remember_me: Option<bool>,
    user: UserRow,
    token: Seq<char>,
    now: int,
)
    ensures
        ({
            let reply = granted_login(remember_me, user, token, now).reply;
            &&& reply.status == 200
            &&& reply.body.bool_at("success"@) == Some(true)
            &&& reply.body.text_at("username"@) == Some(user.username@)
            &&& reply.body.bool_at("is_admin"@) == Some(user.is_admin != 0)
            &&& reply.body.bool_at("is_oidc"@) == Some(user.is_oidc != 0)
            &&& reply.body.bool_at("totp_enabled"@) == Some(user.totp_enabled != 0)
            &&& reply.body.bool_at("requires_totp"@) == Some(false)
            &&& reply.body.bool_at("data_unlocked"@) == Some(true)
            &&& reply.body.bool_at("rememberMe"@) == Some(remember_me == Some(true))
        }),
{
    lemma_member_names();
}

/// A login is granted to a user who is found and whose password fits the stored hash; it is
/// refused with status 401 where the user is not found or the password is another, and fails with
/// status 500 where the database or the hash does.
pub proof fn logins_are_granted_by_password(
    password: Seq<char>,
    row: UserRow,
    fault: DbFault,
    remember_me: Option<bool>,
    token: Seq<char>,
    now: int,
)
    ensures
        ({
            let outcome = |found: Result<Option<UserRow>, DbFault>|
                login_outcome(remember_me, found, login_check(password, found), token, now);
            &&& password_fits(password, row.password_hash@) <==> outcome(Ok(Some(row))) is Ok
            &&& outcome(Ok(Some(row))) matches Ok(grant) ==> grant == granted_login(
                remember_me,
                row,
                token,
                now,
            )
            &&& password_check(password, row.password_hash@) == Ok::<bool, Seq<char>>(false) ==> (
            outcome(Ok(Some(row))) matches Err(error) && error.status == 401)
            &&& password_check(password, row.password_hash@) is Err ==> (outcome(Ok(Some(row)))
                matches Err(error) && error.status == 500)
            &&& outcome(Ok(None)) matches Err(error) && error.status == 401
            &&& outcome(Err(fault)) matches Err(error) && error.status == 500
        }),
{
}

/// A cookie holds the token for every path, out of reach of scripts and of other sites, and is
/// kept for as many seconds as it says.
pub proof fn cookies_say_how_they_are_kept(token: Seq<char>, seconds: int)
    ensures
        ({
            let cookie = session_cookie(token, seconds);
            &&& ("jwt="@ + token + seq![';']).is_prefix_of(cookie)
            &&& crate::text::has_part(cookie, "Path=/;"@)
            &&& crate::text::has_part(cookie, "HttpOnly;"@)
            &&& crate::text::has_part(cookie, "SameSite=Lax;"@)
            &&& ("Max-Age="@ + crate::text::decimal(seconds)).is_suffix_of(cookie)
        }),
{
    reveal_strlit("; Path=/; HttpOnly; SameSite=Lax; Max-Age=");
    reveal_strlit("Path=/;");
    reveal_strlit("HttpOnly;");
    reveal_strlit("SameSite=Lax;");
    reveal_strlit("Max-Age=");
    let cookie = session_cookie(token, seconds);
    let head = "jwt="@ + token;
    let attributes = "; Path=/; HttpOnly; SameSite=Lax; Max-Age="@;
    let number = crate::text::decimal(seconds);
    assert(cookie =~= head + attributes + number);
    assert(cookie.subrange(0, head.len() as int + 1) =~= head + seq![';']);
    assert(attributes.subrange(2, 9) =~= "Path=/;"@);
    assert(attributes.subrange(10, 19) =~= "HttpOnly;"@);
    assert(attributes.subrange(20, 33) =~= "SameSite=Lax;"@);
    assert(attributes.subrange(34, 42) =~= "Max-Age="@);
    let at = head.len() as int;
    assert(cookie.subrange(at + 2, at + 2 + 7) =~= "Path=/;"@);
    assert(cookie.subrange(at + 10, at + 10 + 9) =~= "HttpOnly;"@);
    assert(cookie.subrange(at + 20, at + 20 + 13) =~= "SameSite=Lax;"@);
    let tail = "Max-Age="@ + number;
    assert(cookie.subrange(cookie.len() - tail.len(), cookie.len() as int) =~= tail);
}

/// A name that is taken is told as a conflict with status 409, and anything else that keeps a new
/// user from being stored as a failure with status 500.
pub proof fn taken_names_are_conflicts(message: Seq<char>, fault: FaultView)
    ensures
        crate::text::has_part(message, "UNIQUE"@) ==> unstored_user(FaultView::Run(message)).status
            == 409,
        !crate::text::has_part(message, "UNIQUE"@) ==> unstored_user(
            FaultView::Run(message),
        ).status == 500,
        !(fault is Run) ==> unstored_user(fault).status == 500,
{
}

/// The name of a user is kept as it is typed, but for the white space around it: names that
/// differ in a letter, or in its size, are different users, and whoever types a name with white
/// space around it is found under the name without.
pub proof fn names_are_kept_as_typed(name: Seq<char>, other: Seq<char>)
    requires
        name.len() > 0 && !crate::text::white_space(name[0]) && !crate::text::white_space(
            name.last(),
        ),
        other.len() > 0 && !crate::text::white_space(other[0]) && !crate::text::white_space(
            other.last(),
        ),
    ensures
        kept_name(name) == name,
        kept_name(name) == kept_name(other) <==> name == other,
        kept_name(seq![' '] + name) == name,
        kept_name(name.push(' ')) == name,
{
    let before = seq![' '] + name;
    let behind = name.push(' ');
    assert(before[0] == ' ' && before.drop_first() =~= name);
    assert(behind.drop_last() =~= name);
    assert(behind[0] == name[0]);
}

/// A new user is told its number and whether it is the administrator.
pub proof fn new_users_are_told_their_rights(id: Seq<char>, is_admin: bool)
    ensures
        enrolled_body(id, is_admin).bool_at("success"@) == Some(true),
        enrolled_body(id, is_admin).text_at("userId"@) == Some(id),
        enrolled_body(id, is_admin).bool_at("is_admin"@) == Some(is_admin),
{
    lemma_member_names();
}

/// A logout sets the cookie of a session without a token that is kept for no time.
pub proof fn logouts_empty_the_cookie()
    ensures
        logged_out().status == 200,
        logged_out().body.bool_at("success"@) == Some(true),
        logged_out().cookie == Some(session_cookie(Seq::empty(), 0)),
{
    reveal_strlit("jwt=; Path=/; HttpOnly; SameSite=Lax; Max-Age=0");
    reveal_strlit("jwt=");
    reveal_strlit("; Path=/; HttpOnly; SameSite=Lax; Max-Age=");
    reveal_strlit("success");
    reveal_strlit("message");
    assert("success"@[0] != "message"@[0]);
    assert("jwt=; Path=/; HttpOnly; SameSite=Lax; Max-Age=0"@ =~= session_cookie(
        Seq::empty(),
        0,
    ));
}

/// A user is seen with its own number, name and rights.
pub proof fn users_are_seen_whole(user: UserResponse)
    ensures
        user@.user_id == user.user_id@,
        user@.username == user.username@,
        user@.is_admin == user.is_admin,
        user@.is_oidc == user.is_oidc,
        user@.totp_enabled == user.totp_enabled,
        user@.data_unlocked == user.data_unlocked,
{
}

/// A login is seen as the session that it stores and the answer to it, or as its refusal.
pub proof fn logins_are_seen_whole(grant: LoginGrant, error: ApiError)
    ensures
        login_view(Ok(grant)) matches Ok(seen) && seen.session == grant.session@ && seen.reply
            == grant.reply@,
        login_view(Err(error)) == Err::<GrantView, ErrorView>(error@),
{
}

/// A user is stored under the number, the name and the hash that are theirs, and as an
/// administrator exactly where they are one.
pub proof fn users_are_stored_as_they_are(user: NewUser)
    ensures
        user.insert_view() matches CommandView::InsertUser {
            user_id,
            username,
            password_hash,
            is_admin,
        } && user_id == user.id@ && username == user.username@ && password_hash
            == user.password_hash@ && is_admin == user.is_admin,
{
}

} // verus!
