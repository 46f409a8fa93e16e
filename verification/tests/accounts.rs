use termix_local::accounts::{
    create_user, enroll_as, enroll_user, login, login_reply, login_with, logout, prepare_user, setup_required,
    user_count, user_count_value, CreateUserRequest, LoginRequest, PreparedUser,
};
use termix_local::error::{ApiError, Reply};
use termix_local::json::Json;
use termix_local::json_text::print_json;
use termix_local::store::{DbCommand, DbFault, UserRow};

/// The hash of `correctbatteryhorsestapler`, at the lowest cost.
const STORED_HASH: &str = "$2b$04$EGdrhbKUv8Oc9vGiXX0HQOxSg445d458Muh7DAHskb6QbtCvdxcie";

fn row(hash: &str) -> UserRow {
    UserRow {
        id: "u1".to_string(),
        username: "anna".to_string(),
        password_hash: hash.to_string(),
        is_admin: 1,
        is_oidc: 0,
        totp_enabled: 0,
    }
}

fn request(password: &str, remember_me: Option<bool>) -> LoginRequest {
    LoginRequest { username: " anna ".to_string(), password: password.to_string(), remember_me }
}

fn refused<T>(result: Result<T, ApiError>) -> (u16, String) {
    match result {
        Ok(_) => panic!("not refused"),
        Err(error) => (error.status, error.message),
    }
}

fn text(body: &Json) -> String {
    print_json(body)
}

#[test]
fn a_new_user_needs_a_name_and_a_password() {
    for (username, password) in [("", "x"), ("  \t", "x"), ("anna", "")] {
        let request = CreateUserRequest { username: username.to_string(), password: password.to_string() };
        assert_eq!(refused(create_user(&request)), (400, "Username and password are required".to_string()));
    }
}

#[test]
fn a_new_user_can_log_in() {
    let request_new = CreateUserRequest { username: "  anna ".to_string(), password: " ".to_string() };
    let prepared = create_user(&request_new).unwrap();
    assert_eq!(prepared.username, "anna");
    assert!(prepared.password_hash.starts_with("$2b$12$"));
    assert_eq!(prepared.password_hash.len(), 60);
    let stored = row(&prepared.password_hash);
    let grant = login_reply(&request(" ", None), Ok(Some(stored)), 1000);
    assert!(grant.is_ok());
}

#[test]
fn hashing_can_fail() {
    let request_new = CreateUserRequest { username: "anna".to_string(), password: "x".to_string() };
    assert_eq!(
        refused(prepare_user(&request_new, Err("no randomness".to_string()))),
        (500, "Failed to hash password: no randomness".to_string())
    );
    let prepared = prepare_user(&request_new, Ok("h".to_string())).unwrap();
    assert_eq!(prepared.password_hash, "h");
}

#[test]
fn the_first_user_is_the_administrator() {
    for (count, is_admin) in [(0, true), (1, false), (7, false)] {
        let prepared = PreparedUser { username: "anna".to_string(), password_hash: "h".to_string() };
        let user = enroll_user(prepared, Ok(count)).unwrap();
        assert_eq!(user.is_admin, is_admin);
        assert_eq!(user.id.len(), 36);
        assert_eq!(user.id.as_bytes()[14], b'4');
        match user.insert_command() {
            DbCommand::InsertUser { user_id, username, password_hash, is_admin: admin } => {
                assert_eq!(user_id, user.id);
                assert_eq!(username, "anna");
                assert_eq!(password_hash, "h");
                assert_eq!(admin, is_admin);
            }
            _ => panic!("another statement"),
        }
        let body = user.reply(Ok(())).unwrap();
        assert_eq!(
            text(&body),
            format!("{{\"is_admin\":{},\"success\":true,\"userId\":\"{}\"}}", is_admin, user.id)
        );
    }
}

#[test]
fn a_name_that_is_taken_is_a_conflict() {
    let prepared = PreparedUser { username: "anna".to_string(), password_hash: "h".to_string() };
    let user = enroll_user(prepared, Ok(1)).unwrap();
    let taken = DbFault::Run("UNIQUE constraint failed: users.username".to_string());
    assert_eq!(refused(user.reply(Err(taken))), (409, "Username already exists".to_string()));
    let broken = DbFault::Run("disk full".to_string());
    assert_eq!(refused(user.reply(Err(broken))), (500, "Failed to create user: disk full".to_string()));
    assert_eq!(refused(user.reply(Err(DbFault::Locked))), (500, "Database lock poisoned".to_string()));
}

#[test]
fn a_user_is_enrolled_under_its_number() {
    let prepared = PreparedUser { username: "anna".to_string(), password_hash: "h".to_string() };
    let user = enroll_as(prepared, Ok(0), "n1".to_string()).unwrap();
    assert_eq!((user.id.as_str(), user.username.as_str(), user.is_admin), ("n1", "anna", true));
    assert_eq!(print_json(&user.reply(Ok(())).unwrap()), "{\"is_admin\":true,\"success\":true,\"userId\":\"n1\"}");
}

#[test]
fn two_users_have_two_numbers() {
    let one = enroll_user(
        PreparedUser { username: "a".to_string(), password_hash: "h".to_string() },
        Ok(0),
    )
    .unwrap();
    let two = enroll_user(
        PreparedUser { username: "b".to_string(), password_hash: "h".to_string() },
        Ok(1),
    )
    .unwrap();
    assert_ne!(one.id, two.id);
}

#[test]
fn users_are_counted() {
    assert_eq!(text(&setup_required(Ok(0)).unwrap()), "{\"setup_required\":true}");
    assert_eq!(text(&setup_required(Ok(2)).unwrap()), "{\"setup_required\":false}");
    assert_eq!(text(&user_count(Ok(2)).unwrap()), "{\"count\":2}");
    assert_eq!(
        refused(user_count_value(Err(DbFault::Run("no table".to_string())))),
        (500, "Failed to count users: no table".to_string())
    );
    assert_eq!(refused(setup_required(Err(DbFault::Locked))).1, "Database lock poisoned");
    assert_eq!(
        refused(user_count(Err(DbFault::Row("bad".to_string())))).1,
        "Failed to count users: bad"
    );
    let prepared = PreparedUser { username: "a".to_string(), password_hash: "h".to_string() };
    assert_eq!(refused(enroll_user(prepared, Err(DbFault::Locked))).0, 500);
}

#[test]
fn a_login_looks_for_the_trimmed_name() {
    match login(&request("x", None)) {
        DbCommand::FindUser { username } => assert_eq!(username, "anna"),
        _ => panic!("another statement"),
    }
}

#[test]
fn a_right_password_is_granted_a_session() {
    let grant = login_reply(
        &request("correctbatteryhorsestapler", Some(true)),
        Ok(Some(row(STORED_HASH))),
        1000,
    )
    .unwrap();
    let Reply { status, body, cookie } = match grant.session {
        DbCommand::InsertSession { ref token, ref user_id, expires_at, created_at } => {
            assert_eq!(token.len(), 36);
            assert_eq!(user_id, "u1");
            assert_eq!(expires_at, 1000 + 2592000);
            assert_eq!(created_at, 1000);
            let expected = format!("jwt={}; Path=/; HttpOnly; SameSite=Lax; Max-Age=2592000", token);
            let reply = grant.reply(Ok(())).unwrap();
            assert_eq!(reply.cookie, Some(expected));
            reply
        }
        _ => panic!("another statement"),
    };
    assert_eq!(status, 200);
    assert!(cookie.is_some());
    assert_eq!(
        text(&body),
        "{\"data_unlocked\":true,\"is_admin\":true,\"is_oidc\":false,\"rememberMe\":true,\"requires_totp\":false,\"success\":true,\"totp_enabled\":false,\"username\":\"anna\"}"
    );
}

#[test]
fn a_wrong_password_and_a_wrong_name_look_alike() {
    let wrong = refused(login_reply(&request("guess", None), Ok(Some(row(STORED_HASH))), 1));
    let nobody = refused(login_reply(&request("guess", None), Ok(None), 1));
    assert_eq!(wrong, (401, "Invalid username or password".to_string()));
    assert_eq!(wrong, nobody);
}

#[test]
fn a_broken_hash_is_a_failure() {
    let broken = refused(login_reply(&request("x", None), Ok(Some(row("nonsense"))), 1));
    assert_eq!(broken, (500, "Failed to verify password: Invalid hash: nonsense".to_string()));
}

#[test]
fn a_login_can_fail_in_the_database() {
    let fault = refused(login_reply(&request("x", None), Err(DbFault::Run("gone".to_string())), 1));
    assert_eq!(fault, (500, "Failed to query user: gone".to_string()));
    let grant = login_with(Some(false), Ok(Some(row("h"))), Ok(true), "t".to_string(), 10).unwrap();
    let fault = refused(grant.reply(Err(DbFault::Run("full".to_string()))));
    assert_eq!(fault, (500, "Failed to create session: full".to_string()));
}

#[test]
fn a_short_login_lasts_a_day() {
    for remember_me in [None, Some(false)] {
        let grant = login_with(remember_me, Ok(Some(row("h"))), Ok(true), "t".to_string(), 10).unwrap();
        match &grant.session {
            DbCommand::InsertSession { token, expires_at, .. } => {
                assert_eq!(token, "t");
                assert_eq!(*expires_at, 86410);
            }
            _ => panic!("another statement"),
        }
        assert_eq!(
            grant.reply.cookie,
            Some("jwt=t; Path=/; HttpOnly; SameSite=Lax; Max-Age=86400".to_string())
        );
    }
    assert_eq!(refused(login_with(None, Ok(None), Ok(true), "t".to_string(), i64::MAX)).0, 401);
    assert_eq!(refused(login_reply(&request("x", None), Ok(None), i64::MAX)).0, 401);
    let refusal = refused(login_with(None, Ok(Some(row("h"))), Ok(false), "t".to_string(), 10));
    assert_eq!(refusal.0, 401);
    let failure = refused(login_with(None, Ok(Some(row("h"))), Err("e".to_string()), "t".to_string(), 10));
    assert_eq!(failure, (500, "Failed to verify password: e".to_string()));
}

#[test]
fn logging_out_empties_the_cookie() {
    let reply = logout();
    assert_eq!(reply.status, 200);
    assert_eq!(reply.cookie, Some("jwt=; Path=/; HttpOnly; SameSite=Lax; Max-Age=0".to_string()));
    assert_eq!(text(&reply.body), "{\"message\":\"Logged out\",\"success\":true}");
}

#[test]
fn refusals_have_a_code() {
    let reply = ApiError::internal("broken").into_response();
    assert_eq!(reply.status, 500);
    assert_eq!(text(&reply.body), "{\"code\":\"DATABASE_ERROR\",\"error\":\"broken\"}");
    for (error, status) in [
        (ApiError::bad_request("m"), 400),
        (ApiError::unauthorized("m"), 401),
        (ApiError::not_found("m"), 404),
        (ApiError::conflict("m"), 409),
    ] {
        let reply = error.into_response();
        assert_eq!(reply.status, status);
        assert_eq!(text(&reply.body), "{\"code\":\"REQUEST_ERROR\",\"error\":\"m\"}");
    }
}
