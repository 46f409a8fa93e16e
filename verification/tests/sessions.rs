use termix_local::accounts::{login_with, UserResponse};
use termix_local::error::ApiError;
use termix_local::json_text::print_json;
use termix_local::sessions::{authenticated_user, extract_token, find_session, header_str, me, me_token};
use termix_local::store::{DbCommand, DbFault, SessionRow, UserRow};

fn session(expires_at: i64) -> SessionRow {
    SessionRow {
        user_id: "u1".to_string(),
        username: "anna".to_string(),
        is_admin: 0,
        is_oidc: 1,
        totp_enabled: 0,
        expires_at,
    }
}

fn token(authorization: Option<&str>, cookie: Option<&str>) -> Option<String> {
    extract_token(authorization.map(|text| text.as_bytes()), cookie.map(|text| text.as_bytes()))
}

fn user() -> UserResponse {
    authenticated_user(Ok(Some(session(10))), 9).unwrap()
}

#[test]
fn headers_are_visible_text() {
    assert_eq!(header_str(b"a b\t~"), Some("a b\t~".to_string()));
    assert_eq!(header_str(b""), Some("".to_string()));
    assert_eq!(header_str(b"a\x7f"), None);
    assert_eq!(header_str(b"a\x1f"), None);
    assert_eq!(header_str("\u{e9}".as_bytes()), None);
}

#[test]
fn the_bearer_token_wins() {
    assert_eq!(token(Some("Bearer abc"), Some("jwt=def")), Some("abc".to_string()));
    assert_eq!(token(Some("Bearer "), Some("jwt=def")), Some("".to_string()));
    assert_eq!(token(Some("Basic abc"), Some("jwt=def")), Some("def".to_string()));
    assert_eq!(token(Some("bearer abc"), None), None);
}

#[test]
fn the_session_cookie_is_found_among_others() {
    assert_eq!(token(None, Some("theme=dark; jwt=abc; lang=en")), Some("abc".to_string()));
    assert_eq!(token(None, Some("jwt=first;jwt=second")), Some("first".to_string()));
    assert_eq!(token(None, Some("xjwt=abc")), None);
    assert_eq!(token(None, Some("jwt=")), Some("".to_string()));
    assert_eq!(token(None, Some("")), None);
    assert_eq!(token(None, None), None);
}

#[test]
fn a_header_that_is_no_text_counts_as_none() {
    assert_eq!(extract_token(Some(b"Bearer \xff"), Some(b"jwt=abc")), Some("abc".to_string()));
    assert_eq!(extract_token(None, Some(b"jwt=abc\xff")), None);
}

#[test]
fn the_cookie_of_a_login_brings_its_token_back() {
    let row = UserRow {
        id: "u1".to_string(),
        username: "anna".to_string(),
        password_hash: "h".to_string(),
        is_admin: 0,
        is_oidc: 0,
        totp_enabled: 0,
    };
    let id = "123e4567-e89b-42d3-a456-426614174000";
    let grant = login_with(None, Ok(Some(row)), Ok(true), id.to_string(), 0).unwrap();
    let cookie = grant.reply.cookie.unwrap();
    let sent = cookie.split(';').next().unwrap();
    let header = format!("a=b; {}; c=d", sent);
    assert_eq!(token(None, Some(&header)), Some(id.to_string()));
}

#[test]
fn a_request_without_a_token_is_refused() {
    let error = find_session(None, Some(b"a=b")).unwrap_err();
    assert_eq!((error.status, error.message.as_str()), (401, "Missing authentication token"));
    match find_session(Some(b"Bearer abc"), None).unwrap() {
        DbCommand::FindSession { token } => assert_eq!(token, "abc"),
        _ => panic!("another statement"),
    }
}

#[test]
fn a_session_ends() {
    assert!(authenticated_user(Ok(Some(session(10))), 9).is_ok());
    for (found, now) in [(Some(session(10)), 10), (Some(session(10)), 11), (None, 0)] {
        let error = authenticated_user(Ok(found), now).unwrap_err();
        assert_eq!((error.status, error.message.as_str()), (401, "Invalid token"));
    }
    let error = authenticated_user(Err(DbFault::Run("gone".to_string())), 0).unwrap_err();
    assert_eq!((error.status, error.message.as_str()), (500, "Failed to load session: gone"));
    let error = authenticated_user(Err(DbFault::Locked), 0).unwrap_err();
    assert_eq!(error.message, "Database lock poisoned");
}

#[test]
fn a_user_is_told_about_itself() {
    assert_eq!(
        print_json(&me(Ok(user())).unwrap()),
        "{\"data_unlocked\":true,\"is_admin\":false,\"is_oidc\":true,\"totp_enabled\":false,\"userId\":\"u1\",\"username\":\"anna\"}"
    );
    assert_eq!(print_json(&me_token(Ok(user()), "abc").unwrap()), "{\"token\":\"abc\"}");
    assert_eq!(me(Err(ApiError::unauthorized("Invalid token"))).unwrap_err().status, 401);
    assert_eq!(me_token(Err(ApiError::unauthorized("Invalid token")), "abc").unwrap_err().status, 401);
}
