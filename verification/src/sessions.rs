//! Session tokens: where a request carries one, and whom it stands for.

use crate::accounts::{UserResponse, UserView};
use crate::error::{ApiError, ErrorView};
use crate::json::{Json, JsonObject, JsonView};
use crate::store::{CommandView, DbCommand, DbFault, SessionRow};
use crate::text::{chars_of, find_char, strip_prefix, trim};
use vstd::prelude::*;
use vstd::string::*;

verus! {

// ---------------------------------------------------------------------------------------------
// Headers
// ---------------------------------------------------------------------------------------------

/// A byte that the text of a header may hold: a visible ASCII character, a space or a tab.
pub open spec fn header_byte(b: u8) -> bool {
    32 <= b < 127 || b == 9
}

/// The text of a header, where all its bytes are of that kind.
pub open spec fn header_text(bytes: Seq<u8>) -> Option<Seq<char>> {
    if forall|i: int| 0 <= i < bytes.len() ==> header_byte(#[trigger] bytes[i]) {
        Some(bytes.map_values(|b: u8| b as char))
    } else {
        None
    }
}

/// Reads the text of a header.
pub fn header_str(bytes: &[u8]) -> (r: Option<String>)
    ensures
        crate::json::string_view(r) == header_text(bytes@),
{
    let mut out = String::new();
    for i in 0..bytes.len()
        invariant
            out@ == bytes@.take(i as int).map_values(|b: u8| b as char),
            forall|j: int| 0 <= j < i ==> header_byte(#[trigger] bytes@[j]),
    {
        let b: u8 = bytes[i];
        if !(32 <= b && b < 127 || b == 9) {
            return None;
        }
        out.push(b as char);
        proof {
            assert(out@ =~= bytes@.take(i + 1).map_values(|b: u8| b as char));
        }
    }
    proof {
        assert(bytes@.take(bytes@.len() as int) =~= bytes@);
    }
    Some(out)
}

/// The text of a header that may be missing.
pub open spec fn optional_header(header: Option<&[u8]>) -> Option<Seq<char>> {
    match header {
        Some(bytes) => header_text(bytes@),
        None => None,
    }
}

// ---------------------------------------------------------------------------------------------
// Tokens
// ---------------------------------------------------------------------------------------------

/// The token that an authorization header carries.
pub open spec fn bearer_token(authorization: Option<Seq<char>>) -> Option<Seq<char>> {
    match authorization {
        Some(text) => if "Bearer "@.is_prefix_of(text) {
            Some(text.skip("Bearer "@.len() as int))
        } else {
            None
        },
        None => None,
    }
}

/// The token that one cookie holds, where it is the session's: the cookie is taken without the
/// white space around it.
pub open spec fn one_cookie(part: Seq<char>) -> Option<Seq<char>> {
    let cookie = crate::text::trimmed(part);
    if "jwt="@.is_prefix_of(cookie) {
        Some(cookie.skip("jwt="@.len() as int))
    } else {
        None
    }
}

/// The token of the first session cookie among cookies that semicolons separate.
pub open spec fn cookie_token(cookies: Seq<char>) -> Option<Seq<char>>
    decreases cookies.len(),
    via cookie_token_shrinks
{
    let end = crate::text::first_index(cookies, ';');
    match one_cookie(cookies.take(end)) {
        Some(token) => Some(token),
        None => if end < cookies.len() {
            cookie_token(cookies.skip(end + 1))
        } else {
            None
        },
    }
}

#[via_fn]
proof fn cookie_token_shrinks(cookies: Seq<char>) {
    crate::text::lemma_first_index_bounds(cookies, ';');
}

/// The token of a request: that of its authorization header, else that of its cookies.
pub open spec fn request_token(
    authorization: Option<Seq<char>>,
    cookies: Option<Seq<char>>,
) -> Option<Seq<char>> {
    match bearer_token(authorization) {
        Some(token) => Some(token),
        None => match cookies {
            Some(text) => cookie_token(text),
            None => None,
        },
    }
}

/// Finds the session's token among cookies.
fn token_in_cookies(cookies: &str) -> (r: Option<String>)
    ensures
        crate::json::string_view(r) == cookie_token(cookies@),
{
    let all = chars_of(cookies);
    let count: usize = all.len();
    let mut from: usize = 0;
    proof {
        assert(cookies@.skip(0) =~= cookies@);
    }
    loop
        invariant
            from <= count,
            count == all@.len(),
            all@ == cookies@,
            cookie_token(cookies@) == cookie_token(cookies@.skip(from as int)),
        decreases count - from,
    {
        let ghost rest = cookies@.skip(from as int);
        let end = find_char(&all, from, ';');
        proof {
            assert(all@.subrange(from as int, all@.len() as int) =~= rest);
            assert(rest.take(end - from) =~= cookies@.subrange(from as int, end as int));
        }
        let part = trim(cookies.substring_char(from, end));
        if let Some(token) = strip_prefix(part, "jwt=") {
            return Some(token.to_owned());
        }
        if end >= count {
            return None;
        }
        proof {
            assert(rest.skip(end - from + 1) =~= cookies@.skip(end + 1));
        }
        from = end + 1;
    }
}

/// The token that a request carries, given its authorization and cookie headers.
pub fn extract_token(authorization: Option<&[u8]>, cookie: Option<&[u8]>) -> (r: Option<String>)
    ensures
        crate::json::string_view(r) == request_token(
            optional_header(authorization),
            optional_header(cookie),
        ),
{
    if let Some(bytes) = authorization {
        if let Some(text) = header_str(bytes) {
            if let Some(token) = strip_prefix(text.as_str(), "Bearer ") {
                return Some(token.to_owned());
            }
        }
    }
    match cookie {
        Some(bytes) => match header_str(bytes) {
            Some(text) => token_in_cookies(text.as_str()),
            None => None,
        },
        None => None,
    }
}

// ---------------------------------------------------------------------------------------------
// Users behind tokens
// ---------------------------------------------------------------------------------------------

/// The statement that looks up the session of a request; a request without a token is refused.
pub fn find_session(authorization: Option<&[u8]>, cookie: Option<&[u8]>) -> (r: Result<
    DbCommand,
    ApiError,
>)
    ensures
        match request_token(optional_header(authorization), optional_header(cookie)) {
            Some(token) => r matches Ok(command) && command@ == (CommandView::FindSession { token }),
            None => r matches Err(error) && error@ == crate::error::unauthorized(
                "Missing authentication token"@,
            ),
        },
{
    match extract_token(authorization, cookie) {
        Some(token) => Ok(DbCommand::FindSession { token }),
        None => Err(ApiError::unauthorized("Missing authentication token")),
    }
}

/// Whether a session that ends at `expires_at` still lasts at `now`.
pub open spec fn session_lasts(expires_at: int, now: int) -> bool {
    expires_at > now
}

/// The user of a session.
pub open spec fn session_user(row: SessionRow) -> UserView {
    UserView {
        user_id: row.user_id@,
        username: row.username@,
        is_admin: row.is_admin != 0,
        is_oidc: row.is_oidc != 0,
        totp_enabled: row.totp_enabled != 0,
        data_unlocked: true,
    }
}

/// Whom a session stands for: its user while it lasts, and nobody afterwards.
pub open spec fn session_outcome(
    found: Result<Option<SessionRow>, DbFault>,
    now: int,
) -> Result<UserView, ErrorView> {
    match found {
        Err(fault) => Err(crate::store::plain_fault(fault@, "Failed to load session: "@)),
        Ok(Some(row)) => if session_lasts(row.expires_at as int, now) {
            Ok(session_user(row))
        } else {
            Err(crate::error::unauthorized("Invalid token"@))
        },
        Ok(None) => Err(crate::error::unauthorized("Invalid token"@)),
    }
}

/// The result of authentication as views.
pub open spec fn auth_view(auth: Result<UserResponse, ApiError>) -> Result<UserView, ErrorView> {
    match auth {
        Ok(user) => Ok(user@),
        Err(error) => Err(error@),
    }
}

/// The user of a request, given the session that was found under its token.
pub fn authenticated_user(found: Result<Option<SessionRow>, DbFault>, now: i64) -> (r: Result<
    UserResponse,
    ApiError,
>)
    ensures
        auth_view(r) == session_outcome(found, now as int),
{
    match found {
        Err(fault) => Err(fault.plain("Failed to load session: ")),
        Ok(None) => Err(ApiError::unauthorized("Invalid token")),
        Ok(Some(row)) => if row.expires_at > now {
            Ok(
                UserResponse {
                    user_id: row.user_id,
                    username: row.username,
                    is_admin: row.is_admin != 0,
                    is_oidc: row.is_oidc != 0,
                    totp_enabled: row.totp_enabled != 0,
                    data_unlocked: true,
                },
            )
        } else {
            Err(ApiError::unauthorized("Invalid token"))
        },
    }
}

/// The body that tells a user about itself.
pub fn me(auth: Result<UserResponse, ApiError>) -> (r: Result<Json, ApiError>)
    ensures
        crate::error::outcome(r) == match auth_view(auth) {
            Ok(user) => Ok::<JsonView, ErrorView>(user.json()),
            Err(error) => Err(error),
        },
{
    match auth {
        Ok(user) => Ok(user.to_json()),
        Err(error) => Err(error),
    }
}

/// The answer that gives a user its token.
pub open spec fn token_body(token: Seq<char>) -> JsonView {
    JsonView::Object(map!["token"@ => JsonView::Text(token)])
}

/// The body that gives a user the token of its request.
pub fn me_token(auth: Result<UserResponse, ApiError>, token: &str) -> (r: Result<Json, ApiError>)
    ensures
        crate::error::outcome(r) == match auth_view(auth) {
            Ok(_) => Ok::<JsonView, ErrorView>(token_body(token@)),
            Err(error) => Err(error),
        },
{
    match auth {
        Ok(_) => Ok(Json::Object(JsonObject::new().with("token", Json::from_text(token)))),
        Err(error) => Err(error),
    }
}

// ---------------------------------------------------------------------------------------------
// Laws
// ---------------------------------------------------------------------------------------------

/// The token of an authorization header wins over every cookie.
pub proof fn bearer_token_wins(text: Seq<char>, cookies: Option<Seq<char>>)
    ensures
        request_token(Some("Bearer "@ + text), cookies) == Some(text),
{
    assert(("Bearer "@ + text).skip("Bearer "@.len() as int) =~= text);
    assert("Bearer "@.is_prefix_of("Bearer "@ + text)) by {
        assert(("Bearer "@ + text).subrange(0, "Bearer "@.len() as int) =~= "Bearer "@);
    }
}

/// Of two lists of cookies, one after the other, the first that holds a token gives it.
pub proof fn first_cookie_wins(before: Seq<char>, after: Seq<char>)
    ensures
        cookie_token(before + seq![';'] + after) == match cookie_token(before) {
            Some(token) => Some(token),
            None => cookie_token(after),
        },
    decreases before.len(),
{
    let both = before + seq![';'] + after;
    let end = crate::text::first_index(before, ';');
    crate::text::lemma_first_index_bounds(before, ';');
    assert(forall|j: int| 0 <= j < before.len() ==> both[j] == before[j]);
    assert(both[before.len() as int] == ';');
    crate::text::lemma_first_index(both, ';', end);
    assert(both.take(end) =~= before.take(end));
    if end < before.len() {
        assert(both.skip(end + 1) =~= before.skip(end + 1) + seq![';'] + after);
        first_cookie_wins(before.skip(end + 1), after);
    } else {
        assert(both.skip(end + 1) =~= after);
    }
}

/// A cookie without semicolons, alone, is what it is.
proof fn lemma_single_cookie(part: Seq<char>)
    requires
        !part.contains(';'),
    ensures
        cookie_token(part) == one_cookie(part),
{
    crate::text::lemma_first_index_bounds(part, ';');
    assert(part.take(part.len() as int) =~= part);
}

/// The session cookie gives its token back, with a space before it or without.
proof fn lemma_session_part(token: Seq<char>, spaced: bool)
    requires
        !token.contains(';'),
        token.len() > 0,
        !crate::text::white_space(token.last()),
    ensures
        cookie_token(if spaced { seq![' '] + "jwt="@ + token } else { "jwt="@ + token }) == Some(
            token,
        ),
{
    reveal_strlit("jwt=");
    let bare = "jwt="@ + token;
    let spaced_part = seq![' '] + "jwt="@ + token;
    assert(bare[0] == 'j');
    assert(bare.last() == token.last());
    assert(crate::text::trimmed(bare) == bare);
    assert(spaced_part.drop_first() =~= bare);
    assert(crate::text::trimmed(spaced_part) == bare) by {
        assert(spaced_part[0] == ' ');
    }
    assert(bare.skip(4) =~= token);
    assert("jwt="@.is_prefix_of(bare)) by {
        assert(bare.subrange(0, 4) =~= "jwt="@);
    }
    assert forall|i: int| 0 <= i < bare.len() implies bare[i] != ';' by {
        if i >= 4 {
            assert(bare[i] == token[i - 4]);
        }
    }
    assert forall|i: int| 0 <= i < spaced_part.len() implies spaced_part[i] != ';' by {
        if i > 0 {
            assert(spaced_part[i] == bare[i - 1]);
        }
    }
    lemma_single_cookie(bare);
    lemma_single_cookie(spaced_part);
}

/// The token of a login comes back with the next request: wherever the session cookie stands
/// among other cookies, behind those that hold no session, its token is the request's.
pub proof fn session_cookie_comes_back(before: Seq<char>, token: Seq<char>, after: Seq<char>)
    requires
        cookie_token(before) is None,
        crate::accounts::uuid_text(token),
    ensures
        cookie_token("jwt="@ + token) == Some(token),
        cookie_token("jwt="@ + token + seq![';'] + after) == Some(token),
        cookie_token(before + seq![';'] + (seq![' '] + "jwt="@ + token)) == Some(token),
        cookie_token(before + seq![';'] + (seq![' '] + "jwt="@ + token + seq![';'] + after)) == Some(
            token,
        ),
{
    lemma_uuid_is_cookie_safe(token);
    lemma_session_part(token, false);
    lemma_session_part(token, true);
    first_cookie_wins("jwt="@ + token, after);
    first_cookie_wins(seq![' '] + "jwt="@ + token, after);
    first_cookie_wins(before, seq![' '] + "jwt="@ + token);
    first_cookie_wins(before, seq![' '] + "jwt="@ + token + seq![';'] + after);
}

proof fn lemma_uuid_is_cookie_safe(token: Seq<char>)
    requires
        crate::accounts::uuid_text(token),
    ensures
        !token.contains(';'),
        token.len() > 0,
        !crate::text::white_space(token.last()),
{
    assert forall|i: int| 0 <= i < token.len() implies token[i] != ';' by {}
    assert(crate::accounts::hex_digit(token[35]));
}

/// The cookie that a login sets holds the token where the client sends it back from: before the
/// first semicolon.
pub proof fn login_cookie_holds_token(token: Seq<char>, seconds: int)
    requires
        crate::accounts::uuid_text(token),
    ensures
        ({
            let cookie = crate::accounts::session_cookie(token, seconds);
            cookie.take(crate::text::first_index(cookie, ';')) == "jwt="@ + token
        }),
        cookie_token(crate::accounts::session_cookie(token, seconds)) == Some(token),
{
    reveal_strlit("jwt=");
    reveal_strlit("; Path=/; HttpOnly; SameSite=Lax; Max-Age=");
    lemma_uuid_is_cookie_safe(token);
    lemma_session_part(token, false);
    let bare = "jwt="@ + token;
    let cookie = crate::accounts::session_cookie(token, seconds);
    let attributes = "; Path=/; HttpOnly; SameSite=Lax; Max-Age="@ + crate::text::decimal(seconds);
    assert(cookie =~= bare + attributes);
    assert(attributes[0] == ';');
    assert(cookie[40] == ';');
    assert forall|i: int| 0 <= i < 40 implies cookie[i] != ';' by {
        assert(cookie[i] == bare[i]);
        if i >= 4 {
            assert(bare[i] == token[i - 4]);
        }
    }
    crate::text::lemma_first_index(cookie, ';', 40);
    assert(cookie.take(40) =~= bare);
    assert(cookie =~= bare + seq![';'] + attributes.skip(1));
    first_cookie_wins(bare, attributes.skip(1));
}

/// The cookie that a login sets is text that a header may hold.
pub proof fn login_cookie_fits_a_header(token: Seq<char>, seconds: int, i: int)
    requires
        crate::accounts::uuid_text(token),
        0 <= i < crate::accounts::session_cookie(token, seconds).len(),
    ensures
        ' ' <= crate::accounts::session_cookie(token, seconds)[i] <= '~',
{
    reveal_strlit("jwt=");
    reveal_strlit("; Path=/; HttpOnly; SameSite=Lax; Max-Age=");
    let cookie = crate::accounts::session_cookie(token, seconds);
    let attributes = "; Path=/; HttpOnly; SameSite=Lax; Max-Age="@;
    let number = crate::text::decimal(seconds);
    crate::text::lemma_decimal_is_ascii(seconds);
    assert(cookie =~= "jwt="@ + token + attributes + number);
    if i >= 40 + attributes.len() {
        assert(cookie[i] == number[i - 40 - attributes.len()]);
    } else if i >= 40 {
        assert(cookie[i] == attributes[i - 40]);
    } else if i >= 4 {
        assert(cookie[i] == token[i - 4]);
    }
}

/// The text of a header is its bytes, one character for each, where all of them are visible
/// ASCII characters, spaces or tabs; any other byte makes it unreadable.
pub proof fn headers_are_read_byte_by_byte(bytes: Seq<u8>, i: int)
    requires
        0 <= i < bytes.len(),
    ensures
        header_text(bytes) matches Some(text) ==> text.len() == bytes.len() && text[i] as int
            == bytes[i] as int && (32 <= bytes[i] <= 126 || bytes[i] == 9),
        !(32 <= bytes[i] <= 126 || bytes[i] == 9) ==> header_text(bytes) is None,
{
    if forall|k: int| 0 <= k < bytes.len() ==> header_byte(#[trigger] bytes[k]) {
        assert(header_byte(bytes[i]));
    }
}

/// A header of visible ASCII characters, spaces and tabs can be read.
pub proof fn plain_headers_can_be_read(bytes: Seq<u8>)
    requires
        forall|k: int|
            0 <= k < bytes.len() ==> 32 <= #[trigger] bytes[k] <= 126 || bytes[k] == 9,
    ensures
        header_text(bytes) is Some,
{
    assert forall|k: int| 0 <= k < bytes.len() implies header_byte(#[trigger] bytes[k]) by {}
}

/// An authorization that is not a bearer's gives no token, and then the cookies decide.
pub proof fn other_authorizations_leave_it_to_the_cookies(
    authorization: Option<Seq<char>>,
    cookies: Seq<char>,
)
    requires
        authorization matches Some(text) ==> !"Bearer "@.is_prefix_of(text),
    ensures
        request_token(authorization, Some(cookies)) == cookie_token(cookies),
        request_token(authorization, None) is None,
{
}

/// A cookie of another name gives no token.
pub proof fn other_cookies_give_no_token(part: Seq<char>)
    requires
        !part.contains(';'),
        !"jwt="@.is_prefix_of(crate::text::trimmed(part)),
    ensures
        cookie_token(part) is None,
{
    lemma_single_cookie(part);
}

/// A session stands for its user, with the name and the rights of the row, for as long as it ends
/// later than now; from its end on, and where there is none, it stands for nobody and the request
/// is refused with status 401.
pub proof fn sessions_stand_for_their_user(row: SessionRow, fault: DbFault, now: int)
    ensures
        row.expires_at > now ==> (session_outcome(Ok(Some(row)), now) matches Ok(user)
            && user.user_id == row.user_id@ && user.username == row.username@ && user.is_admin == (
        row.is_admin != 0) && user.is_oidc == (row.is_oidc != 0) && user.totp_enabled == (
        row.totp_enabled != 0) && user.data_unlocked),
        row.expires_at <= now ==> (session_outcome(Ok(Some(row)), now) matches Err(error)
            && error.status == 401),
        session_outcome(Ok(None), now) matches Err(error) && error.status == 401,
        session_outcome(Err(fault), now) matches Err(error) && error.status == 500,
{
}

/// A user is given the very token of its request, which a request carries back to the same
/// session.
pub proof fn given_tokens_come_back(token: Seq<char>, cookies: Option<Seq<char>>)
    ensures
        token_body(token).text_at("token"@) == Some(token),
        request_token(Some("Bearer "@ + token), cookies) == Some(token),
{
    bearer_token_wins(token, cookies);
}

/// Authentication is seen as its user or as its refusal.
pub proof fn authentications_are_seen_whole(user: UserResponse, error: ApiError)
    ensures
        auth_view(Ok(user)) == Ok::<UserView, ErrorView>(user@),
        auth_view(Err(error)) == Err::<UserView, ErrorView>(error@),
{
}

/// A header that is there is read from its bytes, and one that is missing has no text.
pub proof fn headers_are_read_where_they_are(bytes: &[u8])
    ensures
        optional_header(Some(bytes)) == header_text(bytes@),
        optional_header(None) is None,
{
}

} // verus!
