use termix_local::accounts::UserResponse;
use termix_local::credentials::{
    create_credential, create_credential_reply, credential_json, delete_credential,
    delete_credential_reply, find_credential, get_credential, get_credential_reply,
    list_credentials, list_credentials_reply, merge_preserved_credential_fields,
    resolve_credential_auth, update_credential, update_credential_merge, update_credential_reply,
    validate_credential_payload,
};
use termix_local::error::ApiError;
use termix_local::json::Json;
use termix_local::json_text::{parse_json, print_json};
use termix_local::store::{DbFault, RecordRow};

fn json(text: &str) -> Json {
    parse_json(text).unwrap()
}

fn expect(text: &str) -> serde_json::Value {
    serde_json::from_str(text).unwrap()
}

fn user() -> UserResponse {
    UserResponse {
        user_id: "u1".to_string(),
        username: "anna".to_string(),
        is_admin: false,
        is_oidc: false,
        totp_enabled: false,
        data_unlocked: true,
    }
}

fn nobody() -> Result<UserResponse, ApiError> {
    Err(ApiError::unauthorized("Invalid token"))
}

fn row(id: i64, data: &str) -> RecordRow {
    RecordRow { id, data: data.to_string(), created_at: 100, updated_at: 200 }
}

#[test]
fn a_credential_needs_a_name_and_a_known_use() {
    for good in ["{\"name\":\"n\"}", "{\"name\":\" n \",\"authType\":\"key\"}", "{\"name\":\"n\",\"authType\":\"password\"}", "{\"name\":\"n\",\"authType\":5}"] {
        assert!(validate_credential_payload(&json(good)).is_ok());
    }
    for bad in ["{}", "{\"name\":\" \"}", "{\"name\":5}", "{\"name\":\"n\",\"authType\":\"none\"}", "{\"name\":\"n\",\"authType\":\"\"}", "5"] {
        let error = validate_credential_payload(&json(bad)).unwrap_err();
        assert_eq!((error.status, error.message.as_str()), (400, "Invalid credential data"));
    }
}

#[test]
fn a_bare_credential_is_shown_with_every_default() {
    assert_eq!(
        credential_json(3, "u1", json("{\"name\":\"n\",\"id\":8}"), 1, 2).to_value(),
        expect("{\"name\":\"n\",\"id\":3,\"userId\":\"u1\",\"description\":\"\",\"folder\":\"\",\"tags\":[],\"authType\":\"password\",\"usageCount\":0,\"lastUsed\":null,\"createdAt\":\"1\",\"updatedAt\":\"2\"}")
    );
    assert_eq!(
        credential_json(3, "u1", json("{\"usageCount\":4,\"lastUsed\":\"x\",\"authType\":\"key\"}"), 1, 2).to_value()["usageCount"],
        expect("4")
    );
    assert_eq!(
        credential_json(3, "u1", json("7"), 1, 2).to_value(),
        credential_json(3, "u1", json("{}"), 1, 2).to_value()
    );
}

fn merged_credential(payload: &str, existing: &str) -> serde_json::Value {
    let mut sent = json(payload);
    merge_preserved_credential_fields(&mut sent, &json(existing));
    sent.to_value()
}

#[test]
fn a_credential_keeps_the_secrets_that_are_left_out() {
    let existing = "{\"password\":\"p\",\"key\":\"k\",\"publicKey\":\"pk\",\"keyPassword\":\"kp\",\"keyType\":\"t\"}";
    assert_eq!(merged_credential("{}", existing), expect("{\"password\":\"p\"}"));
    assert_eq!(
        merged_credential("{\"authType\":\"key\",\"key\":\"existing_key\"}", existing),
        expect("{\"authType\":\"key\",\"key\":\"k\",\"publicKey\":\"pk\",\"keyPassword\":\"kp\",\"keyType\":\"t\"}")
    );
    assert_eq!(
        merged_credential("{}", "{\"authType\":\"key\",\"key\":\"k\",\"password\":\"p\"}"),
        expect("{\"key\":\"k\"}")
    );
    assert_eq!(merged_credential("{\"authType\":\"other\"}", existing), expect("{\"authType\":\"other\"}"));
    assert_eq!(merged_credential("[]", existing), expect("[]"));
}

#[test]
fn a_credential_gives_a_login() {
    let auth = resolve_credential_auth(Ok(Some(row(1, "{\"username\":\"\",\"password\":\"p\",\"key\":5,\"authType\":\"key\"}")))).unwrap();
    assert_eq!(auth.username, None);
    assert_eq!(auth.password, Some("p".to_string()));
    assert_eq!(auth.key, None);
    assert_eq!(auth.key_password, None);
    assert_eq!(auth.auth_type, "key");
    let auth = resolve_credential_auth(Ok(Some(row(1, "[]")))).unwrap();
    assert_eq!(auth.auth_type, "password");
    assert_eq!(resolve_credential_auth(Ok(None)).unwrap_err(), "Credential not found");
    assert_eq!(
        resolve_credential_auth(Ok(Some(row(1, "{")))).unwrap_err(),
        "Invalid credential data: EOF while parsing an object at line 1 column 1"
    );
    assert_eq!(
        resolve_credential_auth(Err(DbFault::Run("x".to_string()))).unwrap_err(),
        "Failed to load credential: x"
    );
    assert_eq!(resolve_credential_auth(Err(DbFault::Locked)).unwrap_err(), "Database lock poisoned");
}

#[test]
fn a_credential_is_looked_up() {
    assert!(find_credential(None, Some("u1")).is_none());
    assert_eq!(
        format!("{:?}", find_credential(Some(5), Some("u1")).unwrap()),
        "FindRecord { kind: Credential, id: 5, owner: Some(\"u1\") }"
    );
    assert_eq!(
        format!("{:?}", find_credential(Some(5), None).unwrap()),
        "FindRecord { kind: Credential, id: 5, owner: None }"
    );
}

#[test]
fn a_payload_is_checked_before_the_user() {
    assert_eq!(create_credential(nobody(), &json("{}"), 1).unwrap_err().status, 400);
    assert_eq!(create_credential(nobody(), &json("{\"name\":\"n\"}"), 1).unwrap_err().status, 401);
    assert_eq!(update_credential(nobody(), 1, &json("{}")).unwrap_err().status, 400);
    assert_eq!(update_credential(nobody(), 1, &json("{\"name\":\"n\"}")).unwrap_err().status, 401);
}

#[test]
fn credential_statements_are_confined_to_their_user() {
    assert_eq!(
        format!("{:?}", list_credentials(Ok(user())).unwrap().command),
        "ListRecords { kind: Credential, user_id: \"u1\" }"
    );
    assert_eq!(
        format!("{:?}", get_credential(Ok(user()), 4).unwrap().command),
        "FindRecord { kind: Credential, id: 4, owner: Some(\"u1\") }"
    );
    assert_eq!(
        format!("{:?}", delete_credential(Ok(user()), 4).unwrap().command),
        "DeleteRecord { kind: Credential, id: 4, user_id: \"u1\" }"
    );
    assert_eq!(
        format!("{:?}", create_credential(Ok(user()), &json("{\"name\":\"n\"}"), 8).unwrap().command),
        "InsertRecord { kind: Credential, user_id: \"u1\", data: \"{\\\"name\\\":\\\"n\\\"}\", created_at: 8, updated_at: 8 }"
    );
    assert_eq!(
        format!("{:?}", update_credential(Ok(user()), 4, &json("{\"name\":\"n\"}")).unwrap().command),
        "FindRecord { kind: Credential, id: 4, owner: Some(\"u1\") }"
    );
    assert_eq!(list_credentials(nobody()).unwrap_err().status, 401);
    assert_eq!(get_credential(nobody(), 4).unwrap_err().status, 401);
    assert_eq!(delete_credential(nobody(), 4).unwrap_err().status, 401);
}

#[test]
fn a_created_credential_comes_back() {
    let payload = json("{\"name\":\"n\",\"password\":\"p\"}");
    let created = create_credential_reply(&user(), payload.clone(), Ok(9), 50).unwrap();
    let stored = RecordRow { id: 9, data: print_json(&payload), created_at: 50, updated_at: 50 };
    let found = get_credential_reply(&user(), 9, Ok(Some(stored))).unwrap();
    assert_eq!(found.to_value(), created.to_value());
    assert_eq!(
        create_credential_reply(&user(), payload, Err(DbFault::Run("x".to_string())), 1).unwrap_err().message,
        "Failed to save credential: x"
    );
    let error = get_credential_reply(&user(), 9, Ok(None)).unwrap_err();
    assert_eq!((error.status, error.message.as_str()), (404, "Credential not found"));
    assert_eq!(
        get_credential_reply(&user(), 9, Err(DbFault::Run("x".to_string()))).unwrap_err().message,
        "Failed to load credential: x"
    );
}

#[test]
fn credentials_are_listed_in_order() {
    let body = list_credentials_reply(&user(), Ok(vec![row(2, "{\"name\":\"n\"}"), row(1, "broken")])).unwrap();
    let list = body.to_value();
    assert_eq!(list[0]["id"], expect("2"));
    assert_eq!(list[0]["name"], expect("\"n\""));
    assert_eq!(list[1], credential_json(1, "u1", json("{}"), 100, 200).to_value());
    for (fault, message) in [
        (DbFault::Prepare("x".to_string()), "Failed to prepare credential query: x"),
        (DbFault::Run("x".to_string()), "Failed to query credentials: x"),
        (DbFault::Row("x".to_string()), "Failed to read credential row: x"),
    ] {
        assert_eq!(list_credentials_reply(&user(), Err(fault)).unwrap_err().message, message);
    }
}

#[test]
fn an_updated_credential_is_merged_and_stored() {
    let update = update_credential_merge(
        &user(),
        4,
        json("{\"name\":\"m\"}"),
        Ok(Some(row(4, "{\"name\":\"n\",\"password\":\"p\"}"))),
        60,
    )
    .unwrap();
    assert_eq!(update.payload.to_value(), expect("{\"name\":\"m\",\"password\":\"p\"}"));
    assert_eq!(
        format!("{:?}", update.command),
        "UpdateRecord { kind: Credential, id: 4, user_id: \"u1\", data: \"{\\\"name\\\":\\\"m\\\",\\\"password\\\":\\\"p\\\"}\", updated_at: 60 }"
    );
    let stored = RecordRow { id: 4, data: print_json(&update.payload), created_at: 100, updated_at: 60 };
    assert_eq!(
        get_credential_reply(&user(), 4, Ok(Some(stored))).unwrap().to_value(),
        credential_json(4, "u1", json("{\"name\":\"m\",\"password\":\"p\"}"), 100, 60).to_value()
    );
    let shown = update_credential_reply(&user(), 4, update.payload, Ok(0), 60).unwrap();
    assert_eq!(shown.to_value()["updatedAt"], expect("\"60\""));
    assert_eq!(update_credential_merge(&user(), 4, json("{}"), Ok(None), 60).unwrap_err().status, 404);
    assert_eq!(
        update_credential_merge(&user(), 4, json("{}"), Err(DbFault::Locked), 60).unwrap_err().message,
        "Database lock poisoned"
    );
    assert_eq!(
        update_credential_reply(&user(), 4, json("{}"), Err(DbFault::Run("x".to_string())), 60).unwrap_err().message,
        "Failed to update credential: x"
    );
}

#[test]
fn a_credential_is_deleted() {
    assert_eq!(print_json(&delete_credential_reply(Ok(())).unwrap()), "{\"success\":true}");
    assert_eq!(
        delete_credential_reply(Err(DbFault::Run("x".to_string()))).unwrap_err().message,
        "Failed to delete credential: x"
    );
}
