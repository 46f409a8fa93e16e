//! Bodies that do not depend on what is stored.

use crate::error::Reply;
use crate::json::{Json, JsonObject, JsonView, NumberView};
use vstd::prelude::*;

verus! {

/// The body that tells that the server is there.
pub open spec fn health_body(data_dir: Seq<char>) -> JsonView {
    JsonView::Object(
        map![
            "status"@ => JsonView::Text("healthy"@),
            "database"@ => JsonView::Text("connected"@),
            "dataDir"@ => JsonView::Text(data_dir),
            "success"@ => JsonView::Bool(true),
        ],
    )
}

/// The server is there, and keeps its data in a directory.
pub fn health(data_dir: &str) -> (r: Json)
    ensures
        r@ == health_body(data_dir@),
        r@ == JsonView::Object(
            map![
                "status"@ => JsonView::Text("healthy"@),
                "database"@ => JsonView::Text("connected"@),
                "dataDir"@ => JsonView::Text(data_dir@),
                "success"@ => JsonView::Bool(true),
            ],
        ),
{
    Json::Object(
        JsonObject::new().with("status", Json::from_text("healthy")).with(
            "database",
            Json::from_text("connected"),
        ).with("dataDir", Json::from_text(data_dir)).with("success", Json::Bool(true)),
    )
}

/// The body that tells the version.
pub open spec fn version_body(number: Seq<char>) -> JsonView {
    JsonView::Object(
        map![
            "version"@ => JsonView::Text(number),
            "current_version"@ => JsonView::Text(number),
        ],
    )
}

/// The version of the server.
pub fn version(number: &str) -> (r: Json)
    ensures
        r@ == version_body(number@),
        r@ == JsonView::Object(
            map![
                "version"@ => JsonView::Text(number@),
                "current_version"@ => JsonView::Text(number@),
            ],
        ),
{
    Json::Object(
        JsonObject::new().with("version", Json::from_text(number)).with(
            "current_version",
            Json::from_text(number),
        ),
    )
}

/// A request was done.
pub fn ok_response() -> (r: Json)
    ensures
        r@ == crate::documents::success_body(),
{
    crate::documents::success()
}

/// There are no metrics.
pub fn metrics_not_found() -> (r: Reply)
    ensures
        r@ == crate::error::answer(
            404,
            JsonView::Object(
                map![
                    "error"@ => JsonView::Text("Metrics are not available in local desktop mode"@),
                ],
            ),
        ),
{
    Reply::with_status(
        404,
        Json::Object(
            JsonObject::new().with(
                "error",
                Json::from_text("Metrics are not available in local desktop mode"),
            ),
        ),
    )
}

/// There are no metrics, which is no failure.
pub fn metrics_skipped() -> (r: Json)
    ensures
        r@ == JsonView::Object(
            map![
                "success"@ => JsonView::Bool(true),
                "skipped"@ => JsonView::Bool(true),
                "reason"@ => JsonView::Text("Metrics are not available in local desktop mode"@),
            ],
        ),
{
    Json::Object(
        JsonObject::new().with("success", Json::Bool(true)).with("skipped", Json::Bool(true)).with(
            "reason",
            Json::from_text("Metrics are not available in local desktop mode"),
        ),
    )
}

/// Whether something is allowed.
pub open spec fn allowed_body(allowed: bool) -> JsonView {
    JsonView::Object(map!["allowed"@ => JsonView::Bool(allowed)])
}

/// Something is allowed.
pub fn true_allowed() -> (r: Json)
    ensures
        r@ == allowed_body(true),
{
    Json::Object(JsonObject::new().with("allowed", Json::Bool(true)))
}

/// Something is not allowed.
pub fn false_allowed() -> (r: Json)
    ensures
        r@ == allowed_body(false),
{
    Json::Object(JsonObject::new().with("allowed", Json::Bool(false)))
}

/// A list of nothing.
pub fn empty_array() -> (r: Json)
    ensures
        r@ == JsonView::Array(Seq::empty()),
{
    Json::empty_array()
}

/// A network of nothing.
pub fn empty_topology() -> (r: Json)
    ensures
        r@ == JsonView::Object(
            map![
                "nodes"@ => JsonView::Array(Seq::empty()),
                "edges"@ => JsonView::Array(Seq::empty()),
            ],
        ),
{
    Json::Object(
        JsonObject::new().with("nodes", Json::empty_array()).with("edges", Json::empty_array()),
    )
}

/// No alerts.
pub fn alerts() -> (r: Json)
    ensures
        r@ == JsonView::Object(map!["alerts"@ => JsonView::Array(Seq::empty())]),
{
    Json::Object(JsonObject::new().with("alerts", Json::empty_array()))
}

/// The level of the log.
pub fn log_level() -> (r: Json)
    ensures
        r@ == JsonView::Object(map!["level"@ => JsonView::Text("info"@)]),
{
    Json::Object(JsonObject::new().with("level", Json::from_text("info")))
}

/// How long a session lasts, in hours.
pub fn session_timeout() -> (r: Json)
    ensures
        r@ == JsonView::Object(
            map!["timeoutHours"@ => JsonView::Number(NumberView::Integer(24))],
        ),
{
    Json::Object(JsonObject::new().with("timeoutHours", Json::from_i64(24)))
}

/// The remote desktop is off.
pub fn guacamole_settings() -> (r: Json)
    ensures
        r@ == JsonView::Object(
            map!["enabled"@ => JsonView::Bool(false), "url"@ => JsonView::Text(""@)],
        ),
{
    Json::Object(
        JsonObject::new().with("enabled", Json::Bool(false)).with("url", Json::from_text("")),
    )
}

/// A dashboard without anything on it.
pub fn dashboard_preferences() -> (r: Json)
    ensures
        r@ == JsonView::Object(
            map![
                "layout"@ => JsonView::Array(Seq::empty()),
                "widgets"@ => JsonView::Array(Seq::empty()),
                "preferences"@ => JsonView::Object(Map::empty()),
            ],
        ),
{
    Json::Object(
        JsonObject::new().with("layout", Json::empty_array()).with(
            "widgets",
            Json::empty_array(),
        ).with("preferences", Json::empty_object()),
    )
}

/// The uptime is not kept.
pub fn uptime() -> (r: Json)
    ensures
        r@ == JsonView::Object(
            map![
                "uptime"@ => JsonView::Number(NumberView::Integer(0)),
                "startedAt"@ => JsonView::Null,
            ],
        ),
{
    Json::Object(
        JsonObject::new().with("uptime", Json::from_i64(0)).with("startedAt", Json::Null),
    )
}

/// Something is not configured.
pub fn not_found() -> (r: Reply)
    ensures
        r@ == crate::error::answer(
            404,
            JsonView::Object(map!["error"@ => JsonView::Text("Not configured"@)]),
        ),
{
    Reply::with_status(
        404,
        Json::Object(JsonObject::new().with("error", Json::from_text("Not configured"))),
    )
}

/// A request for something that the server does not have.
pub fn fallback() -> (r: Reply)
    ensures
        r@ == crate::error::answer(
            501,
            JsonView::Object(
                map![
                    "error"@ => JsonView::Text(
                        "This local Tauri server endpoint has not been ported to Rust yet"@,
                    ),
                    "code"@ => JsonView::Text("NOT_IMPLEMENTED"@),
                ],
            ),
        ),
{
    Reply::with_status(
        501,
        Json::Object(
            JsonObject::new().with(
                "error",
                Json::from_text("This local Tauri server endpoint has not been ported to Rust yet"),
            ).with("code", Json::from_text("NOT_IMPLEMENTED")),
        ),
    )
}

// ---------------------------------------------------------------------------------------------
// Laws
// ---------------------------------------------------------------------------------------------

/// The timeout that is told is how long a session lasts that is not to be remembered.
pub proof fn told_timeout_is_the_session_length()
    ensures
        24 * 3600 == crate::accounts::session_length(None),
        24 * 3600 == crate::accounts::session_length(Some(false)),
{
}

/// The server tells that it is well, and the directory that it keeps its data in.
pub proof fn health_tells_the_directory(data_dir: Seq<char>)
    ensures
        health_body(data_dir).text_at("dataDir"@) == Some(data_dir),
        health_body(data_dir).text_at("status"@) == Some("healthy"@),
        health_body(data_dir).text_at("database"@) == Some("connected"@),
        health_body(data_dir).bool_at("success"@) == Some(true),
{
    reveal_strlit("status");
    reveal_strlit("database");
    reveal_strlit("dataDir");
    reveal_strlit("success");
    assert("status"@.len() == 6);
    assert("database"@.len() == 8);
    assert("dataDir"@.len() == 7 && "dataDir"@[0] == 'd');
    assert("success"@.len() == 7 && "success"@[0] == 's');
}

/// The version is told as it is, under both of its names.
pub proof fn versions_are_told_as_they_are(number: Seq<char>)
    ensures
        version_body(number).text_at("version"@) == Some(number),
        version_body(number).text_at("current_version"@) == Some(number),
{
}

/// What is allowed is told as it is.
pub proof fn permissions_are_told_as_they_are(allowed: bool)
    ensures
        allowed_body(allowed).bool_at("allowed"@) == Some(allowed),
{
}

} // verus!
