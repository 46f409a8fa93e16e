use termix_local::json::{Json, JsonObject};
use termix_local::json_text::{parse_json, print_json};
use termix_local::records::{apply_defaults, holds_text, preserve_string_field, preserve_string_fields};

fn object(text: &str) -> JsonObject {
    parse_json(text).unwrap().into_object()
}

fn printed(object: JsonObject) -> String {
    print_json(&Json::Object(object))
}

#[test]
fn defaults_fill_what_is_missing_once() {
    let mut filled = object("{\"a\":null,\"b\":2}");
    apply_defaults(&mut filled, vec![("a", Json::from_i64(1)), ("c", Json::from_i64(3)), ("c", Json::from_i64(4))]);
    assert_eq!(printed(filled.clone()), "{\"a\":null,\"b\":2,\"c\":3}");
    apply_defaults(&mut filled, vec![("c", Json::from_i64(5))]);
    assert_eq!(printed(filled), "{\"a\":null,\"b\":2,\"c\":3}");
}

#[test]
fn only_texts_that_are_not_empty_count() {
    let texts = object("{\"a\":\"x\",\"b\":\"\",\"c\":5}");
    assert!(holds_text(&texts, "a"));
    assert!(!holds_text(&texts, "b"));
    assert!(!holds_text(&texts, "c"));
    assert!(!holds_text(&texts, "d"));
}

#[test]
fn fields_are_kept_one_by_one() {
    let existing = object("{\"a\":\"x\",\"b\":\"y\",\"c\":\"\",\"d\":5}");
    let mut sent = object("{\"a\":\"new\",\"b\":\"existing_key\",\"c\":\"existing_password\",\"e\":1}");
    preserve_string_field(&mut sent, &existing, "a");
    preserve_string_field(&mut sent, &existing, "b");
    preserve_string_fields(&mut sent, &existing, vec!["c", "d", "missing"]);
    assert_eq!(printed(sent), "{\"a\":\"new\",\"b\":\"y\",\"c\":\"existing_password\",\"e\":1}");
}
