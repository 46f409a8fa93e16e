use termix_local::json::{Json, JsonObject};
use termix_local::json_text::{parse_json, parse_stored, print_json};

#[test]
fn printing_reads_back() {
    let text = "{\"b\":[1,-2,true,null],\"a\":{\"x\":\"y\\n\"}}";
    let value = parse_json(text).unwrap();
    let printed = print_json(&value);
    assert_eq!(printed, "{\"a\":{\"x\":\"y\\n\"},\"b\":[1,-2,true,null]}");
    assert_eq!(print_json(&parse_json(&printed).unwrap()), printed);
}

#[test]
fn broken_texts_have_a_message() {
    assert_eq!(parse_json("{").unwrap_err(), "EOF while parsing an object at line 1 column 1");
    assert_eq!(print_json(&parse_stored("{")), "{}");
    assert_eq!(print_json(&parse_stored("[1]")), "[1]");
}

#[test]
fn fractions_survive() {
    let value = parse_json("[1.5,18446744073709551615,1e300]").unwrap();
    assert_eq!(print_json(&value), "[1.5,18446744073709551615,1e+300]");
    if let Json::Array(items) = &value {
        assert_eq!(items[0].as_i64(), None);
        assert_eq!(items[0].as_u64(), None);
        assert_eq!(items[1].as_u64(), Some(u64::MAX));
        assert_eq!(items[1].as_i64(), None);
    } else {
        panic!("no array");
    }
}

#[test]
fn later_members_replace_earlier_ones() {
    let value = parse_json("{\"a\":1,\"a\":2}").unwrap();
    assert_eq!(print_json(&value), "{\"a\":2}");
}

#[test]
fn objects_hold_each_key_once() {
    let mut object = JsonObject::new().with("a", Json::from_i64(1)).with("b", Json::Bool(true));
    object.insert("a".to_string(), Json::from_text("x"));
    assert!(object.contains_key("b"));
    assert!(!object.contains_key("c"));
    assert_eq!(object.get("a").and_then(|value| value.as_str()), Some("x"));
    assert_eq!(print_json(&Json::Object(object)), "{\"a\":\"x\",\"b\":true}");
}

#[test]
fn reads_members() {
    let value = parse_json("{\"t\":\"x\",\"b\":false,\"n\":-5,\"o\":{}}").unwrap();
    assert_eq!(value.text_at("t"), Some("x"));
    assert_eq!(value.text_at("n"), None);
    assert_eq!(value.bool_at("b"), Some(false));
    assert_eq!(value.get("n").and_then(|n| n.as_i64()), Some(-5));
    assert_eq!(value.get("n").and_then(|n| n.as_u64()), None);
    assert!(matches!(value.get("o"), Some(Json::Object(_))));
    assert!(value.get("missing").is_none());
    assert!(Json::Null.get("t").is_none());
}

#[test]
fn copies_are_equal() {
    let value = parse_json("{\"a\":[1,{\"b\":\"c\"}],\"d\":1.25}").unwrap();
    assert_eq!(print_json(&value.clone()), print_json(&value));
}

#[test]
fn values_cross_to_serde_json_and_back() {
    let outside: serde_json::Value = serde_json::from_str("{\"a\":[1,{\"b\":null}]}").unwrap();
    let inside = Json::from_value(outside.clone());
    assert_eq!(inside.to_value(), outside);
}
