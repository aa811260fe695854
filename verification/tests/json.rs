use translation_relay::json::{parse_json, JsonValue};

fn json_text(s: &str) -> JsonValue {
    JsonValue::Text(s.to_string())
}

#[test]
fn parse_json_reads_scalars() {
    assert_eq!(parse_json("null"), Some(JsonValue::Null));
    assert_eq!(parse_json("true"), Some(JsonValue::Bool(true)));
    assert_eq!(parse_json("false"), Some(JsonValue::Bool(false)));
    assert_eq!(parse_json("42"), Some(JsonValue::Number("42".to_string())));
    assert_eq!(parse_json("-7"), Some(JsonValue::Number("-7".to_string())));
    assert_eq!(parse_json("\"a\\nb\""), Some(json_text("a\nb")));
}

#[test]
fn parse_json_reads_nested_documents() {
    let doc = parse_json("{\"b\": [1, {\"c\": null}], \"a\": \"x\"}").unwrap();
    assert_eq!(doc.get("a"), Some(&json_text("x")));
    assert_eq!(
        doc.get("b"),
        Some(&JsonValue::Array(vec![
            JsonValue::Number("1".to_string()),
            JsonValue::Object(vec![("c".to_string(), JsonValue::Null)]),
        ]))
    );
}

#[test]
fn parse_json_rejects_what_is_no_document() {
    assert_eq!(parse_json(""), None);
    assert_eq!(parse_json("{"), None);
    assert_eq!(parse_json("{\"a\": 1} trailing"), None);
    assert_eq!(parse_json("plain words"), None);
    assert_eq!(parse_json("{'a': 1}"), None);
}

#[test]
fn parse_json_gives_the_same_document_each_time() {
    let source = "{\"k\": [true, \"v\", 1.5]}";
    assert_eq!(parse_json(source), parse_json(source));
}

#[test]
fn get_finds_members_of_objects_only() {
    let doc = JsonValue::Object(vec![
        ("one".to_string(), JsonValue::Bool(true)),
        ("two".to_string(), json_text("2")),
    ]);
    assert_eq!(doc.get("one"), Some(&JsonValue::Bool(true)));
    assert_eq!(doc.get("two"), Some(&json_text("2")));
    assert_eq!(doc.get("three"), None);
    assert_eq!(doc.get("ONE"), None);
    assert_eq!(JsonValue::Array(vec![json_text("one")]).get("one"), None);
    assert_eq!(json_text("one").get("one"), None);
    assert_eq!(JsonValue::Null.get(""), None);
}

#[test]
fn get_takes_the_first_of_equal_keys() {
    let doc = JsonValue::Object(vec![
        ("k".to_string(), json_text("first")),
        ("k".to_string(), json_text("second")),
    ]);
    assert_eq!(doc.get("k"), Some(&json_text("first")));
}

#[test]
fn get_text_wants_a_string_member() {
    let doc = JsonValue::Object(vec![
        ("s".to_string(), json_text("yes")),
        ("n".to_string(), JsonValue::Number("1".to_string())),
        ("z".to_string(), JsonValue::Null),
        ("e".to_string(), json_text("")),
    ]);
    assert_eq!(doc.get_text("s"), Some(&"yes".to_string()));
    assert_eq!(doc.get_text("e"), Some(&String::new()));
    assert_eq!(doc.get_text("n"), None);
    assert_eq!(doc.get_text("z"), None);
    assert_eq!(doc.get_text("missing"), None);
    assert_eq!(JsonValue::Bool(false).get_text("s"), None);
}
