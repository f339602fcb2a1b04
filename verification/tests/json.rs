use animus_subject_zendesk::json::{Json, JsonObject};

fn string(s: &str) -> Json {
    Json::String(s.to_string())
}

fn object(entries: Vec<(&str, Json)>) -> Json {
    Json::Object(entries.into_iter().map(|(key, value)| (key.to_string(), value)).collect())
}

#[test]
fn reads_each_kind_of_value() {
    assert_eq!(Json::parse("null"), Ok(Json::Null));
    assert_eq!(Json::parse("true"), Ok(Json::Bool(true)));
    assert_eq!(Json::parse("18446744073709551615"), Ok(Json::Unsigned(u64::MAX)));
    assert_eq!(Json::parse("\"a\\n\\u00e9\""), Ok(string("a\né")));
    assert_eq!(Json::parse("[1, []]"), Ok(Json::Array(vec![Json::Unsigned(1), Json::Array(vec![])])));
    assert_eq!(Json::parse("{\"a\": 1}"), Ok(object(vec![("a", Json::Unsigned(1))])));
}

#[test]
fn numbers_that_are_not_unsigned_are_other_numbers() {
    for text in ["-1", "1.5", "1.0", "-0.0", "1e30", "18446744073709551616"] {
        let json = Json::parse(text).unwrap();
        assert!(matches!(json, Json::OtherNumber(_)), "{text}");
        assert_eq!(json.as_u64(), None);
        assert_eq!(json.as_str(), None);
        assert!(json.as_array().is_none());
        assert!(json.get("a").is_none());
    }
}

#[test]
fn reading_fails_with_the_words_of_the_reader() {
    for text in ["", "{", "[1,]", "nul"] {
        let words = serde_json::from_str::<serde_json::Value>(text).unwrap_err().to_string();
        assert_eq!(Json::parse(text), Err(words));
    }
}

#[test]
fn prints_compact_text_in_key_order() {
    let json = object(vec![
        ("b", Json::Array(vec![Json::Null, Json::Bool(false), string("\"x\"\n")])),
        ("a", Json::Unsigned(7)),
    ]);
    assert_eq!(json.to_text(), "{\"a\":7,\"b\":[null,false,\"\\\"x\\\"\\n\"]}");
}

#[test]
fn prints_other_numbers_as_they_were_read() {
    for text in ["-12", "1.5", "-0.0", "1e30"] {
        let value = serde_json::from_str::<serde_json::Value>(text).unwrap();
        assert_eq!(Json::parse(text).unwrap().to_text(), value.to_string());
    }
}

#[test]
fn converts_there_and_back() {
    let text = "{\"a\":[1,-2,3.5,null,true,\"s\"],\"b\":{\"c\":{}}}";
    let value = serde_json::from_str::<serde_json::Value>(text).unwrap();
    let json = Json::from_value(value.clone());
    assert_eq!(json.to_value(), value);
    assert_eq!(json.to_text(), text);
}

#[test]
fn later_entry_with_a_key_counts() {
    let json = object(vec![("a", Json::Unsigned(1)), ("b", Json::Null), ("a", Json::Unsigned(2))]);
    assert_eq!(json.get_u64("a"), Some(2));
    assert_eq!(json.to_text(), "{\"a\":2,\"b\":null}");
    assert_eq!(Json::parse("{\"a\":1,\"a\":2}").unwrap().get_u64("a"), Some(2));
}

#[test]
fn members_are_of_objects_only() {
    assert!(Json::Null.get("a").is_none());
    assert!(Json::Array(vec![]).get("a").is_none());
    assert!(object(vec![]).get("a").is_none());
    let json = object(vec![("a", string("x")), ("n", Json::Unsigned(3))]);
    assert_eq!(json.get_str("a"), Some("x"));
    assert_eq!(json.get_u64("a"), None);
    assert_eq!(json.get_str("n"), None);
    assert!(json.get_array("a").is_none());
}

#[test]
fn object_holds_what_was_put_in_last() {
    assert!(JsonObject::new().is_empty());
    assert_eq!(JsonObject::new().into_json(), object(vec![]));
    let made = JsonObject::new()
        .insert("b", Json::Unsigned(1))
        .insert("a", Json::Array(vec![string("x")]))
        .insert("b", Json::Unsigned(2));
    assert!(!made.is_empty());
    assert_eq!(made.into_json().to_text(), "{\"a\":[\"x\"],\"b\":2}");
}
