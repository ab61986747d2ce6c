use energy_preferences::error::ErrorKind;
use energy_preferences::json::Json;

#[test]
fn every_kind_of_value_is_read_as_its_tree() {
    let read = Json::from_text(r#"[true, false, null, "x", 1, -2.5e3, [], {}, {"k": [null]}]"#);
    assert_eq!(
        read,
        Ok(Json::Array(vec![
            Json::Bool(true),
            Json::Bool(false),
            Json::Null,
            Json::Text("x".to_string()),
            Json::Number,
            Json::Number,
            Json::Array(vec![]),
            Json::Object(vec![]),
            Json::Object(vec![("k".to_string(), Json::Array(vec![Json::Null]))]),
        ]))
    );
}

#[test]
fn bare_values_are_read() {
    assert_eq!(Json::from_text("null"), Ok(Json::Null));
    assert_eq!(Json::from_text(" 17 "), Ok(Json::Number));
    assert_eq!(Json::from_text(r#""wind""#), Ok(Json::Text("wind".to_string())));
}

#[test]
fn texts_are_read_with_their_escapes_resolved() {
    assert_eq!(
        Json::from_text(r#""a\"b\\c\né""#),
        Ok(Json::Text("a\"b\\c\n\u{e9}".to_string()))
    );
}

#[test]
fn members_keep_their_names_and_values() {
    let read = Json::from_text(r#"{"1800s": ["solar"], "2000s": []}"#).unwrap();
    let members = match read {
        Json::Object(members) => members,
        other => panic!("not an object: {:?}", other),
    };
    assert_eq!(members.len(), 2);
    assert!(members.contains(&("1800s".to_string(), Json::Array(vec![Json::Text("solar".to_string())]))));
    assert!(members.contains(&("2000s".to_string(), Json::Array(vec![]))));
}

#[test]
fn member_named_twice_is_held_once_with_its_last_value() {
    assert_eq!(
        Json::from_text(r#"{"k": 1, "k": "last"}"#),
        Ok(Json::Object(vec![("k".to_string(), Json::Text("last".to_string()))]))
    );
}

#[test]
fn text_that_is_not_json_is_bad_json() {
    assert_eq!(Json::from_text(""), Err(ErrorKind::BadJson));
    assert_eq!(Json::from_text("{not valid json"), Err(ErrorKind::BadJson));
    assert_eq!(Json::from_text("[1,"), Err(ErrorKind::BadJson));
    assert_eq!(Json::from_text("[1] 2"), Err(ErrorKind::BadJson));
    assert_eq!(Json::from_text("'single'"), Err(ErrorKind::BadJson));
}
