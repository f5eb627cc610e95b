use codex_models::json::{parse_json, Json};

#[test]
fn parse_json_rebuilds_document() {
    let doc = parse_json(br#"{"b": [1, 2.5, "x", null, true], "a": {}}"#).unwrap();
    let Json::Object(members) = doc else { panic!("object expected") };
    assert_eq!(members.len(), 2);
    let b = members.iter().find(|(k, _)| k == "b").map(|(_, v)| v).unwrap();
    assert_eq!(
        *b,
        Json::Array(vec![
            Json::Number("1".to_string()),
            Json::Number("2.5".to_string()),
            Json::Str("x".to_string()),
            Json::Null,
            Json::Bool(true),
        ])
    );
    let a = members.iter().find(|(k, _)| k == "a").map(|(_, v)| v).unwrap();
    assert_eq!(*a, Json::Object(vec![]));
}

#[test]
fn parse_json_get_and_accessors() {
    let doc = parse_json(br#"{"k": "v", "n": 3, "arr": []}"#).unwrap();
    assert_eq!(doc.str_member("k"), Some("v"));
    assert_eq!(doc.str_member("n"), None);
    assert_eq!(doc.str_member("missing"), None);
    assert_eq!(doc.array_member("arr").map(|a| a.len()), Some(0));
    assert_eq!(doc.array_member("k"), None);
    assert_eq!(Json::Str("s".to_string()).get("k"), None);
    assert!(parse_json(b"{").is_err());
}
