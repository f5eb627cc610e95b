use codex_models::header::etag_from_header;
use http::HeaderValue;

#[test]
fn etag_header_is_read() {
    let value = HeaderValue::from_static("\"abc\"");
    assert_eq!(etag_from_header(Some(&value)), Some("\"abc\"".to_string()));
}

#[test]
fn etag_absent_or_unreadable_is_none() {
    assert_eq!(etag_from_header(None), None);
    let value = HeaderValue::from_bytes(b"caf\xc3\xa9").unwrap();
    assert_eq!(etag_from_header(Some(&value)), None);
    let tabbed = HeaderValue::from_bytes(b"W/\"x\"\ty").unwrap();
    assert_eq!(etag_from_header(Some(&tabbed)), Some("W/\"x\"\ty".to_string()));
}
