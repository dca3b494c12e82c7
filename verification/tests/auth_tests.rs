use axum::http::{HeaderValue, Request};
use local_llm_api::auth::{ExtractUser, Rejection, INVALID_USER_ID, MISSING_USER_ID, X_USER_ID};
use uuid::Uuid;

#[test]
fn test_extract_user_valid_uuid() {
    let user_id = Uuid::new_v4();
    let req = Request::builder().header("X-User-ID", user_id.to_string()).body(()).unwrap();

    let (parts, _) = req.into_parts();
    let result = ExtractUser::from_header(parts.headers.get(X_USER_ID));

    assert!(result.is_ok());
    assert_eq!(result.unwrap().0, user_id);
}

#[test]
fn test_extract_user_missing_header() {
    let req = Request::builder().body(()).unwrap();

    let (parts, _) = req.into_parts();
    let result = ExtractUser::from_header(parts.headers.get(X_USER_ID));

    assert!(result.is_err());
    let Rejection { status, message } = result.unwrap_err();
    assert_eq!(status, 400);
    assert!(message.contains("missing"));
}

#[test]
fn test_extract_user_invalid_uuid() {
    let req = Request::builder().header("X-User-ID", "not-a-uuid").body(()).unwrap();

    let (parts, _) = req.into_parts();
    let result = ExtractUser::from_header(parts.headers.get(X_USER_ID));

    assert!(result.is_err());
    let Rejection { status, message } = result.unwrap_err();
    assert_eq!(status, 400);
    assert!(message.contains("invalid"));
}

#[test]
fn test_extract_user_invalid_utf8() {
    let mut req = Request::builder().body(()).unwrap();
    req.headers_mut().insert("X-User-ID", HeaderValue::from_bytes(&[0xFF, 0xFE]).unwrap());

    let (parts, _) = req.into_parts();
    let result = ExtractUser::from_header(parts.headers.get(X_USER_ID));

    assert!(result.is_err());
    assert_eq!(result.unwrap_err().status, 400);
}

#[test]
fn extract_user_reads_every_form_of_an_identifier() {
    let id = Uuid::parse_str("550e8400-e29b-41d4-a716-446655440000").unwrap();
    for text in [
        "550e8400-e29b-41d4-a716-446655440000",
        "550e8400e29b41d4a716446655440000",
        "{550e8400-e29b-41d4-a716-446655440000}",
        "urn:uuid:550e8400-e29b-41d4-a716-446655440000",
        "550E8400-E29B-41D4-A716-446655440000",
    ] {
        let value = HeaderValue::from_str(text).unwrap();
        assert_eq!(ExtractUser::from_header(Some(&value)).unwrap().0, id);
    }
}

#[test]
fn extract_user_messages_are_exact() {
    let missing = ExtractUser::from_header(None).unwrap_err();
    assert_eq!(missing.status, 400);
    assert_eq!(missing.message, "`X-User-ID` header is missing");
    assert_eq!(missing.message, MISSING_USER_ID);

    let empty = HeaderValue::from_static("");
    let invalid = ExtractUser::from_header(Some(&empty)).unwrap_err();
    assert_eq!(invalid.status, 400);
    assert_eq!(invalid.message, "invalid user id");
    assert_eq!(invalid.message, INVALID_USER_ID);

    let obscured = HeaderValue::from_bytes(b"550e8400-e29b-41d4-a716-44665544000\xe9").unwrap();
    let unreadable = ExtractUser::from_header(Some(&obscured)).unwrap_err();
    assert_eq!(unreadable.message, "invalid user id");
}

#[test]
fn extract_user_from_parsed_decides_by_presence_first() {
    let id = Uuid::new_v4();
    assert_eq!(ExtractUser::from_parsed(true, Some(id)).unwrap().0, id);
    assert_eq!(ExtractUser::from_parsed(true, None).unwrap_err().message, "invalid user id");
    assert_eq!(
        ExtractUser::from_parsed(false, None).unwrap_err().message,
        "`X-User-ID` header is missing"
    );
    assert_eq!(
        ExtractUser::from_parsed(false, Some(id)).unwrap_err().message,
        "`X-User-ID` header is missing"
    );
}
