use smite::client::Client;
use smite::error::Error;
use smite::session::{session_from_parts, Session};

// 2024-01-02 15:04:05 UTC, what the API writes as "1/2/2024 3:04:05 PM".
const SAMPLE_EPOCH: i64 = 1_704_207_845;

#[test]
fn session_live_strictly_under_ttl() {
    let s = Session { id: "abc".to_string(), created_at: 1000 };
    assert!(s.is_alive(1000));
    assert!(s.is_alive(1000 + 899));
    assert!(!s.is_alive(1000 + 900));
    assert!(!s.is_alive(1000 + 901));
}

#[test]
fn session_live_before_its_creation_moment() {
    let s = Session { id: "abc".to_string(), created_at: 1000 };
    assert!(s.is_alive(999));
    assert!(s.is_alive(i64::MIN));
    assert!(!s.is_alive(i64::MAX));
}

#[test]
fn approved_response_yields_live_session() {
    let r = session_from_parts(
        "Approved".to_string(),
        Some("abc123".to_string()),
        Some("1/2/2024 3:04:05 PM"),
    );
    let s = r.unwrap();
    assert_eq!(s.id, "abc123");
    assert_eq!(s.created_at, SAMPLE_EPOCH);
    assert!(s.is_alive(SAMPLE_EPOCH + 899));
    assert!(!s.is_alive(SAMPLE_EPOCH + 900));
}

#[test]
fn rejected_response_carries_status_verbatim() {
    let r = session_from_parts(
        "Invalid Signature".to_string(),
        Some("abc123".to_string()),
        Some("1/2/2024 3:04:05 PM"),
    );
    match r {
        Err(Error::ApiRejection(status)) => assert_eq!(status, "Invalid Signature"),
        other => panic!("expected an API rejection, got {other:?}"),
    }
}

#[test]
fn approved_response_without_id_is_inconsistent() {
    let r = session_from_parts("Approved".to_string(), None, Some("1/2/2024 3:04:05 PM"));
    assert!(matches!(r, Err(Error::SessionUnavailable)));
}

#[test]
fn approved_response_with_unreadable_timestamp_is_parse_error() {
    let r = session_from_parts(
        "Approved".to_string(),
        Some("abc123".to_string()),
        Some("not a moment"),
    );
    assert!(matches!(r, Err(Error::ParseError(_))));
}

#[test]
fn apply_session_body_stores_the_session() {
    let mut client = Client::new("1004".to_string(), "secret".to_string());
    let body =
        r#"{"ret_msg":"Approved","session_id":"abc123","timestamp":"1/2/2024 3:04:05 PM"}"#;
    let id = client.apply_session_body(body).unwrap();
    assert_eq!(id, "abc123");
    let stored = client.session.as_ref().unwrap();
    assert_eq!(stored.id, "abc123");
    assert_eq!(stored.created_at, SAMPLE_EPOCH);
    assert_eq!(client.live_session_id(SAMPLE_EPOCH + 10), Some("abc123".to_string()));
    assert_eq!(client.live_session_id(SAMPLE_EPOCH + 900), None);
}

#[test]
fn apply_session_body_rejection_stores_nothing() {
    let mut client = Client::new("1004".to_string(), "secret".to_string());
    let body = r#"{"ret_msg":"Invalid Signature","session_id":"abc123","timestamp":"1/2/2024 3:04:05 PM"}"#;
    match client.apply_session_body(body) {
        Err(Error::ApiRejection(status)) => assert_eq!(status, "Invalid Signature"),
        other => panic!("expected an API rejection, got {other:?}"),
    }
    assert!(client.session.is_none());
    assert_eq!(client.live_session_id(SAMPLE_EPOCH), None);
}

#[test]
fn apply_session_body_html_page_is_html_error() {
    let mut client = Client::new("1004".to_string(), "secret".to_string());
    let body = "<html><body><p>Invalid param</p></body></html>";
    match client.apply_session_body(body) {
        Err(Error::HtmlApiError(msg)) => assert_eq!(msg, "Invalid param"),
        other => panic!("expected an HTML error, got {other:?}"),
    }
    assert!(client.session.is_none());
}

#[test]
fn apply_session_body_malformed_json_is_parse_error() {
    let mut client = Client::new("1004".to_string(), "secret".to_string());
    let r = client.apply_session_body("this is not json");
    assert!(matches!(r, Err(Error::ParseError(_))));
    assert!(client.session.is_none());
}

#[test]
fn apply_session_body_missing_status_is_rejection_with_empty_status() {
    let mut client = Client::new("1004".to_string(), "secret".to_string());
    let r = client.apply_session_body(r#"{"session_id":"abc123"}"#);
    match r {
        Err(Error::ApiRejection(status)) => assert_eq!(status, ""),
        other => panic!("expected an API rejection, got {other:?}"),
    }
}

#[test]
fn apply_session_body_missing_timestamp_is_parse_error() {
    let mut client = Client::new("1004".to_string(), "secret".to_string());
    let r = client.apply_session_body(r#"{"ret_msg":"Approved","session_id":"abc123"}"#);
    assert!(matches!(r, Err(Error::ParseError(_))));
}

#[test]
fn every_caller_in_the_window_reuses_the_stored_session() {
    let mut client = Client::new("1004".to_string(), "secret".to_string());
    let body =
        r#"{"ret_msg":"Approved","session_id":"abc123","timestamp":"1/2/2024 3:04:05 PM"}"#;
    let created = client.apply_session_body(body).unwrap();
    let first = client.live_session_id(SAMPLE_EPOCH + 1);
    let second = client.live_session_id(SAMPLE_EPOCH + 899);
    assert_eq!(first, Some(created.clone()));
    assert_eq!(second, Some(created));
}
