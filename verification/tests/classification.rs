use smite::error::Error;
use smite::response::classify_body;

#[test]
fn html_page_message_is_the_first_paragraph() {
    let body = "<html><body><p>Invalid param</p></body></html>";
    match classify_body(body) {
        Err(Error::HtmlApiError(msg)) => assert_eq!(msg, "Invalid param"),
        other => panic!("expected an HTML error, got {other:?}"),
    }
}

#[test]
fn html_page_without_paragraph_has_empty_message() {
    let body = "<html><body>nothing here</body></html>";
    match classify_body(body) {
        Err(Error::HtmlApiError(msg)) => assert_eq!(msg, ""),
        other => panic!("expected an HTML error, got {other:?}"),
    }
}

#[test]
fn paragraph_capture_is_greedy_to_the_last_close_tag() {
    let body = "<html><p>first</p><p>second</p></html>";
    match classify_body(body) {
        Err(Error::HtmlApiError(msg)) => assert_eq!(msg, "first</p><p>second"),
        other => panic!("expected an HTML error, got {other:?}"),
    }
}

#[test]
fn json_bodies_pass_classification() {
    assert!(classify_body(r#"{"ret_msg":"Approved"}"#).is_ok());
    assert!(classify_body("[1,2,3]").is_ok());
    assert!(classify_body("").is_ok());
    assert!(classify_body("plain text").is_ok());
}

#[test]
fn anything_starting_with_an_angle_bracket_is_html() {
    assert!(matches!(classify_body("<!DOCTYPE html>"), Err(Error::HtmlApiError(_))));
}
