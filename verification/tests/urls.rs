use smite::client::Client;
use smite::sign::sign;
use smite::url::build_url;

#[test]
fn url_with_session_and_args_is_exact() {
    let args = vec!["426".to_string(), "01-01-2024".to_string(), "5".to_string()];
    let url = build_url(
        "getmatchidsbyqueue",
        "1004",
        "deadbeef",
        Some("abc"),
        "20240101010101",
        &args,
    );
    assert_eq!(
        url,
        "https://api.smitegame.com/smiteapi.svc/getmatchidsbyqueueJson/1004/deadbeef/abc/20240101010101/426/01-01-2024/5"
    );
}

#[test]
fn url_without_session_omits_the_segment() {
    let url = build_url(
        "createsession",
        "1004",
        "deadbeef",
        None,
        "20240101010101",
        &Vec::new(),
    );
    assert_eq!(
        url,
        "https://api.smitegame.com/smiteapi.svc/createsessionJson/1004/deadbeef/20240101010101"
    );
}

#[test]
fn request_url_signs_at_the_given_timestamp() {
    let client = Client::new("1004".to_string(), "secret".to_string());
    let args = vec!["426".to_string()];
    let url = client.request_url("getmatchdetails", Some("abc"), "20240101010101", &args);
    let sig = sign("1004", "secret", "getmatchdetails", "20240101010101");
    let expected = format!(
        "https://api.smitegame.com/smiteapi.svc/getmatchdetailsJson/1004/{sig}/abc/20240101010101/426"
    );
    assert_eq!(url, expected);
}

#[test]
fn url_args_keep_caller_order() {
    let args = vec!["b".to_string(), "a".to_string()];
    let url = build_url("getplayer", "d", "s", Some("i"), "t", &args);
    assert_eq!(url, "https://api.smitegame.com/smiteapi.svc/getplayerJson/d/s/i/t/b/a");
}
