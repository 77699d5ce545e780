use smite::client::Client;
use smite::sign::sign;

#[test]
fn sign_is_deterministic() {
    let a = sign("1004", "secret", "createsession", "20240101000000");
    let b = sign("1004", "secret", "createsession", "20240101000000");
    assert_eq!(a, b);
}

#[test]
fn sign_differs_across_timestamps() {
    let a = sign("1004", "secret", "getmotd", "20240101000000");
    let b = sign("1004", "secret", "getmotd", "20240101000001");
    assert_ne!(a, b);
}

#[test]
fn signature_is_lowercase_hex_of_fixed_width() {
    let sig = sign("1004", "secret", "getgods", "20240101000000");
    assert_eq!(sig.len(), 32);
    assert!(sig.chars().all(|c| c.is_ascii_hexdigit() && !c.is_ascii_uppercase()));
}

#[test]
fn client_signature_matches_free_function() {
    let client = Client::new("1004".to_string(), "secret".to_string());
    let a = client.signature("getplayer", "20240101000000");
    let b = sign("1004", "secret", "getplayer", "20240101000000");
    assert_eq!(a, b);
}

#[test]
fn sign_now_pairs_signature_with_its_timestamp() {
    let client = Client::new("1004".to_string(), "secret".to_string());
    let (sig, ts) = client.sign_now("getgods");
    assert_eq!(ts.len(), 14);
    assert!(ts.chars().all(|c| c.is_ascii_digit()));
    assert_eq!(sig, sign("1004", "secret", "getgods", &ts));
}

#[test]
fn signed_request_url_embeds_one_timestamp() {
    let client = Client::new("1004".to_string(), "secret".to_string());
    let url = client.signed_request_url("getmotd", Some("sess"), &Vec::new());
    let prefix = "https://api.smitegame.com/smiteapi.svc/getmotdJson/1004/";
    assert!(url.starts_with(prefix));
    let rest: Vec<&str> = url[prefix.len()..].split('/').collect();
    // signature, session id, timestamp
    assert_eq!(rest.len(), 3);
    let (sig, sess, ts) = (rest[0], rest[1], rest[2]);
    assert_eq!(sess, "sess");
    assert_eq!(ts.len(), 14);
    assert!(ts.chars().all(|c| c.is_ascii_digit()));
    // the signature is over that same embedded timestamp
    assert_eq!(sig, sign("1004", "secret", "getmotd", ts));
}
