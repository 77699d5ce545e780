use smite::error::Error;
use smite::session_info::SessionInfo;

fn info(active: i64, cap: i64, today: i64, daily: i64) -> SessionInfo {
    SessionInfo {
        active_sessions: active,
        concurrent_sessions: 50,
        request_limit_daily: daily,
        session_cap: cap,
        session_time_limit: 15,
        total_requests_today: today,
        total_sessions_today: 0,
        ret_msg: None,
    }
}

#[test]
fn session_limit_is_reached_at_the_cap() {
    assert!(!info(499, 500, 0, 7500).reached_session_limit());
    assert!(info(500, 500, 0, 7500).reached_session_limit());
    assert!(info(501, 500, 0, 7500).reached_session_limit());
}

#[test]
fn request_limit_is_reached_at_the_cap() {
    assert!(!info(0, 500, 7499, 7500).reached_request_limit());
    assert!(info(0, 500, 7500, 7500).reached_request_limit());
}

#[test]
fn errors_describe_themselves() {
    let described = Error::InvalidArgument {
        given: "24".to_string(),
        expected: "hour between -1 and 23".to_string(),
    }
    .describe();
    assert!(described.contains("24"));
    assert!(described.contains("hour between -1 and 23"));
    assert!(!Error::SessionUnavailable.describe().is_empty());
    assert!(!Error::Transport("socket closed".to_string()).describe().is_empty());
}
