//! Usage counters that the API reports for the caller's credentials.

use vstd::prelude::*;

verus! {

/// The usage figures of the `getdataused` endpoint: how many sessions and
/// requests the credentials have spent today, against their caps.
pub struct SessionInfo {
    pub active_sessions: i64,
    pub concurrent_sessions: i64,
    pub request_limit_daily: i64,
    pub session_cap: i64,
    pub session_time_limit: i64,
    pub total_requests_today: i64,
    pub total_sessions_today: i64,
    pub ret_msg: Option<String>,
}

impl SessionInfo {
    /// Whether the credentials already hold as many active sessions as the
    /// API allows them.
    pub fn reached_session_limit(&self) -> (r: bool)
        ensures
            r == (self.active_sessions >= self.session_cap),
    {
        self.active_sessions >= self.session_cap
    }

    /// Whether the credentials already spent today's request allowance.
    pub fn reached_request_limit(&self) -> (r: bool)
        ensures
            r == (self.total_requests_today >= self.request_limit_daily),
    {
        self.total_requests_today >= self.request_limit_daily
    }
}

} // verus!
