//! The session token and its lifecycle: liveness against a fixed TTL, and
//! acceptance of a `createsession` response.

use vstd::prelude::*;

use crate::error::Error;
use crate::time::{api_timestamp_of, parse_api_timestamp};

verus! {

/// Seconds a session is trusted after its creation; deliberately shorter
/// than the server's own cap, to avoid racing expiry.
pub const SESSION_TTL_SECONDS: i64 = 900;

/// Whether a session created at `created_at` is still live at `now`
/// (both in seconds since the Unix epoch).
pub open spec fn live_at(created_at: int, now: int) -> bool {
    now - created_at < SESSION_TTL_SECONDS as int
}

/// A session token the API issued, with the moment it was created.
#[derive(Debug)]
pub struct Session {
    pub id: String,
    pub created_at: i64,
}

impl Session {
    /// Whether the session is still live at `now`: less than the TTL has
    /// passed since its creation. A check before the creation moment also
    /// reports live, as no time has passed.
    pub fn is_alive(&self, now: i64) -> (r: bool)
        ensures
            r == live_at(self.created_at as int, now as int),
    {
        match now.checked_sub(self.created_at) {
            Some(age) => age < SESSION_TTL_SECONDS,
            None => now < self.created_at,
        }
    }
}

/// A session created at `created_at` is live exactly for checks less than
/// the TTL after that moment: live at `created_at + delta` if and only if
/// `delta` is under 900 seconds.
pub proof fn lemma_session_liveness_window(created_at: int, delta: int)
    ensures
        live_at(created_at, created_at + delta) <==> delta < SESSION_TTL_SECONDS as int,
{
}

/// Builds the session a `createsession` response describes, or the exact
/// error the response deserves, checked in this order:
/// a status other than `Approved` is an API rejection carrying that status
/// verbatim; an approved response without a session id is an
/// internal-consistency failure; an approved response whose timestamp is
/// missing or does not parse is a parse failure. The session's creation
/// moment is what the response's timestamp field denotes.
pub fn session_from_parts(ret_msg: String, session_id: Option<String>, timestamp: Option<&str>)
    -> (r: Result<Session, Error>)
    ensures
        match r {
            Ok(s) => {
                &&& ret_msg@ == "Approved"@
                &&& session_id matches Some(id) && s.id == id
                &&& timestamp matches Some(t) && api_timestamp_of(t@) == Some(s.created_at)
            },
            Err(e) => match e {
                Error::ApiRejection(m) => ret_msg@ != "Approved"@ && m == ret_msg,
                Error::SessionUnavailable => ret_msg@ == "Approved"@ && session_id is None,
                Error::ParseError(_) => {
                    &&& ret_msg@ == "Approved"@
                    &&& session_id is Some
                    &&& match timestamp {
                        Some(t) => api_timestamp_of(t@) is None,
                        None => true,
                    }
                },
                _ => false,
            },
        },
{
    let approved = crate::text::str_eq(ret_msg.as_str(), "Approved");
    if !approved {
        return Err(Error::ApiRejection(ret_msg));
    }
    let id = match session_id {
        Some(id) => id,
        None => {
            return Err(Error::SessionUnavailable);
        },
    };
    let timestamp = match timestamp {
        Some(t) => t,
        None => {
            return Err(Error::ParseError(String::from_str(
                "createsession response lacked a timestamp",
            )));
        },
    };
    match parse_api_timestamp(timestamp) {
        Some(created_at) => Ok(Session { id, created_at }),
        None => Err(Error::ParseError(String::from_str(
            "createsession response carried an unreadable timestamp",
        ))),
    }
}

} // verus!
