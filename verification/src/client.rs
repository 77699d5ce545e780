//! The client core: credentials, the single session slot, signing, URL
//! assembly, and acceptance of `createsession` responses.
//!
//! The core is sequential. A caller that shares it across tasks must hold
//! exclusive access to it for the whole check-then-possibly-create sequence,
//! so that one expiry window sees one `createsession` call; the decision
//! logic here makes that sequence a pair of state transitions with exact
//! contracts.

use vstd::prelude::*;

use crate::error::Error;
use crate::response::{
    classify_body, html_error_message, is_html_body, session_fields_of, session_response_fields,
};
use crate::session::{live_at, session_from_parts, Session};
use crate::sign::{sign, spec_signature};
use crate::time::{api_timestamp_of, current_timestamp};
use crate::url::{build_url, url_of};

verus! {

/// Credentials and the at-most-one live session they have bought.
pub struct Client {
    pub dev_id: String,
    pub auth_key: String,
    pub session: Option<Session>,
}

/// The id a caller is handed without any network call: the stored session's
/// id when one is stored and still live at `now`, nothing otherwise.
pub open spec fn spec_live_session_id(c: Client, now: int) -> Option<String> {
    match c.session {
        Some(s) => if live_at(s.created_at as int, now) {
            Some(s.id)
        } else {
            None
        },
        None => None,
    }
}

impl Client {
    /// A fresh client: the given credentials, no session yet.
    pub fn new(dev_id: String, auth_key: String) -> (c: Client)
        ensures
            c.dev_id == dev_id,
            c.auth_key == auth_key,
            c.session is None,
    {
        Client { dev_id, auth_key, session: None }
    }

    /// The signature for calling `method` at `timestamp`, under this
    /// client's credentials.
    pub fn signature(&self, method: &str, timestamp: &str) -> (r: String)
        ensures
            r@ == spec_signature(self.dev_id@, method@, self.auth_key@, timestamp@),
    {
        sign(self.dev_id.as_str(), self.auth_key.as_str(), method, timestamp)
    }

    /// The full request URL for one call signed at `timestamp`: the same
    /// timestamp goes into the digest and into the path.
    pub fn request_url(
        &self,
        method: &str,
        session_id: Option<&str>,
        timestamp: &str,
        extra_args: &Vec<String>,
    ) -> (r: String)
        ensures
            r@ == url_of(
                method@,
                self.dev_id@,
                spec_signature(self.dev_id@, method@, self.auth_key@, timestamp@),
                match session_id {
                    Some(id) => Some(id@),
                    None => None,
                },
                timestamp@,
                extra_args.deep_view(),
            ),
    {
        let signature = self.signature(method, timestamp);
        build_url(
            method,
            self.dev_id.as_str(),
            signature.as_str(),
            session_id,
            timestamp,
            extra_args,
        )
    }

    /// Reads the clock once and signs `method` at that moment: the
    /// signature together with the very timestamp it was computed over.
    /// Whoever embeds the timestamp in a request must embed this one;
    /// reading the clock again could roll over a second and invalidate
    /// the signature.
    pub fn sign_now(&self, method: &str) -> (r: (String, String))
        ensures
            r.0@ == spec_signature(self.dev_id@, method@, self.auth_key@, r.1@),
            r.1@.len() == 14,
            crate::text::all_digits(r.1@),
    {
        let timestamp = current_timestamp();
        let signature = self.signature(method, timestamp.as_str());
        (signature, timestamp)
    }

    /// Reads the clock once and builds the request URL: there is a single
    /// timestamp, both signed over and embedded as a path segment.
    pub fn signed_request_url(
        &self,
        method: &str,
        session_id: Option<&str>,
        extra_args: &Vec<String>,
    ) -> (r: String)
        ensures
            exists|t: Seq<char>|
                #![trigger spec_signature(self.dev_id@, method@, self.auth_key@, t)]
                t.len() == 14 && crate::text::all_digits(t) && r@ == url_of(
                    method@,
                    self.dev_id@,
                    spec_signature(self.dev_id@, method@, self.auth_key@, t),
                    match session_id {
                        Some(id) => Some(id@),
                        None => None,
                    },
                    t,
                    extra_args.deep_view(),
                ),
    {
        let (signature, timestamp) = self.sign_now(method);
        let r = build_url(
            method,
            self.dev_id.as_str(),
            signature.as_str(),
            session_id,
            timestamp.as_str(),
            extra_args,
        );
        proof {
            assert(r@ == url_of(
                method@,
                self.dev_id@,
                spec_signature(self.dev_id@, method@, self.auth_key@, timestamp@),
                match session_id {
                    Some(id) => Some(id@),
                    None => None,
                },
                timestamp@,
                extra_args.deep_view(),
            ));
        }
        r
    }

    /// The session id to reuse at `now`, if the stored session is live.
    /// Liveness is re-checked here, never cached: a session id is handed
    /// out only at a moment it is live.
    pub fn live_session_id(&self, now: i64) -> (r: Option<String>)
        ensures
            r == spec_live_session_id(*self, now as int),
    {
        match &self.session {
            Some(s) => {
                if s.is_alive(now) {
                    Some(s.id.clone())
                } else {
                    None
                }
            },
            None => None,
        }
    }

    /// Replaces the session slot with a freshly created session and hands
    /// back its id. Credentials are untouched.
    pub fn store_session(&mut self, s: Session) -> (id: String)
        ensures
            final(self).dev_id == old(self).dev_id,
            final(self).auth_key == old(self).auth_key,
            final(self).session == Some(s),
            id == s.id,
    {
        let id = s.id.clone();
        self.session = Some(s);
        id
    }

    /// Applies a `createsession` response body to the session slot. Success
    /// is owed exactly when the body is JSON whose status field is
    /// `Approved`, with a session id and a readable timestamp: then that
    /// session is stored and its id returned. On any failure the slot and
    /// credentials are exactly as they were, and the error classifies the
    /// body: an HTML page carries its first paragraph, a non-JSON body is a
    /// parse failure, a status other than `Approved` is a rejection carrying
    /// that status verbatim, an approved response without an id is an
    /// internal-consistency failure, and one without a readable timestamp is
    /// a parse failure.
    pub fn apply_session_body(&mut self, body: &str) -> (r: Result<String, Error>)
        ensures
            final(self).dev_id == old(self).dev_id,
            final(self).auth_key == old(self).auth_key,
            r is Err ==> *final(self) == *old(self),
            is_html_body(body@) ==> (r matches Err(Error::HtmlApiError(m)) && m@
                == html_error_message(body@)),
            !is_html_body(body@) ==> match session_fields_of(body@) {
                None => r matches Err(Error::ParseError(_)),
                Some(fields) => if fields.0 != "Approved"@ {
                    r matches Err(Error::ApiRejection(m)) && m@ == fields.0
                } else {
                    match fields.1 {
                        None => r matches Err(Error::SessionUnavailable),
                        Some(sid) => match fields.2 {
                            None => r matches Err(Error::ParseError(_)),
                            Some(ts) => match api_timestamp_of(ts) {
                                None => r matches Err(Error::ParseError(_)),
                                Some(created_at) => {
                                    &&& r matches Ok(id) && id@ == sid
                                    &&& final(self).session matches Some(s) && s.id@ == sid
                                        && s.created_at == created_at
                                },
                            },
                        },
                    }
                },
            },
    {
        if let Err(e) = classify_body(body) {
            return Err(e);
        }
        let (ret_msg, session_id, timestamp) = match session_response_fields(body) {
            Ok(fields) => fields,
            Err(diagnostic) => {
                return Err(Error::ParseError(diagnostic));
            },
        };
        let timestamp_ref = match &timestamp {
            Some(t) => Some(t.as_str()),
            None => None,
        };
        match session_from_parts(ret_msg, session_id, timestamp_ref) {
            Ok(s) => Ok(self.store_session(s)),
            Err(e) => Err(e),
        }
    }
}

/// Within one liveness window every caller is handed the same stored
/// session's id: once a session is stored, checks at any two moments less
/// than the TTL after its creation both reuse it, so no second creation is
/// asked for in that window. Exclusive access across the check-then-create
/// sequence is the caller's duty; this says the decision logic never asks
/// for a second creation while the stored session lives.
pub proof fn lemma_single_creation_per_window(c: Client, s: Session, d1: int, d2: int)
    requires
        c.session == Some(s),
        0 <= d1 < crate::session::SESSION_TTL_SECONDS as int,
        0 <= d2 < crate::session::SESSION_TTL_SECONDS as int,
    ensures
        spec_live_session_id(c, s.created_at + d1) == Some(s.id),
        spec_live_session_id(c, s.created_at + d1) == spec_live_session_id(
            c,
            s.created_at + d2,
        ),
{
}

} // verus!
