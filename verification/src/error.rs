//! The error type shared by every fallible operation of the library.

use vstd::prelude::*;

verus! {

/// What can go wrong between asking for an API method and getting a decoded
/// value back.
#[derive(Debug)]
pub enum Error {
    /// The network call itself failed; carries the transport's diagnostic.
    Transport(String),
    /// The response body was not valid JSON, or did not match the requested
    /// shape; carries the parser's diagnostic.
    ParseError(String),
    /// The API answered with an HTML error page instead of JSON; carries the
    /// page's first paragraph, possibly empty.
    HtmlApiError(String),
    /// A structured response reported a non-success status; carries that
    /// status string verbatim.
    ApiRejection(String),
    /// A session was believed created but no id could be obtained afterward:
    /// the session store reached an inconsistent state.
    SessionUnavailable,
    /// A caller-supplied parameter failed a precondition; no network call
    /// was made.
    InvalidArgument { given: String, expected: String },
}

pub type Result<T> = core::result::Result<T, Error>;

impl Error {
    /// A short human-readable account of the error.
    pub fn describe(&self) -> (r: String)
        ensures
            r@.len() > 0,
    {
        let r = match self {
            Error::Transport(msg) => {
                let mut s = String::from_str("transport failure: ");
                s.append(msg.as_str());
                s
            },
            Error::ParseError(msg) => {
                let mut s = String::from_str("response could not be parsed: ");
                s.append(msg.as_str());
                s
            },
            Error::HtmlApiError(msg) => {
                let mut s = String::from_str("API returned an HTML error page: ");
                s.append(msg.as_str());
                s
            },
            Error::ApiRejection(status) => {
                let mut s = String::from_str("API rejected the call with status: ");
                s.append(status.as_str());
                s
            },
            Error::SessionUnavailable => String::from_str("session store is inconsistent"),
            Error::InvalidArgument { given, expected } => {
                let mut s = String::from_str("invalid argument: got ");
                s.append(given.as_str());
                s.append(", expected ");
                s.append(expected.as_str());
                s
            },
        };
        proof {
            reveal_strlit("transport failure: ");
            reveal_strlit("response could not be parsed: ");
            reveal_strlit("API returned an HTML error page: ");
            reveal_strlit("API rejected the call with status: ");
            reveal_strlit("session store is inconsistent");
            reveal_strlit("invalid argument: got ");
        }
        r
    }
}

} // verus!
