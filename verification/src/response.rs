//! Response-shape disambiguation: the API answers either with JSON, or with
//! an HTML error page whose first paragraph carries the message.

use vstd::prelude::*;

use crate::error::Error;

verus! {

/// Whether a response body is an HTML error page rather than JSON: it
/// begins with `<`.
pub open spec fn is_html_body(s: Seq<char>) -> bool {
    s.len() > 0 && s[0] == '<'
}

/// The first paragraph capture of an HTML body, or nothing when the body
/// has no paragraph tag. Named here, computed by the regex crate: the
/// result depends on the characters alone.
pub uninterp spec fn first_paragraph_of(s: Seq<char>) -> Option<Seq<char>>;

/// Relies on regex::Regex::captures with the pattern `<p>(.*)</p>`: the
/// text the paragraph capture group matched, if any. The pattern is fixed
/// and valid, so compiling it cannot fail.
#[verifier::external_body]
fn extract_first_paragraph(body: &str) -> (r: Option<String>)
    ensures
        match r {
            Some(m) => first_paragraph_of(body@) == Some(m@),
            None => first_paragraph_of(body@) is None,
        },
{
    let re = regex::Regex::new(r"<p>(.*)</p>").unwrap();
    match re.captures(body).and_then(|caps| caps.get(1)) {
        Some(m) => Some(m.as_str().to_string()),
        None => None,
    }
}

/// The message an HTML error page classifies to: its first paragraph, or
/// the empty string when it has none.
pub open spec fn html_error_message(s: Seq<char>) -> Seq<char> {
    match first_paragraph_of(s) {
        Some(m) => m,
        None => Seq::empty(),
    }
}

/// Splits HTML from JSON. A body that begins with `<` is an HTML error
/// page and classifies to an error carrying its first paragraph; any other
/// body is left for the JSON decoder.
pub fn classify_body(body: &str) -> (r: Result<(), Error>)
    ensures
        match r {
            Ok(()) => !is_html_body(body@),
            Err(e) => {
                &&& is_html_body(body@)
                &&& e matches Error::HtmlApiError(m) && m@ == html_error_message(body@)
            },
        },
{
    let n = body.unicode_len();
    if n == 0 {
        return Ok(());
    }
    if body.get_char(0) != '<' {
        return Ok(());
    }
    let message = match extract_first_paragraph(body) {
        Some(m) => m,
        None => String::new(),
    };
    Err(Error::HtmlApiError(message))
}

/// The status, session id, and timestamp fields a `createsession` response
/// body carries, or nothing when the body is not valid JSON. A missing or
/// non-string status field reads as the empty string; the other two fields
/// are present exactly when they are strings. Named here, computed by
/// serde_json: the result depends on the characters alone.
pub uninterp spec fn session_fields_of(s: Seq<char>) -> Option<
    (Seq<char>, Option<Seq<char>>, Option<Seq<char>>),
>;

/// Relies on serde_json::from_str and the Value accessors get and as_str:
/// reads the three session fields of a `createsession` response. The error
/// case, exactly when the body is not valid JSON, carries the parser's
/// diagnostic.
#[verifier::external_body]
pub(crate) fn session_response_fields(body: &str) -> (r: Result<
    (String, Option<String>, Option<String>),
    String,
>)
    ensures
        match r {
            Ok(f) => session_fields_of(body@) == Some((f.0@, f.1.deep_view(), f.2.deep_view())),
            Err(_) => session_fields_of(body@) is None,
        },
{
    let val: serde_json::Value = match serde_json::from_str(body) {
        Ok(v) => v,
        Err(e) => return Err(e.to_string()),
    };
    let ret_msg =
        val.get("ret_msg").and_then(serde_json::Value::as_str).unwrap_or_default().to_string();
    let session_id = val.get("session_id").and_then(serde_json::Value::as_str).map(str::to_string);
    let timestamp = val.get("timestamp").and_then(serde_json::Value::as_str).map(str::to_string);
    Ok((ret_msg, session_id, timestamp))
}

} // verus!
