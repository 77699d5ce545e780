//! Match-of-the-day records: building one from its raw response fields, and
//! splitting its description markup into heading and properties.

use vstd::prelude::*;

use crate::fields::{is_absent_marker, optional_string_field, optional_u32_field, spec_optional_u32};
use crate::time::{api_timestamp_of, parse_api_timestamp};

verus! {

/// One match-of-the-day: its announcement text, player cap, the two teams'
/// god rosters, and when it starts (seconds since the Unix epoch).
#[derive(Debug)]
pub struct MatchOfTheDay {
    pub description: String,
    pub max_players: Option<u32>,
    pub name: String,
    pub ret_msg: Option<String>,
    pub start_date_time: i64,
    pub team1_gods_csv: Option<String>,
    pub team2_gods_csv: Option<String>,
    pub title: String,
}

/// Why a match-of-the-day record was rejected.
#[derive(Debug)]
pub enum MotdFieldError {
    /// The player cap is present but not a readable number.
    BadMaxPlayers,
    /// The start date-time does not parse.
    BadStartDateTime,
}

/// The text the list-item captures of a description markup matched, in
/// order. Named here, computed by the regex crate with the non-greedy
/// pattern `<li>(.*?)</li>`: the result depends on the characters alone.
pub uninterp spec fn list_items_of(s: Seq<char>) -> Seq<Seq<char>>;

/// The text before the first list-item tag of a description markup, or
/// nothing when the markup has no such tag. Named here, computed by the
/// regex crate with the pattern `^(.*?)<li>`: the result depends on the
/// characters alone.
pub uninterp spec fn heading_of(s: Seq<char>) -> Option<Seq<char>>;

/// Relies on regex::Regex::captures_iter with the non-greedy list-item
/// pattern `<li>(.*?)</li>`: the text of each capture, in match order. The
/// pattern is fixed and valid, so compiling it cannot fail.
#[verifier::external_body]
fn extract_list_items(s: &str) -> (r: Vec<String>)
    ensures
        r.deep_view() == list_items_of(s@),
{
    let re = regex::Regex::new(r"<li>(.*?)</li>").unwrap();
    let mut out = Vec::new();
    for caps in re.captures_iter(s) {
        if let Some(m) = caps.get(1) {
            out.push(m.as_str().to_string());
        }
    }
    out
}

/// Relies on regex::Regex::captures with the anchored non-greedy pattern
/// `^(.*?)<li>`: the text before the first list-item tag, if any. The
/// pattern is fixed and valid, so compiling it cannot fail.
#[verifier::external_body]
fn extract_heading(s: &str) -> (r: Option<String>)
    ensures
        match r {
            Some(h) => heading_of(s@) == Some(h@),
            None => heading_of(s@) is None,
        },
{
    let re = regex::Regex::new(r"^(.*?)<li>").unwrap();
    match re.captures(s).and_then(|caps| caps.get(1)) {
        Some(m) => Some(m.as_str().to_string()),
        None => None,
    }
}

impl MatchOfTheDay {
    /// Splits the description markup into the free text before the first
    /// list item and the list items themselves (cooldown, map, starting
    /// god, and so on), in order.
    pub fn separate_description(&self) -> (r: (Option<String>, Vec<String>))
        ensures
            match r.0 {
                Some(h) => heading_of(self.description@) == Some(h@),
                None => heading_of(self.description@) is None,
            },
            r.1.deep_view() == list_items_of(self.description@),
    {
        let heading = extract_heading(self.description.as_str());
        let props = extract_list_items(self.description.as_str());
        (heading, props)
    }

    /// Builds a record from its raw response fields. The player cap and the
    /// two god rosters follow the absent-field convention; the start
    /// date-time must parse. The player cap is checked before the start
    /// date-time.
    pub fn from_raw(
        description: String,
        max_players: Option<String>,
        name: String,
        ret_msg: Option<String>,
        start_date_time: &str,
        team1_gods_csv: Option<String>,
        team2_gods_csv: Option<String>,
        title: String,
    ) -> (r: Result<MatchOfTheDay, MotdFieldError>)
        ensures
            ({
                let raw_cap = match max_players {
                    Some(s) => Some(s@),
                    None => None,
                };
                match r {
                    Ok(m) => {
                        &&& m.description == description
                        &&& spec_optional_u32(raw_cap) == Ok::<Option<u32>, ()>(m.max_players)
                        &&& m.name == name
                        &&& m.ret_msg == ret_msg
                        &&& api_timestamp_of(start_date_time@) == Some(m.start_date_time)
                        &&& match team1_gods_csv {
                            None => m.team1_gods_csv is None,
                            Some(s) => if is_absent_marker(s@) {
                                m.team1_gods_csv is None
                            } else {
                                m.team1_gods_csv == Some(s)
                            },
                        }
                        &&& match team2_gods_csv {
                            None => m.team2_gods_csv is None,
                            Some(s) => if is_absent_marker(s@) {
                                m.team2_gods_csv is None
                            } else {
                                m.team2_gods_csv == Some(s)
                            },
                        }
                        &&& m.title == title
                    },
                    Err(e) => match e {
                        MotdFieldError::BadMaxPlayers => spec_optional_u32(raw_cap) is Err,
                        MotdFieldError::BadStartDateTime => spec_optional_u32(raw_cap) is Ok
                            && api_timestamp_of(start_date_time@) is None,
                    },
                }
            }),
    {
        let cap = match max_players {
            Some(s) => optional_u32_field(Some(s.as_str())),
            None => optional_u32_field(None),
        };
        let max_players = match cap {
            Ok(v) => v,
            Err(()) => {
                return Err(MotdFieldError::BadMaxPlayers);
            },
        };
        let start = match parse_api_timestamp(start_date_time) {
            Some(t) => t,
            None => {
                return Err(MotdFieldError::BadStartDateTime);
            },
        };
        Ok(
            MatchOfTheDay {
                description,
                max_players,
                name,
                ret_msg,
                start_date_time: start,
                team1_gods_csv: optional_string_field(team1_gods_csv),
                team2_gods_csv: optional_string_field(team2_gods_csv),
                title,
            },
        )
    }
}

} // verus!
