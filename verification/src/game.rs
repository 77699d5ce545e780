//! Match endpoints: queue identifiers, match-id records, and the argument
//! checks of the match queries.

use vstd::prelude::*;

use crate::error::Error;
use crate::text::{
    all_digits, dec_digits, dec_int, dec_value, i64_to_string, numeral_digits, parse_usize,
    str_eq, u64_to_string, usize_to_string,
};

verus! {

/// A game mode the API indexes matches under.
pub enum Queue {
    Assault,
    Arena,
    Joust,
    Conquest,
    Motd,
    Other(u32),
}

/// The numeric id the API uses for a queue.
pub open spec fn spec_queue_id(q: Queue) -> u32 {
    match q {
        Queue::Assault => 445,
        Queue::Motd => 434,
        Queue::Arena => 435,
        Queue::Joust => 448,
        Queue::Conquest => 426,
        Queue::Other(id) => id,
    }
}

impl Queue {
    /// The numeric id the API uses for this queue.
    pub fn to_id(&self) -> (r: u32)
        ensures
            r == spec_queue_id(*self),
    {
        match self {
            Queue::Assault => 445,
            Queue::Motd => 434,
            Queue::Arena => 435,
            Queue::Joust => 448,
            Queue::Conquest => 426,
            Queue::Other(id) => *id,
        }
    }
}

/// One record of a match-ids response.
#[derive(Debug)]
pub struct MatchId {
    pub id: usize,
    pub ret_msg: Option<String>,
    pub active_flag: bool,
}

/// Why a match-id record was rejected.
#[derive(Debug)]
pub enum MatchFieldError {
    /// The record has no match field.
    MissingMatch,
    /// The record has no status field.
    MissingRetMsg,
    /// The record has no active flag, or it is not a string.
    MissingActiveFlag,
    /// The match field is not a digit string that fits a machine word.
    UnreadableId,
}

/// Whether a match field value is a readable id: a decimal numeral (an
/// optional plus sign, then at least one digit) whose value fits a machine
/// word.
pub open spec fn readable_match_id(s: Seq<char>) -> bool {
    numeral_digits(s).len() > 0 && all_digits(numeral_digits(s)) && dec_value(numeral_digits(s))
        <= usize::MAX
}

/// Builds a match-id record from its three raw fields, each given as the
/// JSON object offered it: absent, present but not a string, or a string.
/// The match field must be present and hold a readable id; the status field
/// must be present, a non-string one reading as no status; the active flag
/// must be a string, the record being active exactly on `y`. Fields are
/// checked in that order.
pub fn match_id_from_fields(
    match_field: Option<Option<&str>>,
    ret_msg: Option<Option<String>>,
    active_flag: Option<&str>,
) -> (r: Result<MatchId, MatchFieldError>)
    ensures
        match r {
            Ok(m) => {
                &&& match_field matches Some(Some(s)) && readable_match_id(s@) && m.id
                    == dec_value(numeral_digits(s@))
                &&& ret_msg matches Some(rm) && m.ret_msg == rm
                &&& active_flag matches Some(af) && m.active_flag == (af@ == "y"@)
            },
            Err(e) => match e {
                MatchFieldError::MissingMatch => match_field is None,
                MatchFieldError::MissingRetMsg => match_field is Some && ret_msg is None,
                MatchFieldError::MissingActiveFlag => match_field is Some && ret_msg is Some
                    && active_flag is None,
                MatchFieldError::UnreadableId => {
                    &&& match_field is Some
                    &&& ret_msg is Some
                    &&& active_flag is Some
                    &&& !(match_field matches Some(Some(s)) && readable_match_id(s@))
                },
            },
        },
{
    let id_field = match match_field {
        Some(f) => f,
        None => {
            return Err(MatchFieldError::MissingMatch);
        },
    };
    let ret_msg = match ret_msg {
        Some(rm) => rm,
        None => {
            return Err(MatchFieldError::MissingRetMsg);
        },
    };
    let active = match active_flag {
        Some(af) => af,
        None => {
            return Err(MatchFieldError::MissingActiveFlag);
        },
    };
    let id = match id_field {
        Some(s) => match parse_usize(s) {
            Some(id) => {
                proof {
                    crate::text::lemma_dec_value_nonneg(numeral_digits(s@));
                }
                id
            },
            None => {
                return Err(MatchFieldError::UnreadableId);
            },
        },
        None => {
            return Err(MatchFieldError::UnreadableId);
        },
    };
    let active_flag = str_eq(active, "y");
    Ok(MatchId { id, ret_msg, active_flag })
}

impl From<MatchId> for usize {
    /// A match-id record converts to its numeric id.
    fn from(value: MatchId) -> (r: usize) {
        value.id
    }
}

impl vstd::std_specs::convert::FromSpecImpl<MatchId> for usize {
    open spec fn obeys_from_spec() -> bool {
        true
    }

    open spec fn from_spec(v: MatchId) -> usize {
        v.id
    }
}

/// The positional arguments of a match-ids-by-queue call: the queue id, the
/// date, and the hour filter, where a missing hour stands for the whole day
/// and renders as `-1`. An hour outside -1 through 23 is rejected before
/// any network work is done.
pub fn match_ids_by_queue_args(queue: &Queue, date: &str, hour: Option<i8>) -> (r: Result<
    Vec<String>,
    Error,
>)
    ensures
        ({
            let h: int = match hour {
                Some(v) => v as int,
                None => -1,
            };
            match r {
                Ok(args) => -1 <= h <= 23 && args.deep_view() == seq![
                    dec_digits(spec_queue_id(*queue) as nat),
                    date@,
                    dec_int(h),
                ],
                Err(e) => {
                    &&& !(-1 <= h <= 23)
                    &&& e matches Error::InvalidArgument { given, expected } && given@ == dec_int(h)
                        && expected@ == "hour between -1 and 23"@
                },
            }
        }),
{
    let h: i8 = match hour {
        Some(v) => v,
        None => -1,
    };
    if h < -1 || h > 23 {
        return Err(Error::InvalidArgument {
            given: i64_to_string(h as i64),
            expected: String::from_str("hour between -1 and 23"),
        });
    }
    let mut args: Vec<String> = Vec::new();
    args.push(u64_to_string(queue.to_id() as u64));
    args.push(String::from_str(date));
    args.push(i64_to_string(h as i64));
    proof {
        assert(args.deep_view() =~= seq![
            dec_digits(spec_queue_id(*queue) as nat),
            date@,
            dec_int(h as int),
        ]);
    }
    Ok(args)
}

/// The single positional argument of a match-details call: the match id in
/// decimal.
pub fn match_details_args(match_id: usize) -> (r: Vec<String>)
    ensures
        r.deep_view() == seq![dec_digits(match_id as nat)],
{
    let mut args: Vec<String> = Vec::new();
    args.push(usize_to_string(match_id));
    proof {
        assert(args.deep_view() =~= seq![dec_digits(match_id as nat)]);
    }
    args
}

/// Match ids joined with commas, in order: the shape the batch endpoint
/// takes its one argument in.
pub open spec fn joined_ids(ids: Seq<usize>) -> Seq<char>
    decreases ids.len(),
{
    if ids.len() == 0 {
        Seq::empty()
    } else if ids.len() == 1 {
        dec_digits(ids[0] as nat)
    } else {
        joined_ids(ids.drop_last()) + seq![','] + dec_digits(ids.last() as nat)
    }
}

/// The single positional argument of a batch match-details call: every
/// requested id in decimal, comma-separated, in the caller's order.
pub fn match_details_batch_args(match_ids: &Vec<usize>) -> (r: Vec<String>)
    ensures
        r.deep_view() == seq![joined_ids(match_ids@)],
{
    let mut joined = String::new();
    let n = match_ids.len();
    let mut i: usize = 0;
    while i < n
        invariant
            n == match_ids.len(),
            0 <= i <= n,
            joined@ == joined_ids(match_ids@.take(i as int)),
        decreases n - i,
    {
        if i > 0 {
            joined.append(",");
            proof {
                reveal_strlit(",");
            }
        }
        let seg = usize_to_string(match_ids[i]);
        joined.append(seg.as_str());
        proof {
            let pre = match_ids@.take(i + 1);
            assert(pre.drop_last() =~= match_ids@.take(i as int));
            assert(pre.last() == match_ids@[i as int]);
            assert(joined@ =~= joined_ids(pre));
        }
        i = i + 1;
    }
    proof {
        assert(match_ids@.take(n as int) =~= match_ids@);
    }
    let mut args: Vec<String> = Vec::new();
    args.push(joined);
    proof {
        assert(args.deep_view() =~= seq![joined_ids(match_ids@)]);
    }
    args
}

} // verus!
