//! The API's absent-field convention: a string field may arrive missing,
//! blank, or as a quoted empty string, and all three mean "no value". This
//! module decides that uniformly and parses the remaining values.

use vstd::prelude::*;

use crate::text::{all_digits, dec_value, numeral_digits, parse_u32};

verus! {

/// The characters this library trims: the Unicode White_Space set, as
/// `char::is_whitespace` defines it — the ASCII controls tab through
/// carriage return, the space, next line, no-break space, ogham space mark,
/// the en-quad through hair-space run, line and paragraph separators, and
/// the narrow no-break, medium mathematical, and ideographic spaces.
pub open spec fn is_space(c: char) -> bool {
    ('\u{09}' <= c && c <= '\u{0d}') || c == ' ' || c == '\u{85}' || c == '\u{a0}' || c
        == '\u{1680}' || ('\u{2000}' <= c && c <= '\u{200a}') || c == '\u{2028}' || c == '\u{2029}'
        || c == '\u{202f}' || c == '\u{205f}' || c == '\u{3000}'
}

/// Whether `c` is in the library's whitespace set.
fn is_space_char(c: char) -> (r: bool)
    ensures
        r == is_space(c),
{
    let v = c as u32;
    (0x09 <= v && v <= 0x0d) || v == 0x20 || v == 0x85 || v == 0xa0 || v == 0x1680 || (0x2000 <= v
        && v <= 0x200a) || v == 0x2028 || v == 0x2029 || v == 0x202f || v == 0x205f || v == 0x3000
}

/// Whether `s` consists of whitespace alone.
pub open spec fn blank(s: Seq<char>) -> bool {
    forall|i: int| 0 <= i < s.len() ==> is_space(#[trigger] s[i])
}

/// `s` without its leading whitespace.
pub open spec fn trim_front(s: Seq<char>) -> Seq<char>
    decreases s.len(),
{
    if s.len() > 0 && is_space(s.first()) {
        trim_front(s.drop_first())
    } else {
        s
    }
}

/// `s` without its trailing whitespace.
pub open spec fn trim_back(s: Seq<char>) -> Seq<char>
    decreases s.len(),
{
    if s.len() > 0 && is_space(s.last()) {
        trim_back(s.drop_last())
    } else {
        s
    }
}

/// `s` without leading and trailing whitespace.
pub open spec fn trimmed(s: Seq<char>) -> Seq<char> {
    trim_back(trim_front(s))
}

/// Whether the field value `s` stands for an absent value: blank entirely,
/// or a pair of double-quote characters once trimmed.
pub open spec fn is_absent_marker(s: Seq<char>) -> bool {
    blank(s) || trimmed(s) == seq!['"', '"']
}

/// Dropping leading whitespace is the same as skipping past the first
/// non-whitespace position.
proof fn lemma_trim_front_skip(s: Seq<char>, a: int)
    requires
        0 <= a <= s.len(),
        forall|i: int| 0 <= i < a ==> is_space(#[trigger] s[i]),
        a < s.len() ==> !is_space(s[a]),
    ensures
        trim_front(s) =~= s.skip(a),
    decreases a,
{
    if a == 0 {
        if s.len() > 0 && is_space(s.first()) {
            assert(false);
        }
        assert(s.skip(0) =~= s);
    } else {
        let t = s.drop_first();
        assert(forall|i: int| 0 <= i < a - 1 ==> is_space(#[trigger] t[i]));
        lemma_trim_front_skip(t, a - 1);
        assert(t.skip(a - 1) =~= s.skip(a));
    }
}

/// Dropping trailing whitespace is the same as keeping everything up to the
/// last non-whitespace position.
proof fn lemma_trim_back_take(s: Seq<char>, e: int)
    requires
        0 <= e <= s.len(),
        forall|i: int| e <= i < s.len() ==> is_space(#[trigger] s[i]),
        e > 0 ==> !is_space(s[e - 1]),
    ensures
        trim_back(s) =~= s.take(e),
    decreases s.len() - e,
{
    if e == s.len() {
        if s.len() > 0 && is_space(s.last()) {
            assert(false);
        }
        assert(s.take(e) =~= s);
    } else {
        let t = s.drop_last();
        assert(forall|i: int| e <= i < t.len() ==> is_space(#[trigger] t[i]));
        lemma_trim_back_take(t, e);
        assert(t.take(e) =~= s.take(e));
    }
}

/// The position of the first non-whitespace character of `s`, or its length
/// when the whole string is whitespace.
fn first_non_space(s: &str) -> (r: usize)
    ensures
        r <= s@.len(),
        forall|i: int| 0 <= i < r ==> is_space(#[trigger] s@[i]),
        r < s@.len() ==> !is_space(s@[r as int]),
{
    let n = s.unicode_len();
    let mut a: usize = 0;
    while a < n
        invariant
            n == s@.len(),
            0 <= a <= n,
            forall|i: int| 0 <= i < a ==> is_space(#[trigger] s@[i]),
        decreases n - a,
    {
        let c = s.get_char(a);
        if !is_space_char(c) {
            return a;
        }
        a = a + 1;
    }
    a
}

/// One past the position of the last non-whitespace character of `s`, or
/// zero when the whole string is whitespace.
fn end_of_non_space(s: &str) -> (r: usize)
    ensures
        r <= s@.len(),
        forall|i: int| r <= i < s@.len() ==> is_space(#[trigger] s@[i]),
        r > 0 ==> !is_space(s@[r - 1]),
{
    let n = s.unicode_len();
    let mut e: usize = n;
    while e > 0
        invariant
            n == s@.len(),
            0 <= e <= n,
            forall|i: int| e <= i < n ==> is_space(#[trigger] s@[i]),
        decreases e,
    {
        let c = s.get_char(e - 1);
        if !is_space_char(c) {
            return e;
        }
        e = e - 1;
    }
    e
}

/// Whether the field value stands for an absent value under the API's
/// empty-string convention.
pub fn is_effectively_empty(s: &str) -> (r: bool)
    ensures
        r == is_absent_marker(s@),
{
    let n = s.unicode_len();
    let a = first_non_space(s);
    if a == n {
        proof {
            assert(blank(s@));
        }
        return true;
    }
    let e = end_of_non_space(s);
    proof {
        assert(!is_space(s@[a as int]));
        assert(!blank(s@));
        lemma_trim_front_skip(s@, a as int);
        assert(a < e) by {
            if e <= a {
                assert(is_space(s@[a as int]));
            }
        }
        let t = s@.skip(a as int);
        assert(forall|i: int|
            e - a <= i < t.len() ==> is_space(#[trigger] t[i]) && t[i] == s@[i + a]);
        assert(!is_space(t[e - a - 1]));
        lemma_trim_back_take(t, e - a);
        assert(trimmed(s@) =~= s@.subrange(a as int, e as int));
    }
    if e - a == 2 {
        let c0 = s.get_char(a);
        let c1 = s.get_char(a + 1);
        let quoted = c0 == '"' && c1 == '"';
        proof {
            if quoted {
                assert(trimmed(s@) =~= seq!['"', '"']);
            } else {
                assert(trimmed(s@)[0] == s@[a as int] && trimmed(s@)[1] == s@[a + 1]);
                assert(trimmed(s@) != seq!['"', '"']) by {
                    if trimmed(s@) == seq!['"', '"'] {
                        assert(trimmed(s@)[0] == '"' && trimmed(s@)[1] == '"');
                    }
                }
            }
        }
        quoted
    } else {
        proof {
            assert(trimmed(s@).len() != 2);
            assert(trimmed(s@) != seq!['"', '"']) by {
                if trimmed(s@) == seq!['"', '"'] {
                    assert(trimmed(s@).len() == 2);
                }
            }
        }
        false
    }
}

/// What an optional numeric field denotes: nothing when the field is missing
/// or marks absence, the denoted number when it is a decimal numeral (an
/// optional plus sign, then digits) that fits in a `u32`, and a parse
/// failure otherwise.
pub open spec fn spec_optional_u32(field: Option<Seq<char>>) -> core::result::Result<
    Option<u32>,
    (),
> {
    match field {
        None => Ok(None),
        Some(s) => {
            let d = numeral_digits(s);
            if is_absent_marker(s) {
                Ok(None)
            } else if d.len() > 0 && all_digits(d) && dec_value(d) <= u32::MAX {
                Ok(Some(dec_value(d) as u32))
            } else {
                Err(())
            }
        },
    }
}

/// Reads an optional numeric field under the absent-field convention.
pub fn optional_u32_field(field: Option<&str>) -> (r: core::result::Result<Option<u32>, ()>)
    ensures
        r == spec_optional_u32(match field {
            Some(s) => Some(s@),
            None => None,
        }),
{
    match field {
        None => Ok(None),
        Some(s) => {
            if is_effectively_empty(s) {
                Ok(None)
            } else {
                match parse_u32(s) {
                    Some(v) => Ok(Some(v)),
                    None => Err(()),
                }
            }
        },
    }
}

/// Reads an optional string field under the absent-field convention: an
/// absence marker becomes no value, anything else is kept as it came.
pub fn optional_string_field(field: Option<String>) -> (r: Option<String>)
    ensures
        match field {
            None => r is None,
            Some(s) => if is_absent_marker(s@) {
                r is None
            } else {
                r == Some(s)
            },
        },
{
    match field {
        None => None,
        Some(s) => {
            if is_effectively_empty(s.as_str()) {
                None
            } else {
                Some(s)
            }
        },
    }
}

} // verus!
