//! Verified text helpers: decimal rendering and parsing of integers, and the
//! blank-field convention the API uses for absent string values.

use vstd::prelude::*;

verus! {

/// The character for a single decimal digit value.
pub open spec fn digit_char(d: int) -> char {
    if d == 0 {
        '0'
    } else if d == 1 {
        '1'
    } else if d == 2 {
        '2'
    } else if d == 3 {
        '3'
    } else if d == 4 {
        '4'
    } else if d == 5 {
        '5'
    } else if d == 6 {
        '6'
    } else if d == 7 {
        '7'
    } else if d == 8 {
        '8'
    } else {
        '9'
    }
}

/// The decimal representation of `n`, most significant digit first, with no
/// leading zeros (`0` itself is the single character `0`).
pub open spec fn dec_digits(n: nat) -> Seq<char>
    decreases n,
{
    if n < 10 {
        seq![digit_char(n as int)]
    } else {
        dec_digits(n / 10) + seq![digit_char((n % 10) as int)]
    }
}

/// The decimal representation of a possibly negative number: a minus sign
/// followed by the magnitude's digits.
pub open spec fn dec_int(n: int) -> Seq<char> {
    if n < 0 {
        seq!['-'] + dec_digits((-n) as nat)
    } else {
        dec_digits(n as nat)
    }
}

/// A one-character string slice for the digit value `d`.
fn digit_str(d: u64) -> (r: &'static str)
    requires
        d < 10,
    ensures
        r@ =~= seq![digit_char(d as int)],
{
    proof {
        reveal_strlit("0");
        reveal_strlit("1");
        reveal_strlit("2");
        reveal_strlit("3");
        reveal_strlit("4");
        reveal_strlit("5");
        reveal_strlit("6");
        reveal_strlit("7");
        reveal_strlit("8");
        reveal_strlit("9");
    }
    if d == 0 {
        "0"
    } else if d == 1 {
        "1"
    } else if d == 2 {
        "2"
    } else if d == 3 {
        "3"
    } else if d == 4 {
        "4"
    } else if d == 5 {
        "5"
    } else if d == 6 {
        "6"
    } else if d == 7 {
        "7"
    } else if d == 8 {
        "8"
    } else {
        "9"
    }
}

/// Appends the decimal digits of `n` to `out`.
fn push_decimal(n: u64, out: &mut String)
    ensures
        final(out)@ == old(out)@ + dec_digits(n as nat),
    decreases n,
{
    if n >= 10 {
        push_decimal(n / 10, out);
    }
    out.append(digit_str(n % 10));
    proof {
        assert(old(out)@ + dec_digits(n as nat) =~= final(out)@);
    }
}

/// The decimal rendering of an unsigned number.
pub fn u64_to_string(n: u64) -> (r: String)
    ensures
        r@ == dec_digits(n as nat),
{
    let mut out = String::new();
    push_decimal(n, &mut out);
    proof {
        assert(out@ =~= dec_digits(n as nat));
    }
    out
}

/// The decimal rendering of a machine-word index.
pub fn usize_to_string(n: usize) -> (r: String)
    ensures
        r@ == dec_digits(n as nat),
{
    u64_to_string(n as u64)
}

/// The decimal rendering of a signed number, minus sign included.
pub fn i64_to_string(n: i64) -> (r: String)
    ensures
        r@ == dec_int(n as int),
{
    if n >= 0 {
        let r = u64_to_string(n as u64);
        r
    } else {
        let mag: u64 = ((-(n + 1)) as u64) + 1;
        assert(mag as nat == (-(n as int)) as nat);
        let mut out = String::from_str("-");
        proof {
            reveal_strlit("-");
        }
        push_decimal(mag, &mut out);
        proof {
            assert(out@ =~= dec_int(n as int));
        }
        out
    }
}

/// Rendering a number and reading the digits back is the identity: the
/// decimal representation is nonempty, all digits, and denotes the number
/// it was made from. Together with the contracts of `u64_to_string` and
/// `parse_u64`, parsing a rendered number always succeeds and returns it.
pub proof fn lemma_decimal_round_trip(n: nat)
    ensures
        dec_digits(n).len() > 0,
        all_digits(dec_digits(n)),
        dec_value(dec_digits(n)) == n,
    decreases n,
{
    if n < 10 {
        lemma_digit_char_val(n as int);
        let s = dec_digits(n);
        assert(s =~= seq![digit_char(n as int)]);
        assert(s.drop_last() =~= Seq::<char>::empty());
        assert(s.last() == digit_char(n as int));
        assert(dec_value(s) == dec_value(s.drop_last()) * 10 + digit_val(s.last()));
        assert(dec_value(s) == n);
    } else {
        lemma_decimal_round_trip(n / 10);
        lemma_digit_char_val((n % 10) as int);
        let whole = dec_digits(n);
        assert(whole =~= dec_digits(n / 10) + seq![digit_char((n % 10) as int)]);
        assert(whole.drop_last() =~= dec_digits(n / 10));
        assert(whole.last() == digit_char((n % 10) as int));
        assert(all_digits(whole)) by {
            assert(forall|i: int|
                0 <= i < whole.len() - 1 ==> whole[i] == #[trigger] dec_digits(n / 10)[i]);
        }
        assert(dec_value(whole) == dec_value(dec_digits(n / 10)) * 10 + digit_val(whole.last()));
        assert(n == (n / 10) * 10 + n % 10);
    }
}

/// The digit characters carry their values: rendering a digit and reading
/// it back is the identity.
proof fn lemma_digit_char_val(d: int)
    requires
        0 <= d < 10,
    ensures
        is_digit_char(digit_char(d)),
        digit_val(digit_char(d)) == d,
{
}

/// Whether `c` is a decimal digit character.
pub open spec fn is_digit_char(c: char) -> bool {
    '0' <= c && c <= '9'
}

/// The numeric value of a digit character.
pub open spec fn digit_val(c: char) -> int {
    c as int - '0' as int
}

/// Whether `s` is entirely decimal digits.
pub open spec fn all_digits(s: Seq<char>) -> bool {
    forall|i: int| 0 <= i < s.len() ==> is_digit_char(#[trigger] s[i])
}

/// The number a digit string denotes, read left to right.
pub open spec fn dec_value(s: Seq<char>) -> int
    decreases s.len(),
{
    if s.len() == 0 {
        0
    } else {
        dec_value(s.drop_last()) * 10 + digit_val(s.last())
    }
}

/// A digit string denotes a number that is at least zero.
pub proof fn lemma_dec_value_nonneg(s: Seq<char>)
    requires
        all_digits(s),
    ensures
        dec_value(s) >= 0,
    decreases s.len(),
{
    if s.len() > 0 {
        assert(all_digits(s.drop_last())) by {
            assert(forall|i: int|
                0 <= i < s.len() - 1 ==> s.drop_last()[i] == #[trigger] s[i]);
        }
        lemma_dec_value_nonneg(s.drop_last());
    }
}

/// Reading one more digit never makes the denoted number smaller.
proof fn lemma_dec_value_prefix(s: Seq<char>, i: int)
    requires
        all_digits(s),
        0 <= i <= s.len(),
    ensures
        dec_value(s.take(i)) <= dec_value(s),
    decreases s.len() - i,
{
    if i < s.len() {
        let t = s.take(i + 1);
        assert(t.drop_last() =~= s.take(i));
        assert(all_digits(s.take(i))) by {
            assert(forall|j: int|
                0 <= j < i ==> s.take(i)[j] == #[trigger] s[j]);
        }
        lemma_dec_value_nonneg(s.take(i));
        let v = dec_value(s.take(i));
        assert(dec_value(t) == v * 10 + digit_val(s[i]));
        assert(v <= v * 10) by (nonlinear_arith)
            requires
                v >= 0,
        ;
        lemma_dec_value_prefix(s, i + 1);
    } else {
        assert(s.take(i) =~= s);
    }
}

/// The digit part of a numeral: an optional leading plus sign carries no
/// value and is not part of it.
pub open spec fn numeral_digits(s: Seq<char>) -> Seq<char> {
    if s.len() > 0 && s[0] == '+' {
        s.skip(1)
    } else {
        s
    }
}

/// Parses a decimal numeral: an optional leading plus sign, then digits.
/// Returns the denoted number exactly when at least one digit follows the
/// optional sign, every following character is a digit, and the value fits
/// in a `u64`; returns nothing otherwise.
pub fn parse_u64(s: &str) -> (r: Option<u64>)
    ensures
        r == ({
            let d = numeral_digits(s@);
            if d.len() > 0 && all_digits(d) && dec_value(d) <= u64::MAX {
                Some(dec_value(d) as u64)
            } else {
                None::<u64>
            }
        }),
{
    let n = s.unicode_len();
    let start: usize = if n > 0 && s.get_char(0) == '+' {
        1
    } else {
        0
    };
    let ghost d = numeral_digits(s@);
    proof {
        assert(d =~= s@.skip(start as int));
    }
    if start == n {
        return None;
    }
    let mut acc: u64 = 0;
    let mut i: usize = start;
    while i < n
        invariant
            n == s@.len(),
            start <= i <= n,
            d == numeral_digits(s@),
            d == s@.skip(start as int),
            d.len() == n - start,
            forall|j: int| 0 <= j < d.len() ==> d[j] == s@[j + start],
            all_digits(d.take(i - start)),
            acc == dec_value(d.take(i - start)),
        decreases n - i,
    {
        let c = s.get_char(i);
        let cv = c as u32;
        if cv < '0' as u32 || cv > '9' as u32 {
            assert(!is_digit_char(d[i - start]));
            return None;
        }
        let dv = (cv - '0' as u32) as u64;
        assert(is_digit_char(d[i - start]) && dv == digit_val(d[i - start]));
        assert(all_digits(d.take(i + 1 - start))) by {
            assert(forall|j: int|
                0 <= j < i + 1 - start ==> d.take(i + 1 - start)[j] == #[trigger] d[j]);
        }
        let next = match acc.checked_mul(10) {
            Some(m) => m.checked_add(dv),
            None => None,
        };
        proof {
            assert(d.take(i + 1 - start).drop_last() =~= d.take(i - start));
        }
        match next {
            Some(v) => {
                acc = v;
            },
            None => {
                proof {
                    assert(dec_value(d.take(i + 1 - start)) > u64::MAX);
                    lemma_dec_value_nonneg(d.take(i + 1 - start));
                    if all_digits(d) {
                        lemma_dec_value_prefix(d, i + 1 - start);
                    }
                }
                return None;
            },
        }
        i = i + 1;
    }
    proof {
        assert(d.take(n - start) =~= d);
    }
    Some(acc)
}

/// Parses a decimal numeral into a machine-word index, with the same
/// contract as `parse_u64` at the `usize` range.
pub fn parse_usize(s: &str) -> (r: Option<usize>)
    ensures
        r == ({
            let d = numeral_digits(s@);
            if d.len() > 0 && all_digits(d) && dec_value(d) <= usize::MAX {
                Some(dec_value(d) as usize)
            } else {
                None::<usize>
            }
        }),
{
    match parse_u64(s) {
        Some(v) => {
            proof {
                lemma_dec_value_nonneg(numeral_digits(s@));
            }
            if v <= usize::MAX as u64 {
                Some(v as usize)
            } else {
                None
            }
        },
        None => {
            proof {
                if all_digits(numeral_digits(s@)) {
                    lemma_dec_value_nonneg(numeral_digits(s@));
                }
            }
            None
        },
    }
}

/// Parses a decimal numeral into a `u32`, with the same contract as
/// `parse_u64` at the `u32` range.
pub fn parse_u32(s: &str) -> (r: Option<u32>)
    ensures
        r == ({
            let d = numeral_digits(s@);
            if d.len() > 0 && all_digits(d) && dec_value(d) <= u32::MAX {
                Some(dec_value(d) as u32)
            } else {
                None::<u32>
            }
        }),
{
    match parse_u64(s) {
        Some(v) => {
            proof {
                lemma_dec_value_nonneg(numeral_digits(s@));
            }
            if v <= u32::MAX as u64 {
                Some(v as u32)
            } else {
                None
            }
        },
        None => {
            proof {
                if all_digits(numeral_digits(s@)) {
                    lemma_dec_value_nonneg(numeral_digits(s@));
                }
            }
            None
        },
    }
}

/// Whether two string slices hold the same characters.
pub fn str_eq(a: &str, b: &str) -> (r: bool)
    ensures
        r == (a@ == b@),
{
    let sa = String::from_str(a);
    let sb = String::from_str(b);
    sa.eq(&sb)
}

} // verus!
