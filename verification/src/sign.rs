//! Per-call signature: the MD5 hex digest of developer id, method name,
//! auth key, and timestamp, concatenated in that order. The timestamp that
//! goes into the digest must be the very value sent in the request path;
//! callers therefore sign with an explicit timestamp argument.

use vstd::prelude::*;

verus! {

/// The lowercase hexadecimal MD5 digest of the UTF-8 bytes of `s`. Named
/// here, computed by the `md5` crate: the digest depends on the characters
/// alone.
pub uninterp spec fn md5_hex_of(s: Seq<char>) -> Seq<char>;

/// Whether `c` is a lowercase hexadecimal digit.
pub open spec fn is_lower_hex_digit(c: char) -> bool {
    ('0' <= c && c <= '9') || ('a' <= c && c <= 'f')
}

/// Relies on md5::compute and the Digest LowerHex rendering: the MD5 digest
/// is sixteen bytes, each written as two lowercase hex digits, so the
/// result is exactly 32 lowercase hexadecimal characters.
#[verifier::external_body]
fn md5_hex(input: &str) -> (r: String)
    ensures
        r@ == md5_hex_of(input@),
        r@.len() == 32,
        forall|i: int| 0 <= i < r@.len() ==> is_lower_hex_digit(#[trigger] r@[i]),
{
    let digest = md5::compute(input.as_bytes());
    format!("{digest:x}")
}

/// The signing input for one call: developer id, method name, auth key,
/// and timestamp, in that order with nothing between them.
pub open spec fn sign_input(
    dev_id: Seq<char>,
    method: Seq<char>,
    auth_key: Seq<char>,
    timestamp: Seq<char>,
) -> Seq<char> {
    dev_id + method + auth_key + timestamp
}

/// The signature the API expects for one call.
pub open spec fn spec_signature(
    dev_id: Seq<char>,
    method: Seq<char>,
    auth_key: Seq<char>,
    timestamp: Seq<char>,
) -> Seq<char> {
    md5_hex_of(sign_input(dev_id, method, auth_key, timestamp))
}

/// Computes the signature for `method` at `timestamp`: a 32-character
/// lowercase hexadecimal string. A pure function of its four inputs:
/// signing the same call at the same timestamp twice gives the same
/// signature.
pub fn sign(dev_id: &str, auth_key: &str, method: &str, timestamp: &str) -> (r: String)
    ensures
        r@ == spec_signature(dev_id@, method@, auth_key@, timestamp@),
        r@.len() == 32,
        forall|i: int| 0 <= i < r@.len() ==> is_lower_hex_digit(#[trigger] r@[i]),
{
    let mut input = String::from_str(dev_id);
    input.append(method);
    input.append(auth_key);
    input.append(timestamp);
    md5_hex(input.as_str())
}

/// Two calls to the same method at different timestamps sign different
/// inputs: the signing input determines the timestamp, so the signatures
/// agree only where the digest collides.
pub proof fn lemma_sign_input_timestamp_injective(
    dev_id: Seq<char>,
    method: Seq<char>,
    auth_key: Seq<char>,
    t1: Seq<char>,
    t2: Seq<char>,
)
    requires
        t1 != t2,
    ensures
        sign_input(dev_id, method, auth_key, t1) != sign_input(dev_id, method, auth_key, t2),
{
    let p = dev_id + method + auth_key;
    assert(sign_input(dev_id, method, auth_key, t1) =~= p + t1);
    assert(sign_input(dev_id, method, auth_key, t2) =~= p + t2);
    if p + t1 == p + t2 {
        assert(t1.len() == t2.len());
        assert(forall|i: int| 0 <= i < t1.len() ==> t1[i] == (p + t1)[p.len() + i]);
        assert(forall|i: int| 0 <= i < t2.len() ==> t2[i] == (p + t2)[p.len() + i]);
        assert(t1 =~= t2);
    }
}

} // verus!
