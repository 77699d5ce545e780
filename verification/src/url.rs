//! Request URL construction. The API takes no query parameters: every value
//! is a positional path segment, in a strict order.

use vstd::prelude::*;

verus! {

/// The fixed base path every request URL starts with.
pub open spec fn spec_base_url() -> Seq<char> {
    "https://api.smitegame.com/smiteapi.svc"@
}

/// The fixed base path, as a string slice.
pub fn base_url() -> (r: &'static str)
    ensures
        r@ == spec_base_url(),
{
    "https://api.smitegame.com/smiteapi.svc"
}

/// The extra arguments of a call, each appended as its own path segment, in
/// caller-supplied order.
pub open spec fn joined_args(args: Seq<Seq<char>>) -> Seq<char>
    decreases args.len(),
{
    if args.len() == 0 {
        Seq::empty()
    } else {
        joined_args(args.drop_last()) + seq!['/'] + args.last()
    }
}

/// The request URL for one call:
/// base, then the method with a `Json` suffix, the developer id, the
/// signature, the session id exactly when the method requires a session,
/// the timestamp, and the extra arguments.
pub open spec fn url_of(
    method: Seq<char>,
    dev_id: Seq<char>,
    signature: Seq<char>,
    session_id: Option<Seq<char>>,
    timestamp: Seq<char>,
    extra_args: Seq<Seq<char>>,
) -> Seq<char> {
    spec_base_url() + seq!['/'] + method + "Json"@ + seq!['/'] + dev_id + seq!['/'] + signature
        + seq!['/'] + (match session_id {
        Some(id) => id + seq!['/'],
        None => Seq::empty(),
    }) + timestamp + joined_args(extra_args)
}

/// Builds the request URL for one call, segment by segment.
pub fn build_url(
    method: &str,
    dev_id: &str,
    signature: &str,
    session_id: Option<&str>,
    timestamp: &str,
    extra_args: &Vec<String>,
) -> (r: String)
    ensures
        r@ == url_of(
            method@,
            dev_id@,
            signature@,
            match session_id {
                Some(id) => Some(id@),
                None => None,
            },
            timestamp@,
            extra_args.deep_view(),
        ),
{
    proof {
        reveal_strlit("/");
    }
    let mut out = String::from_str(base_url());
    out.append("/");
    out.append(method);
    out.append("Json");
    out.append("/");
    out.append(dev_id);
    out.append("/");
    out.append(signature);
    out.append("/");
    match session_id {
        Some(id) => {
            out.append(id);
            out.append("/");
        },
        None => {},
    }
    out.append(timestamp);
    let n = extra_args.len();
    let ghost head = out@;
    let mut i: usize = 0;
    while i < n
        invariant
            n == extra_args.len(),
            0 <= i <= n,
            "/"@ =~= seq!['/'],
            out@ == head + joined_args(extra_args.deep_view().take(i as int)),
        decreases n - i,
    {
        out.append("/");
        out.append(extra_args[i].as_str());
        proof {
            let views = extra_args.deep_view();
            assert(views.take(i + 1).drop_last() =~= views.take(i as int));
            assert(views.take(i + 1).last() == extra_args[i as int]@);
            assert(out@ =~= head + joined_args(views.take(i + 1)));
        }
        i = i + 1;
    }
    proof {
        assert(extra_args.deep_view().take(n as int) =~= extra_args.deep_view());
        assert(out@ =~= url_of(
            method@,
            dev_id@,
            signature@,
            match session_id {
                Some(id) => Some(id@),
                None => None,
            },
            timestamp@,
            extra_args.deep_view(),
        ));
    }
    out
}

} // verus!
