use vstd::prelude::*;

use crate::text::{owned, same_text};
use vstd::string::StringSliceAdditionalSpecFns;

verus! {

/// The (name, value) pairs, percent-decoded, that `form_urlencoded::parse`
/// yields on a query string, in the order they stand in it.
pub uninterp spec fn form_pairs(query: Seq<u8>) -> Seq<(Seq<char>, Seq<char>)>;

/// Calls `url::form_urlencoded::parse` and collects its pairs as owned
/// strings. Trusted to yield `form_pairs` of the input: the decoding itself
/// (splitting at `&` and `=`, `+` to space, percent escapes, lossy UTF-8)
/// is the outside crate's and is not restated here.
#[verifier::external_body]
fn decode_form_pairs(query: &[u8]) -> (pairs: Vec<(String, String)>)
    ensures
        pairs.deep_view() == form_pairs(query@),
{
    url::form_urlencoded::parse(query).into_owned().collect()
}

/// The position of the first `?` at or after `from`, or the length when there is none.
pub open spec fn next_question(b: Seq<u8>, from: int) -> int
    decreases b.len() - from,
{
    if from < 0 || from >= b.len() {
        b.len() as int
    } else if b[from] == 63 {
        from
    } else {
        next_question(b, from + 1)
    }
}

/// The query of a redirect target: what stands between its first `?` and
/// the next one (or the end); nothing where it holds no `?`.
pub open spec fn query_of(b: Seq<u8>) -> Seq<u8> {
    let q = next_question(b, 0);
    if q >= b.len() {
        Seq::empty()
    } else {
        b.subrange(q + 1, next_question(b, q + 1))
    }
}

/// The value of the last pair named `key`.
pub open spec fn last_value(pairs: Seq<(Seq<char>, Seq<char>)>, key: Seq<char>) -> Option<
    Seq<char>,
>
    decreases pairs.len(),
{
    if pairs.len() == 0 {
        None
    } else if pairs.last().0 == key {
        Some(pairs.last().1)
    } else {
        last_value(pairs.drop_last(), key)
    }
}

/// Why a redirect was refused.
#[derive(Clone, Copy, Debug, PartialEq, Eq, Structural)]
pub enum RedirectError {
    MissingCode,
    MissingState,
}

impl RedirectError {
    pub fn message(&self) -> (r: String)
        ensures
            *self == RedirectError::MissingCode ==> r@ == "No code parameter found in redirect URL"@,
            *self == RedirectError::MissingState ==> r@
                == "No state parameter found (CSRF protection)"@,
    {
        match self {
            RedirectError::MissingCode => owned("No code parameter found in redirect URL"),
            RedirectError::MissingState => owned("No state parameter found (CSRF protection)"),
        }
    }
}

/// What a redirect carrying `pairs` comes to: its authorization code and
/// state; the code is asked for first.
pub open spec fn redirect_outcome(pairs: Seq<(Seq<char>, Seq<char>)>) -> Result<
    (Seq<char>, Seq<char>),
    RedirectError,
> {
    match last_value(pairs, "code"@) {
        None => Err(RedirectError::MissingCode),
        Some(code) => match last_value(pairs, "state"@) {
            None => Err(RedirectError::MissingState),
            Some(state) => Ok((code, state)),
        },
    }
}

pub open spec fn outcome_matches(
    r: Result<(String, String), RedirectError>,
    expected: Result<(Seq<char>, Seq<char>), RedirectError>,
) -> bool {
    match (r, expected) {
        (Ok((c, s)), Ok((ec, es))) => c@ == ec && s@ == es,
        (Err(e), Err(ee)) => e == ee,
        _ => false,
    }
}

/// The query bytes of a redirect target.
pub fn redirect_query(target: &str) -> (q: Vec<u8>)
    ensures
        q@ == query_of(target.spec_bytes()),
{
    let b = target.as_bytes();
    let n = b.len();
    let ghost bs = b@;
    let mut i: usize = 0;
    while i < n && b[i] != 63
        invariant
            n == bs.len(),
            bs == b@,
            i <= n,
            next_question(bs, 0) == next_question(bs, i as int),
        decreases n - i,
    {
        i = i + 1;
    }
    let mut q: Vec<u8> = Vec::new();
    if i >= n {
        return q;
    }
    let start = i + 1;
    let mut j: usize = start;
    while j < n && b[j] != 63
        invariant
            n == bs.len(),
            bs == b@,
            next_question(bs, 0) == i,
            i < n,
            start == i + 1,
            start <= j <= n,
            next_question(bs, start as int) == next_question(bs, j as int),
            q@ == bs.subrange(start as int, j as int),
        decreases n - j,
    {
        q.push(b[j]);
        assert(q@ =~= bs.subrange(start as int, j + 1));
        j = j + 1;
    }
    q
}

/// The value of the last pair named `key`.
pub fn param_value(pairs: &Vec<(String, String)>, key: &str) -> (r: Option<String>)
    ensures
        r.deep_view() == last_value(pairs.deep_view(), key@),
{
    let mut k: usize = pairs.len();
    assert(pairs.deep_view().take(k as int) =~= pairs.deep_view());
    while k > 0
        invariant
            k <= pairs@.len(),
            last_value(pairs.deep_view(), key@) == last_value(pairs.deep_view().take(k as int), key@),
        decreases k,
    {
        let ghost d = pairs.deep_view().take(k as int);
        assert(d.drop_last() =~= pairs.deep_view().take(k - 1));
        if same_text(pairs[k - 1].0.as_str(), key) {
            return Some(pairs[k - 1].1.clone());
        }
        k = k - 1;
    }
    assert(pairs.deep_view().take(0) =~= Seq::<(Seq<char>, Seq<char>)>::empty());
    None
}

/// The authorization code and state that a redirect carries.
pub fn code_and_state(pairs: &Vec<(String, String)>) -> (r: Result<(String, String), RedirectError>)
    ensures
        outcome_matches(r, redirect_outcome(pairs.deep_view())),
{
    let code = match param_value(pairs, "code") {
        Some(c) => c,
        None => {
            return Err(RedirectError::MissingCode);
        },
    };
    let state = match param_value(pairs, "state") {
        Some(s) => s,
        None => {
            return Err(RedirectError::MissingState);
        },
    };
    Ok((code, state))
}

/// Reads the authorization code and state off the target of the redirect
/// that ends a sign-in.
pub fn parse_redirect(target: &str) -> (r: Result<(String, String), RedirectError>)
    ensures
        outcome_matches(r, redirect_outcome(form_pairs(query_of(target.spec_bytes())))),
{
    let query = redirect_query(target);
    let pairs = decode_form_pairs(query.as_slice());
    code_and_state(&pairs)
}

} // verus!
