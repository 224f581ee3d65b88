//! The OAuth redirect callback: reading the authorization code out of the
//! one `GET /callback?code=...&state=...` request the browser sends, and the
//! reply page. Listening on the socket happens in the program around the
//! library.

use vstd::prelude::*;
use vstd::string::StringSliceAdditionalSpecFns;
use crate::error::{Error, Result, is_config_error};
use crate::text::{
    chars_of, decimal, decimal_string, is_white_space, same_text, string_from_chars,
    trim_start_spec, white_space,
};

verus! {

/// The page shown after a successful authorization.
pub const SUCCESS_BODY: &'static str = "Authorized — you can close this tab.";

/// The page shown after a failed authorization.
pub const FAILURE_BODY: &'static str = "Authorization failed — you can close this tab and try again.";

/// The length of the run of non-white-space characters `s` starts with.
pub open spec fn word_len(s: Seq<char>) -> nat
    decreases s.len(),
{
    if s.len() > 0 && !is_white_space(s[0]) {
        1 + word_len(s.drop_first())
    } else {
        0
    }
}

/// The second white-space-separated word of a line (the request target of
/// an HTTP request line), as `split_whitespace().nth(1)` finds it.
pub open spec fn second_word(line: Seq<char>) -> Option<Seq<char>> {
    let a = trim_start_spec(line);
    if a.len() == 0 {
        None
    } else {
        let b = trim_start_spec(a.skip(word_len(a) as int));
        if b.len() == 0 {
            None
        } else {
            Some(b.take(word_len(b) as int))
        }
    }
}

/// The query of a request target: what follows its first `?`, or nothing.
pub open spec fn query_part(target: Seq<char>) -> Seq<char>
    decreases target.len(),
{
    if target.len() == 0 {
        target
    } else if target[0] == '?' {
        target.drop_first()
    } else {
        query_part(target.drop_first())
    }
}

/// What `form_urlencoded::parse(query.as_bytes()).into_owned()` yields for a
/// query text: its name/value pairs, percent- and plus-decoded, in order.
pub uninterp spec fn form_pairs(query: Seq<char>) -> Seq<(Seq<char>, Seq<char>)>;

/// The views of name/value pairs.
pub open spec fn pairs_view(v: Seq<(String, String)>) -> Seq<(Seq<char>, Seq<char>)> {
    v.map_values(|p: (String, String)| (p.0@, p.1@))
}

/// Decodes a query with the `form_urlencoded` parser that `oauth2`
/// re-exports (through `url`). The claim is only that the pairs are what
/// that parser yields for this text, named `form_pairs`.
#[verifier::external_body]
fn parse_query(query: &str) -> (r: Vec<(String, String)>)
    ensures
        pairs_view(r@) == form_pairs(query@),
{
    oauth2::url::form_urlencoded::parse(query.as_bytes()).into_owned().collect()
}

fn skip_white(cs: &Vec<char>, from: usize) -> (j: usize)
    requires
        from <= cs.len(),
    ensures
        from <= j <= cs.len(),
        trim_start_spec(cs@.skip(from as int)) == cs@.skip(j as int),
{
    let mut j = from;
    while j < cs.len() && white_space(cs[j])
        invariant
            from <= j <= cs.len(),
            trim_start_spec(cs@.skip(from as int)) == trim_start_spec(cs@.skip(j as int)),
        decreases cs.len() - j,
    {
        assert(cs@.skip(j as int).drop_first() =~= cs@.skip(j + 1));
        j = j + 1;
    }
    j
}

fn skip_word(cs: &Vec<char>, from: usize) -> (j: usize)
    requires
        from <= cs.len(),
    ensures
        from <= j <= cs.len(),
        j == from + word_len(cs@.skip(from as int)),
{
    let mut j = from;
    while j < cs.len() && !white_space(cs[j])
        invariant
            from <= j <= cs.len(),
            word_len(cs@.skip(from as int)) == (j - from) + word_len(cs@.skip(j as int)),
        decreases cs.len() - j,
    {
        assert(cs@.skip(j as int).drop_first() =~= cs@.skip(j + 1));
        j = j + 1;
    }
    j
}

fn query_of(target: &Vec<char>) -> (q: Vec<char>)
    ensures
        q@ == query_part(target@),
{
    let mut i: usize = 0;
    assert(target@.skip(0) =~= target@);
    while i < target.len() && target[i] != '?'
        invariant
            i <= target.len(),
            query_part(target@) == query_part(target@.skip(i as int)),
        decreases target.len() - i,
    {
        assert(target@.skip(i as int).drop_first() =~= target@.skip(i + 1));
        i = i + 1;
    }
    let mut q: Vec<char> = Vec::new();
    if i < target.len() {
        let mut k: usize = i + 1;
        while k < target.len()
            invariant
                i < k <= target.len(),
                q@ == target@.subrange(i + 1, k as int),
            decreases target.len() - k,
        {
            q.push(target[k]);
            k = k + 1;
            assert(q@ =~= target@.subrange(i + 1, k as int));
        }
        assert(target@.skip(i as int).drop_first() =~= target@.subrange(i + 1, target.len() as int));
    } else {
        assert(q@ =~= query_part(target@.skip(i as int)));
    }
    q
}

/// The name/value pairs of the callback request whose request line is
/// `request_line`; a request line without a target is malformed.
pub fn callback_params(request_line: &str) -> (r: Result<Vec<(String, String)>>)
    ensures
        match second_word(request_line@) {
            Some(target) => r matches Ok(v) && pairs_view(v@) == form_pairs(query_part(target)),
            None => r matches Err(e) && is_config_error(e, "malformed OAuth callback request"@),
        },
{
    let cs = chars_of(request_line);
    assert(cs@.skip(0) =~= cs@);
    let a = skip_white(&cs, 0);
    if a == cs.len() {
        assert(cs@.skip(a as int).len() == 0);
        return Err(Error::Config(String::from_str("malformed OAuth callback request")));
    }
    let e = skip_word(&cs, a);
    assert(cs@.skip(a as int).skip(word_len(cs@.skip(a as int)) as int) =~= cs@.skip(e as int));
    let b = skip_white(&cs, e);
    if b == cs.len() {
        assert(cs@.skip(b as int).len() == 0);
        return Err(Error::Config(String::from_str("malformed OAuth callback request")));
    }
    let f = skip_word(&cs, b);
    let mut target: Vec<char> = Vec::new();
    let mut k: usize = b;
    while k < f
        invariant
            b <= k <= f <= cs.len(),
            target@ == cs@.subrange(b as int, k as int),
        decreases f - k,
    {
        target.push(cs[k]);
        k = k + 1;
        assert(target@ =~= cs@.subrange(b as int, k as int));
    }
    assert(target@ =~= cs@.skip(b as int).take(word_len(cs@.skip(b as int)) as int));
    let q = query_of(&target);
    let qs = string_from_chars(&q);
    Ok(parse_query(qs.as_str()))
}

/// The value of the last pair named `key` (a later pair overrides an
/// earlier one of the same name, as collecting them into a map does).
pub open spec fn lookup_last(pairs: Seq<(Seq<char>, Seq<char>)>, key: Seq<char>) -> Option<Seq<char>>
    decreases pairs.len(),
{
    if pairs.len() == 0 {
        None
    } else if pairs.last().0 == key {
        Some(pairs.last().1)
    } else {
        lookup_last(pairs.drop_last(), key)
    }
}

fn lookup(params: &Vec<(String, String)>, key: &str) -> (r: Option<String>)
    ensures
        crate::text::opt_text(r) == lookup_last(pairs_view(params@), key@),
{
    let mut i: usize = params.len();
    assert(params@.take(i as int) =~= params@);
    while i > 0
        invariant
            i <= params.len(),
            lookup_last(pairs_view(params@), key@) == lookup_last(
                pairs_view(params@.take(i as int)),
                key@,
            ),
        decreases i,
    {
        let ghost pv = pairs_view(params@.take(i as int));
        assert(pv.last() == (params@[i - 1].0@, params@[i - 1].1@));
        if same_text(params[i - 1].0.as_str(), key) {
            return Some(params[i - 1].1.clone());
        }
        assert(pv.drop_last() =~= pairs_view(params@.take(i - 1)));
        i = i - 1;
    }
    assert(pairs_view(params@.take(0)) =~= Seq::<(Seq<char>, Seq<char>)>::empty());
    None
}

/// The outcome of a callback: the code, or the reason it is refused.
pub open spec fn callback_outcome(pairs: Seq<(Seq<char>, Seq<char>)>, expected_state: Seq<char>) -> core::result::Result<
    Seq<char>,
    Seq<char>,
> {
    if lookup_last(pairs, "error"@) is Some {
        Err("authorization was denied"@)
    } else {
        match lookup_last(pairs, "code"@) {
            None => Err("OAuth callback missing code"@),
            Some(code) => match lookup_last(pairs, "state"@) {
                None => Err("OAuth callback missing state"@),
                Some(state) => if state != expected_state {
                    Err("OAuth state mismatch — try again"@)
                } else {
                    Ok(code)
                },
            },
        }
    }
}

/// The authorization code of a callback, refused when the authorization
/// was denied, when the code or state is missing, or when the state is not
/// the one this login sent.
pub fn extract_code(params: &Vec<(String, String)>, expected_state: &str) -> (r: Result<String>)
    ensures
        match callback_outcome(pairs_view(params@), expected_state@) {
            Ok(code) => r matches Ok(c) && c@ == code,
            Err(m) => r matches Err(e) && is_config_error(e, m),
        },
{
    if lookup(params, "error").is_some() {
        return Err(Error::Config(String::from_str("authorization was denied")));
    }
    let code = match lookup(params, "code") {
        Some(c) => c,
        None => {
            return Err(Error::Config(String::from_str("OAuth callback missing code")));
        },
    };
    let state = match lookup(params, "state") {
        Some(s) => s,
        None => {
            return Err(Error::Config(String::from_str("OAuth callback missing state")));
        },
    };
    if !same_text(state.as_str(), expected_state) {
        return Err(Error::Config(String::from_str("OAuth state mismatch — try again")));
    }
    Ok(code)
}

/// A callback is accepted only when it carries no error and its state is
/// the one this login sent.
pub proof fn accepted_callback_carries_expected_state(
    pairs: Seq<(Seq<char>, Seq<char>)>,
    expected_state: Seq<char>,
)
    requires
        callback_outcome(pairs, expected_state) is Ok,
    ensures
        lookup_last(pairs, "error"@) is None,
        lookup_last(pairs, "state"@) == Some(expected_state),
        callback_outcome(pairs, expected_state) == Ok::<Seq<char>, Seq<char>>(
            lookup_last(pairs, "code"@)->Some_0,
        ),
{
}

/// The HTTP reply the callback listener sends: a 200 page with `body`.
pub open spec fn callback_response_text(body: &str) -> Seq<char> {
    "HTTP/1.1 200 OK\r\nContent-Type: text/html; charset=utf-8\r\nContent-Length: "@ + decimal(
        (body.spec_bytes().len() as usize) as nat,
    ) + "\r\nConnection: close\r\n\r\n"@ + body@
}

/// The reply to the browser, its length counted in UTF-8 bytes.
pub fn callback_response(body: &str) -> (r: String)
    ensures
        r@ == callback_response_text(body),
{
    let mut r = String::from_str(
        "HTTP/1.1 200 OK\r\nContent-Type: text/html; charset=utf-8\r\nContent-Length: ",
    );
    let n = decimal_string(body.len() as u64);
    r.append(n.as_str());
    r.append("\r\nConnection: close\r\n\r\n");
    r.append(body);
    r
}

} // verus!
