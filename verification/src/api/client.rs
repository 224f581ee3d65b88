//! How requests to the YNAB API are addressed and how replies are judged.
//! The client only ever issues GET requests; sending them happens in the
//! program around the library.

use vstd::prelude::*;
use crate::error::{Error, Result};
use crate::text::{chars_of, signed_decimal, signed_decimal_string};

verus! {

/// The API's base URL.
pub const BASE_URL: &'static str = "https://api.ynab.com/v1";

/// Adds a query parameter to a path: after `?` when the path has no query
/// yet, after `&` when it has one.
pub open spec fn with_param(path: Seq<char>, param: Seq<char>) -> Seq<char> {
    path + (if path.contains('?') { seq!['&'] } else { seq!['?'] }) + param
}

/// The `last_knowledge_of_server=<k>` parameter.
pub open spec fn knowledge_param(k: i64) -> Seq<char> {
    "last_knowledge_of_server="@ + signed_decimal(k as int)
}

/// A path with the delta-sync parameter added when a knowledge value is
/// given.
pub open spec fn with_knowledge(path: Seq<char>, last_knowledge: Option<i64>) -> Seq<char> {
    match last_knowledge {
        Some(k) => with_param(path, knowledge_param(k)),
        None => path,
    }
}

/// `/budgets/<budget>/<resource>`, with the delta-sync parameter if any.
pub open spec fn budget_resource_path(
    budget: Seq<char>,
    resource: Seq<char>,
    last_knowledge: Option<i64>,
) -> Seq<char> {
    with_knowledge("/budgets/"@ + budget + "/"@ + resource, last_knowledge)
}

/// The transactions path: `since_date` first when given, then the delta-sync
/// parameter.
pub open spec fn transactions_path_spec(
    budget: Seq<char>,
    since_date: Option<Seq<char>>,
    last_knowledge: Option<i64>,
) -> Seq<char> {
    let base = match since_date {
        Some(d) => "/budgets/"@ + budget + "/transactions?since_date="@ + d,
        None => "/budgets/"@ + budget + "/transactions"@,
    };
    with_knowledge(base, last_knowledge)
}

fn has_question_mark(s: &String) -> (r: bool)
    ensures
        r == s@.contains('?'),
{
    let cs = chars_of(s.as_str());
    let mut i: usize = 0;
    while i < cs.len()
        invariant
            cs@ == s@,
            i <= cs.len(),
            forall|k: int| 0 <= k < i ==> cs@[k] != '?',
        decreases cs.len() - i,
    {
        if cs[i] == '?' {
            return true;
        }
        i = i + 1;
    }
    false
}

/// Appends a query parameter with the right separator.
pub fn append_param(path: String, param: &str) -> (r: String)
    ensures
        r@ == with_param(path@, param@),
{
    let q = has_question_mark(&path);
    let mut r = path;
    if q {
        r.append("&");
    } else {
        r.append("?");
    }
    proof {
        reveal_strlit("&");
        reveal_strlit("?");
    }
    r.append(param);
    r
}

fn add_knowledge(path: String, last_knowledge: Option<i64>) -> (r: String)
    ensures
        r@ == with_knowledge(path@, last_knowledge),
{
    match last_knowledge {
        Some(k) => {
            let mut p = String::from_str("last_knowledge_of_server=");
            let digits = signed_decimal_string(k);
            p.append(digits.as_str());
            append_param(path, p.as_str())
        },
        None => path,
    }
}

fn budget_path(budget: &str, resource: &str, last_knowledge: Option<i64>) -> (r: String)
    ensures
        r@ == budget_resource_path(budget@, resource@, last_knowledge),
{
    let mut p = String::from_str("/budgets/");
    p.append(budget);
    p.append("/");
    p.append(resource);
    add_knowledge(p, last_knowledge)
}

/// The path of the current user.
pub fn user_path() -> (r: String)
    ensures
        r@ == "/user"@,
{
    String::from_str("/user")
}

/// The path of the budget list.
pub fn budgets_path() -> (r: String)
    ensures
        r@ == "/budgets"@,
{
    String::from_str("/budgets")
}

/// The path of a budget's accounts.
pub fn accounts_path(budget: &str, last_knowledge: Option<i64>) -> (r: String)
    ensures
        r@ == budget_resource_path(budget@, "accounts"@, last_knowledge),
{
    budget_path(budget, "accounts", last_knowledge)
}

/// The path of a budget's category groups.
pub fn categories_path(budget: &str, last_knowledge: Option<i64>) -> (r: String)
    ensures
        r@ == budget_resource_path(budget@, "categories"@, last_knowledge),
{
    budget_path(budget, "categories", last_knowledge)
}

/// The path of a budget's payees.
pub fn payees_path(budget: &str, last_knowledge: Option<i64>) -> (r: String)
    ensures
        r@ == budget_resource_path(budget@, "payees"@, last_knowledge),
{
    budget_path(budget, "payees", last_knowledge)
}

/// The path of a budget's transactions.
pub fn transactions_path(budget: &str, since_date: Option<&str>, last_knowledge: Option<i64>) -> (r:
    String)
    ensures
        r@ == transactions_path_spec(
            budget@,
            crate::cli::transactions::opt_str(since_date),
            last_knowledge,
        ),
{
    let mut p = String::from_str("/budgets/");
    p.append(budget);
    match since_date {
        Some(d) => {
            p.append("/transactions?since_date=");
            p.append(d);
        },
        None => {
            p.append("/transactions");
        },
    }
    add_knowledge(p, last_knowledge)
}

/// Whether an HTTP status is a success (2xx).
pub open spec fn is_success_spec(status: u16) -> bool {
    200 <= status < 300
}

/// Whether an HTTP status is a success (2xx).
pub fn is_success(status: u16) -> (r: bool)
    ensures
        r == is_success_spec(status),
{
    200 <= status && status < 300
}

/// The message an API error carries: the error envelope's detail, else the
/// status's reason phrase, else "unknown error".
pub open spec fn api_message(detail: Option<Seq<char>>, reason: Option<Seq<char>>) -> Seq<char> {
    match detail {
        Some(d) => d,
        None => match reason {
            Some(r) => r,
            None => "unknown error"@,
        },
    }
}

/// The error a failed reply becomes: 401 means not logged in, 429 means
/// rate limited, anything else is an API error with the status and
/// `api_message`.
pub fn api_error(status: u16, detail: Option<String>, reason: Option<&str>) -> (e: Error)
    ensures
        status == 401 ==> e is NotAuthenticated,
        status == 429 ==> e is RateLimited,
        status != 401 && status != 429 ==> (e matches Error::Api { status: s, message: m } && s
            == status && m@ == api_message(crate::text::opt_text(detail), crate::cli::transactions::opt_str(reason))),
{
    if status == 401 {
        Error::NotAuthenticated
    } else if status == 429 {
        Error::RateLimited
    } else {
        let message = match detail {
            Some(d) => d,
            None => match reason {
                Some(r) => String::from_str(r),
                None => String::from_str("unknown error"),
            },
        };
        Error::Api { status, message }
    }
}

/// The `data` member of a success reply; a reply without one is a decode
/// error.
pub fn data_member<V>(data: Option<V>) -> (r: Result<V>)
    ensures
        match data {
            Some(v) => r == Ok::<V, Error>(v),
            None => r matches Err(Error::Decode(m)) && m@ == "missing data envelope"@,
        },
{
    match data {
        Some(v) => Ok(v),
        None => Err(Error::Decode(String::from_str("missing data envelope"))),
    }
}

} // verus!
