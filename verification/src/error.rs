//! The library's error type and the exact user-facing text of each error.

use vstd::prelude::*;
use crate::text::{decimal, decimal_string};

verus! {

/// Every way an operation can fail. Errors that originate in an outside
/// service (keychain, HTTP, I/O) carry that service's own message text.
#[derive(Debug)]
pub enum Error {
    NotAuthenticated,
    RateLimited,
    Api { status: u16, message: String },
    Decode(String),
    Cache(String),
    Keychain(String),
    Config(String),
    Http(String),
    Io(String),
    /// stdout was closed by the reader (`ynab ... | head`). Not a failure:
    /// the caller got what it asked for and hung up.
    BrokenPipe,
}

pub type Result<T> = core::result::Result<T, Error>;

/// The message shown to the user for an error.
pub open spec fn error_text(e: Error) -> Seq<char> {
    match e {
        Error::NotAuthenticated => "not logged in — run `ynab auth login` (or `ynab auth login --oauth`)"@,
        Error::RateLimited => "rate limited by YNAB (200 requests/hour) — resets within the hour"@,
        Error::Api { status, message } => "YNAB API error ("@ + decimal(status as nat) + "): "@
            + message@,
        Error::Decode(m) => "unexpected API response: "@ + m@,
        Error::Cache(m) => "cache error: "@ + m@,
        Error::Keychain(m) => "keychain error: "@ + m@,
        Error::Config(m) => "config error: "@ + m@,
        Error::Http(m) => "HTTP error: "@ + m@,
        Error::Io(m) => "I/O error: "@ + m@,
        Error::BrokenPipe => "broken pipe"@,
    }
}

/// Whether `e` is a configuration error carrying exactly the message `m`.
pub open spec fn is_config_error(e: Error, m: Seq<char>) -> bool {
    e matches Error::Config(s) && s@ == m
}

fn prefixed(prefix: &str, m: &String) -> (r: String)
    ensures
        r@ == prefix@ + m@,
{
    let mut s = String::from_str(prefix);
    s.append(m.as_str());
    s
}

impl Error {
    /// The message shown to the user (what `error: <message>` prints).
    pub fn message(&self) -> (r: String)
        ensures
            r@ == error_text(*self),
    {
        match self {
            Error::NotAuthenticated => String::from_str(
                "not logged in — run `ynab auth login` (or `ynab auth login --oauth`)",
            ),
            Error::RateLimited => String::from_str(
                "rate limited by YNAB (200 requests/hour) — resets within the hour",
            ),
            Error::Api { status, message } => {
                let mut s = String::from_str("YNAB API error (");
                let code = decimal_string(*status as u64);
                s.append(code.as_str());
                s.append("): ");
                s.append(message.as_str());
                s
            },
            Error::Decode(m) => prefixed("unexpected API response: ", m),
            Error::Cache(m) => prefixed("cache error: ", m),
            Error::Keychain(m) => prefixed("keychain error: ", m),
            Error::Config(m) => prefixed("config error: ", m),
            Error::Http(m) => prefixed("HTTP error: ", m),
            Error::Io(m) => prefixed("I/O error: ", m),
            Error::BrokenPipe => String::from_str("broken pipe"),
        }
    }
}

/// True for `Error::Cache` — a corrupted/undecryptable cache is never a
/// user-facing error. Budget-scoped list commands use this to fall back to a
/// direct API fetch when the sync path fails mid-operation.
pub fn cache_error(e: &Error) -> (r: bool)
    ensures
        r == (*e is Cache),
{
    match e {
        Error::Cache(_) => true,
        _ => false,
    }
}

/// True when the reader closed stdout on us; the program then exits 0 and
/// silent, like any other Unix filter under `| head`.
pub fn broken_pipe(e: &Error) -> (r: bool)
    ensures
        r == (*e is BrokenPipe),
{
    match e {
        Error::BrokenPipe => true,
        _ => false,
    }
}

/// The error a failed write to stdout becomes: the reader hanging up is a
/// broken pipe (which the program treats as a quiet exit), anything else an
/// I/O error with the system's message.
pub fn output_error(is_broken_pipe: bool, message: String) -> (e: Error)
    ensures
        is_broken_pipe ==> e is BrokenPipe,
        !is_broken_pipe ==> e == Error::Io(message),
{
    if is_broken_pipe {
        Error::BrokenPipe
    } else {
        Error::Io(message)
    }
}

} // verus!
