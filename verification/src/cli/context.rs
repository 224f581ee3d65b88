//! Which budget and which token a command runs with, and whether it may use
//! the local cache.

use vstd::prelude::*;
use crate::config::{Config, cache_enabled_spec};
use crate::error::{Error, Result};
use crate::text::{same_text, trim, trimmed};
use crate::cli::transactions::opt_str;

verus! {

/// The budget a command addresses: the `--budget` flag, else the config's
/// `default_budget`, else YNAB's `last-used` alias.
pub open spec fn budget_choice(flag: Option<Seq<char>>, default_budget: Option<Seq<char>>) -> Seq<
    char,
> {
    match flag {
        Some(b) => b,
        None => match default_budget {
            Some(d) => d,
            None => "last-used"@,
        },
    }
}

/// Resolves the budget a command addresses.
pub fn resolve_budget(flag: Option<&str>, config: &Config) -> (r: String)
    ensures
        r@ == budget_choice(opt_str(flag), config@.default_budget),
{
    if let Some(b) = flag {
        return String::from_str(b);
    }
    match &config.default_budget {
        Some(d) => d.clone(),
        None => String::from_str("last-used"),
    }
}

/// The token a command uses: the `YNAB_PAT` environment value (trimmed) when
/// it is not blank, else the personal access token from the keychain, else
/// none.
pub open spec fn token_choice(env_pat: Option<Seq<char>>, keychain_pat: Option<Seq<char>>) -> Option<
    Seq<char>,
> {
    match env_pat {
        Some(e) if trimmed(e).len() > 0 => Some(trimmed(e)),
        _ => keychain_pat,
    }
}

/// Token sources in order: the `YNAB_PAT` environment value, then the
/// keychain. With neither, the user is not logged in.
pub fn resolve_token(env_pat: Option<&str>, keychain_pat: Option<String>) -> (r: Result<String>)
    ensures
        match token_choice(opt_str(env_pat), crate::text::opt_text(keychain_pat)) {
            Some(t) => r matches Ok(s) && s@ == t,
            None => r matches Err(e) && e is NotAuthenticated,
        },
{
    if let Some(e) = env_pat {
        let t = trim(e);
        if t.unicode_len() > 0 {
            return Ok(t);
        }
    }
    match keychain_pat {
        Some(k) => Ok(k),
        None => Err(Error::NotAuthenticated),
    }
}

/// Whether a command uses the local cache: caching is enabled in the config,
/// `--no-cache` was not passed, and the budget is a concrete id rather than
/// the `last-used` alias (which may resolve to different budgets).
pub open spec fn cache_wanted_spec(config_cache_enabled: bool, no_cache: bool, budget: Seq<char>) -> bool {
    config_cache_enabled && !no_cache && budget != "last-used"@
}

/// Decides whether a command uses the local cache.
pub fn cache_wanted(config: &Config, no_cache: bool, budget: &str) -> (r: bool)
    ensures
        r == cache_wanted_spec(cache_enabled_spec(config@), no_cache, budget@),
{
    config.cache_enabled() && !no_cache && !same_text(budget, "last-used")
}

/// The `last-used` alias is never cached, whatever the configuration says.
pub proof fn last_used_is_never_cached(config_cache_enabled: bool, no_cache: bool)
    ensures
        !cache_wanted_spec(config_cache_enabled, no_cache, "last-used"@),
{
}

/// With no `--budget` flag and no configured default, a command addresses
/// `last-used` and so runs without the cache.
pub proof fn fresh_install_runs_uncached(config_cache_enabled: bool, no_cache: bool)
    ensures
        budget_choice(None, None) == "last-used"@,
        !cache_wanted_spec(config_cache_enabled, no_cache, budget_choice(None, None)),
{
}

} // verus!
