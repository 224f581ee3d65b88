//! The user's configuration: which keys exist, their defaults, and how they
//! are read and set. Loading and saving the TOML file happens in the program
//! around the library.

use vstd::prelude::*;
use crate::error::{Error, Result, is_config_error};
use crate::text::{opt_text, same_text, clone_opt};

verus! {

/// The keys `config get` / `config set` accept, in this order.
pub const VALID_KEYS: [&'static str; 2] = ["cache", "default_budget"];

/// The configuration file's contents. It never holds secrets.
#[derive(Debug, Clone)]
pub struct Config {
    pub cache: Option<bool>,
    pub default_budget: Option<String>,
}

/// What a configuration says, as plain values.
pub struct ConfigView {
    pub cache: Option<bool>,
    pub default_budget: Option<Seq<char>>,
}

impl View for Config {
    type V = ConfigView;

    open spec fn view(&self) -> ConfigView {
        ConfigView { cache: self.cache, default_budget: opt_text(self.default_budget) }
    }
}

/// The text of a boolean setting.
pub open spec fn bool_text(b: bool) -> Seq<char> {
    if b {
        "true"@
    } else {
        "false"@
    }
}

/// How a boolean setting is read from text: exactly "true" or "false".
pub open spec fn parse_bool_text(s: Seq<char>) -> Option<bool> {
    if s == "true"@ {
        Some(true)
    } else if s == "false"@ {
        Some(false)
    } else {
        None
    }
}

/// The message for a key that is not a configuration key.
pub open spec fn unknown_key_text(key: Seq<char>) -> Seq<char> {
    "unknown key: "@ + key + " (valid keys: cache, default_budget)"@
}

/// Whether caching is on: unset means on.
pub open spec fn cache_enabled_spec(c: ConfigView) -> bool {
    match c.cache {
        Some(b) => b,
        None => true,
    }
}

/// `config get <key>`: the key's value (`None` when unset), or the error text.
pub open spec fn get_key_spec(c: ConfigView, key: Seq<char>) -> core::result::Result<
    Option<Seq<char>>,
    Seq<char>,
> {
    if key == "cache"@ {
        Ok(
            match c.cache {
                Some(b) => Some(bool_text(b)),
                None => None,
            },
        )
    } else if key == "default_budget"@ {
        Ok(c.default_budget)
    } else {
        Err(unknown_key_text(key))
    }
}

/// `config set <key> <value>`: the configuration afterwards, or the error text.
pub open spec fn with_key_spec(c: ConfigView, key: Seq<char>, value: Seq<char>) -> core::result::Result<
    ConfigView,
    Seq<char>,
> {
    if key == "cache"@ {
        match parse_bool_text(value) {
            Some(b) => Ok(ConfigView { cache: Some(b), default_budget: c.default_budget }),
            None => Err("cache must be true or false"@),
        }
    } else if key == "default_budget"@ {
        Ok(ConfigView { cache: c.cache, default_budget: Some(value) })
    } else {
        Err(unknown_key_text(key))
    }
}

impl Default for Config {
    fn default() -> (r: Config)
        ensures
            r.cache is None,
            r.default_budget is None,
    {
        Config { cache: None, default_budget: None }
    }
}

fn unknown_key(key: &str) -> (e: Error)
    ensures
        is_config_error(e, unknown_key_text(key@)),
{
    let mut m = String::from_str("unknown key: ");
    m.append(key);
    m.append(" (valid keys: cache, default_budget)");
    Error::Config(m)
}

/// Reads a boolean the way `str::parse::<bool>` does: "true" or "false".
pub fn parse_bool(s: &str) -> (r: Option<bool>)
    ensures
        r == parse_bool_text(s@),
{
    if same_text(s, "true") {
        Some(true)
    } else if same_text(s, "false") {
        Some(false)
    } else {
        None
    }
}

impl Config {
    /// Caching is on unless the config turns it off.
    pub fn cache_enabled(&self) -> (r: bool)
        ensures
            r == cache_enabled_spec(self@),
    {
        match self.cache {
            Some(b) => b,
            None => true,
        }
    }

    /// The current value of `key` as text, `None` when it is unset.
    pub fn get_key(&self, key: &str) -> (r: Result<Option<String>>)
        ensures
            match (r, get_key_spec(self@, key@)) {
                (Ok(v), Ok(s)) => opt_text(v) == s,
                (Err(e), Err(m)) => is_config_error(e, m),
                _ => false,
            },
    {
        if same_text(key, "cache") {
            match self.cache {
                Some(true) => Ok(Some(String::from_str("true"))),
                Some(false) => Ok(Some(String::from_str("false"))),
                None => Ok(None),
            }
        } else if same_text(key, "default_budget") {
            Ok(clone_opt(&self.default_budget))
        } else {
            Err(unknown_key(key))
        }
    }

    /// This configuration with `key` set to `value`.
    pub fn with_key(self, key: &str, value: &str) -> (r: Result<Config>)
        ensures
            match (r, with_key_spec(self@, key@, value@)) {
                (Ok(c), Ok(v)) => c@ == v,
                (Err(e), Err(m)) => is_config_error(e, m),
                _ => false,
            },
    {
        if same_text(key, "cache") {
            match parse_bool(value) {
                Some(b) => Ok(Config { cache: Some(b), default_budget: self.default_budget }),
                None => Err(Error::Config(String::from_str("cache must be true or false"))),
            }
        } else if same_text(key, "default_budget") {
            Ok(Config { cache: self.cache, default_budget: Some(String::from_str(value)) })
        } else {
            Err(unknown_key(key))
        }
    }
}

/// Setting a key and reading it back gives the value that was set: `config
/// set <key> <value>` followed by `config get <key>` prints `<value>`.
pub proof fn set_then_get(c: ConfigView, key: Seq<char>, value: Seq<char>)
    requires
        with_key_spec(c, key, value) is Ok,
    ensures
        get_key_spec(with_key_spec(c, key, value)->Ok_0, key) == Ok::<
            Option<Seq<char>>,
            Seq<char>,
        >(Some(value)),
{
    reveal_strlit("true");
    reveal_strlit("false");
}

/// Setting one key leaves every other key as it was.
pub proof fn set_leaves_other_keys(c: ConfigView, key: Seq<char>, value: Seq<char>, other: Seq<char>)
    requires
        with_key_spec(c, key, value) is Ok,
        other != key,
    ensures
        get_key_spec(with_key_spec(c, key, value)->Ok_0, other) == get_key_spec(c, other),
{
}

/// A key is settable exactly when it is readable: both accept the same keys.
pub proof fn settable_keys_are_readable(c: ConfigView, key: Seq<char>, value: Seq<char>)
    ensures
        (get_key_spec(c, key) is Ok) == (key == "cache"@ || key == "default_budget"@),
        (with_key_spec(c, key, value) is Ok) ==> (get_key_spec(c, key) is Ok),
{
}

} // verus!
