//! The encrypted local cache: where its key comes from. The SQLCipher
//! database itself is opened and queried in the program around the library.

use vstd::prelude::*;
use crate::error::{Error, Result};
use crate::text::{chars_of, trim, trimmed};
use crate::cli::transactions::opt_str;

pub mod sync;

verus! {

/// The message for a `YNAB_CLI_CACHE_KEY` that is not a key.
pub const BAD_ENV_KEY_MESSAGE: &'static str =
    "YNAB_CLI_CACHE_KEY must be exactly 64 hex characters (32 bytes)";

/// The lowercase hexadecimal digit of a nibble (0..16).
pub open spec fn hex_digit(n: nat) -> char {
    if n < 10 {
        (48 + n) as char
    } else {
        (87 + n) as char
    }
}

/// The lowercase hexadecimal text of bytes: two digits per byte, high
/// nibble first.
pub open spec fn hex_lower(bytes: Seq<u8>) -> Seq<char>
    decreases bytes.len(),
{
    if bytes.len() == 0 {
        Seq::empty()
    } else {
        hex_lower(bytes.drop_last()) + seq![
            hex_digit((bytes.last() / 16) as nat),
            hex_digit((bytes.last() % 16) as nat),
        ]
    }
}

/// Calls `hex::encode`, which maps each byte, in order, to two lowercase
/// hexadecimal digits (its `HEX_CHARS_LOWER` table), high nibble first.
#[verifier::external_body]
fn hex_encode(bytes: &[u8]) -> (r: String)
    ensures
        r@ == hex_lower(bytes@),
{
    hex::encode(bytes)
}

/// Whether a character is a hexadecimal digit (either case).
pub open spec fn is_hex_char(c: char) -> bool {
    ('0' <= c <= '9') || ('a' <= c <= 'f') || ('A' <= c <= 'F')
}

/// Whether a text is a cache key: exactly 64 hexadecimal digits (32 bytes).
pub open spec fn is_cache_key_text(s: Seq<char>) -> bool {
    s.len() == 64 && forall|i: int| 0 <= i < s.len() ==> is_hex_char(#[trigger] s[i])
}

/// Whether `s` is a cache key.
pub fn is_cache_key(s: &str) -> (r: bool)
    ensures
        r == is_cache_key_text(s@),
{
    let cs = chars_of(s);
    if cs.len() != 64 {
        return false;
    }
    let mut i: usize = 0;
    while i < cs.len()
        invariant
            cs@ == s@,
            i <= cs.len(),
            forall|k: int| 0 <= k < i ==> is_hex_char(#[trigger] cs@[k]),
        decreases cs.len() - i,
    {
        let c = cs[i];
        if !(('0' <= c && c <= '9') || ('a' <= c && c <= 'f') || ('A' <= c && c <= 'F')) {
            assert(!is_hex_char(s@[i as int]));
            return false;
        }
        i = i + 1;
    }
    true
}

/// A new cache key from 32 random bytes: their lowercase hex text.
pub fn generated_key(bytes: &[u8]) -> (r: String)
    requires
        bytes@.len() == 32,
    ensures
        r@ == hex_lower(bytes@),
        is_cache_key_text(r@),
{
    let r = hex_encode(bytes);
    proof {
        hex_lower_is_hex(bytes@);
    }
    r
}

/// Hex text has two digits per byte, all of them hexadecimal.
pub proof fn hex_lower_is_hex(bytes: Seq<u8>)
    ensures
        hex_lower(bytes).len() == 2 * bytes.len(),
        forall|i: int| 0 <= i < hex_lower(bytes).len() ==> is_hex_char(#[trigger] hex_lower(bytes)[i]),
    decreases bytes.len(),
{
    if bytes.len() > 0 {
        hex_lower_is_hex(bytes.drop_last());
        let prev = hex_lower(bytes.drop_last());
        let tail = seq![
            hex_digit((bytes.last() / 16) as nat),
            hex_digit((bytes.last() % 16) as nat),
        ];
        assert forall|i: int| 0 <= i < hex_lower(bytes).len() implies is_hex_char(
            #[trigger] hex_lower(bytes)[i],
        ) by {
            if i < prev.len() {
                assert(hex_lower(bytes)[i] == prev[i]);
            } else {
                assert(hex_lower(bytes)[i] == tail[i - prev.len()]);
            }
        }
    }
}

/// Fills 32 bytes from the operating system's random source through
/// `rand::rngs::OsRng` and `RngCore::try_fill_bytes` (which reports a
/// failing source instead of panicking). Only the length of a filled buffer
/// is claimed; its bytes are chance.
#[verifier::external_body]
fn random_key_bytes() -> (r: Option<Vec<u8>>)
    ensures
        r matches Some(v) ==> v@.len() == 32,
{
    let mut bytes = [0u8; 32];
    match rand::RngCore::try_fill_bytes(&mut rand::rngs::OsRng, &mut bytes) {
        Ok(()) => Some(bytes.to_vec()),
        Err(_) => None,
    }
}

/// The message for a random source that cannot be read.
pub const NO_RANDOMNESS_MESSAGE: &'static str = "cannot read random bytes for a new cache key";

/// A fresh cache key: 32 random bytes as lowercase hex, always a valid key.
/// A random source that cannot be read is a cache error.
pub fn new_cache_key() -> (r: Result<String>)
    ensures
        r matches Ok(k) ==> is_cache_key_text(k@),
        r matches Err(e) ==> (e matches Error::Cache(m) && m@ == NO_RANDOMNESS_MESSAGE@),
{
    match random_key_bytes() {
        Some(bytes) => Ok(generated_key(bytes.as_slice())),
        None => Err(Error::Cache(String::from_str(NO_RANDOMNESS_MESSAGE))),
    }
}

/// Where the cache key comes from.
#[derive(Debug)]
pub enum KeyChoice {
    /// `YNAB_CLI_CACHE_KEY`: used as given, never written to the keychain.
    Environment(String),
    /// The key stored in the keychain.
    Keychain(String),
    /// No key yet: generate one and store it in the keychain.
    Generate,
}

/// Key sources in order: the `YNAB_CLI_CACHE_KEY` environment value
/// (trimmed, when not blank; it must then be 64 hex characters), then the
/// keychain, then a newly generated key.
pub fn key_choice(env: Option<&str>, keychain: Option<String>) -> (r: Result<KeyChoice>)
    ensures
        match opt_str(env) {
            Some(e) if trimmed(e).len() > 0 => if is_cache_key_text(trimmed(e)) {
                r matches Ok(KeyChoice::Environment(k)) && k@ == trimmed(e)
            } else {
                r matches Err(Error::Cache(m)) && m@ == BAD_ENV_KEY_MESSAGE@
            },
            _ => match keychain {
                Some(k) => r matches Ok(KeyChoice::Keychain(s)) && s@ == k@,
                None => r matches Ok(KeyChoice::Generate),
            },
        },
{
    if let Some(e) = env {
        let t = trim(e);
        if t.unicode_len() > 0 {
            if is_cache_key(t.as_str()) {
                return Ok(KeyChoice::Environment(t));
            }
            return Err(Error::Cache(String::from_str(BAD_ENV_KEY_MESSAGE)));
        }
    }
    match keychain {
        Some(k) => Ok(KeyChoice::Keychain(k)),
        None => Ok(KeyChoice::Generate),
    }
}

/// The value of SQLCipher's `key` pragma for a raw hex key: `x'<key>'`.
pub fn key_pragma(key: &str) -> (r: String)
    ensures
        r@ == "x'"@ + key@ + "'"@,
{
    let mut r = String::from_str("x'");
    r.append(key);
    r.append("'");
    r
}

/// A key the library generates is always one it accepts.
pub proof fn generated_keys_are_keys(bytes: Seq<u8>)
    requires
        bytes.len() == 32,
    ensures
        is_cache_key_text(hex_lower(bytes)),
{
    hex_lower_is_hex(bytes);
}

} // verus!
