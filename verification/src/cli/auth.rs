//! `auth login`, `auth status` and `auth logout`: the rules between the
//! prompts, the keychain and the API calls.

use vstd::prelude::*;
use crate::error::{Error, Result, is_config_error};
use crate::secrets::{SecretKind, kind_index};
use crate::text::{trim, trimmed};

verus! {

/// The personal access token typed or piped in: trimmed, and not blank.
pub fn token_input(raw: &str) -> (r: Result<String>)
    ensures
        trimmed(raw@).len() > 0 ==> (r matches Ok(s) && s@ == trimmed(raw@)),
        trimmed(raw@).len() == 0 ==> (r matches Err(e) && is_config_error(e, "no token provided"@)),
{
    let t = trim(raw);
    if t.unicode_len() == 0 {
        return Err(Error::Config(String::from_str("no token provided")));
    }
    Ok(t)
}

/// `auth status` without a stored personal access token: an OAuth token
/// means logged in; no OAuth material, or OAuth that cannot be refreshed,
/// means not logged in; any other failure is passed on.
pub fn oauth_status(token: Result<Option<String>>) -> (r: Result<String>)
    ensures
        match token {
            Ok(Some(t)) => r matches Ok(s) && s@ == t@,
            Ok(None) => r matches Err(e) && e is NotAuthenticated,
            Err(Error::NotAuthenticated) => r matches Err(e) && e is NotAuthenticated,
            Err(e0) => r matches Err(e) && e == e0,
        },
{
    match token {
        Ok(Some(t)) => Ok(t),
        Ok(None) => Err(Error::NotAuthenticated),
        Err(Error::NotAuthenticated) => Err(Error::NotAuthenticated),
        Err(e) => Err(e),
    }
}

/// How the user is logged in, as `auth login` and `auth status` report it.
#[derive(Debug, Clone, Copy, PartialEq, Eq, Structural)]
pub enum LoginSource {
    /// A personal access token that was just validated and stored.
    NewToken,
    /// The stored personal access token.
    Pat,
    /// The OAuth token.
    Oauth,
}

/// The line printed once the API has confirmed who the user is.
pub open spec fn logged_in_text(source: LoginSource, user_id: Seq<char>) -> Seq<char> {
    match source {
        LoginSource::NewToken => "Logged in. YNAB user id: "@ + user_id,
        LoginSource::Pat => "Logged in (PAT). YNAB user id: "@ + user_id,
        LoginSource::Oauth => "Logged in (OAuth). YNAB user id: "@ + user_id,
    }
}

/// The confirmation line for a logged-in user.
pub fn logged_in_line(source: LoginSource, user_id: &str) -> (r: String)
    ensures
        r@ == logged_in_text(source, user_id@),
{
    let mut s = match source {
        LoginSource::NewToken => String::from_str("Logged in. YNAB user id: "),
        LoginSource::Pat => String::from_str("Logged in (PAT). YNAB user id: "),
        LoginSource::Oauth => String::from_str("Logged in (OAuth). YNAB user id: "),
    };
    s.append(user_id);
    s
}

/// What `auth status` prints when nobody is logged in.
pub const NOT_LOGGED_IN_MESSAGE: &'static str = "Not logged in. Run `ynab auth login`.";

/// What `auth logout` prints when it is done.
pub const LOGGED_OUT_MESSAGE: &'static str = "Logged out. Credentials and cached data removed.";

/// The keychain entries `auth logout` deletes, in order.
pub open spec fn logout_list() -> Seq<SecretKind> {
    seq![
            SecretKind::Pat,
            SecretKind::Oauth,
            SecretKind::CacheKey,
            SecretKind::LegacyOauthClientId,
            SecretKind::LegacyOauthClientSecret,
            SecretKind::LegacyOauthAccessToken,
            SecretKind::LegacyOauthRefreshToken,
        ]
}

/// The keychain entries `auth logout` deletes: the personal access token,
/// the OAuth state and the cache key, then every legacy OAuth entry.
pub fn logout_kinds() -> (r: Vec<SecretKind>)
    ensures
        r@ == logout_list(),
{
    let mut v: Vec<SecretKind> = Vec::new();
    v.push(SecretKind::Pat);
    v.push(SecretKind::Oauth);
    v.push(SecretKind::CacheKey);
    let mut i: usize = 0;
    while i < 4
        invariant
            i <= 4,
            v@ == seq![SecretKind::Pat, SecretKind::Oauth, SecretKind::CacheKey]
                + crate::secrets::LEGACY_OAUTH_KINDS@.take(i as int),
        decreases 4 - i,
    {
        v.push(crate::secrets::LEGACY_OAUTH_KINDS[i]);
        i = i + 1;
        assert(v@ =~= seq![SecretKind::Pat, SecretKind::Oauth, SecretKind::CacheKey]
            + crate::secrets::LEGACY_OAUTH_KINDS@.take(i as int));
    }
    assert(crate::secrets::LEGACY_OAUTH_KINDS@.take(4) =~= seq![
        SecretKind::LegacyOauthClientId,
        SecretKind::LegacyOauthClientSecret,
        SecretKind::LegacyOauthAccessToken,
        SecretKind::LegacyOauthRefreshToken,
    ]);
    v
}

/// Logout leaves nothing behind: every kind of secret is among the
/// entries it deletes.
pub proof fn logout_clears_every_kind(kind: SecretKind)
    ensures
        logout_list().contains(kind),
{
    assert(logout_list()[kind_index(kind) as int] == kind);
}

} // verus!
