//! The keychain entries the program keeps: one per kind of secret, under one
//! service name. Reading and writing the keychain happens in the program
//! around the library.

use vstd::prelude::*;

verus! {

/// The keychain service every entry is stored under.
pub const SERVICE: &'static str = "ynab-cli";

/// The kinds of secret, each kept in a keychain entry of its own.
#[derive(Debug, Clone, Copy, PartialEq, Eq, Structural)]
pub enum SecretKind {
    Pat,
    /// All OAuth state (app credentials plus the token pair) as one JSON
    /// document: keychain ACLs are per item, so one entry means one grant.
    Oauth,
    CacheKey,
    /// Written by installs that predate the single-entry `Oauth` layout;
    /// only the migration reads them, and it and logout delete them.
    LegacyOauthClientId,
    LegacyOauthClientSecret,
    LegacyOauthAccessToken,
    LegacyOauthRefreshToken,
}

/// Every legacy entry, in one place so migration and logout cannot drift.
pub const LEGACY_OAUTH_KINDS: [SecretKind; 4] = [
    SecretKind::LegacyOauthClientId,
    SecretKind::LegacyOauthClientSecret,
    SecretKind::LegacyOauthAccessToken,
    SecretKind::LegacyOauthRefreshToken,
];

/// The keychain entry name of each kind.
pub open spec fn entry_name_spec(kind: SecretKind) -> Seq<char> {
    match kind {
        SecretKind::Pat => "pat"@,
        SecretKind::Oauth => "oauth"@,
        SecretKind::CacheKey => "cache-key"@,
        SecretKind::LegacyOauthClientId => "oauth-client-id"@,
        SecretKind::LegacyOauthClientSecret => "oauth-client-secret"@,
        SecretKind::LegacyOauthAccessToken => "oauth-access-token"@,
        SecretKind::LegacyOauthRefreshToken => "oauth-refresh-token"@,
    }
}

/// The position of each kind in declaration order.
pub open spec fn kind_index(kind: SecretKind) -> nat {
    match kind {
        SecretKind::Pat => 0,
        SecretKind::Oauth => 1,
        SecretKind::CacheKey => 2,
        SecretKind::LegacyOauthClientId => 3,
        SecretKind::LegacyOauthClientSecret => 4,
        SecretKind::LegacyOauthAccessToken => 5,
        SecretKind::LegacyOauthRefreshToken => 6,
    }
}

impl SecretKind {
    /// The keychain entry name of this kind.
    pub fn entry_name(self) -> (r: &'static str)
        ensures
            r@ == entry_name_spec(self),
    {
        match self {
            SecretKind::Pat => "pat",
            SecretKind::Oauth => "oauth",
            SecretKind::CacheKey => "cache-key",
            SecretKind::LegacyOauthClientId => "oauth-client-id",
            SecretKind::LegacyOauthClientSecret => "oauth-client-secret",
            SecretKind::LegacyOauthAccessToken => "oauth-access-token",
            SecretKind::LegacyOauthRefreshToken => "oauth-refresh-token",
        }
    }

    /// The position of this kind in declaration order (0..7), which indexes
    /// the store's table of entries.
    pub fn index(self) -> (r: usize)
        ensures
            r == kind_index(self),
            r < 7,
    {
        match self {
            SecretKind::Pat => 0,
            SecretKind::Oauth => 1,
            SecretKind::CacheKey => 2,
            SecretKind::LegacyOauthClientId => 3,
            SecretKind::LegacyOauthClientSecret => 4,
            SecretKind::LegacyOauthAccessToken => 5,
            SecretKind::LegacyOauthRefreshToken => 6,
        }
    }
}

/// Every kind, in declaration order.
pub fn all_kinds() -> (r: Vec<SecretKind>)
    ensures
        r@.len() == 7,
        forall|i: int| 0 <= i < 7 ==> kind_index(#[trigger] r@[i]) == i,
{
    let mut v: Vec<SecretKind> = Vec::new();
    v.push(SecretKind::Pat);
    v.push(SecretKind::Oauth);
    v.push(SecretKind::CacheKey);
    v.push(SecretKind::LegacyOauthClientId);
    v.push(SecretKind::LegacyOauthClientSecret);
    v.push(SecretKind::LegacyOauthAccessToken);
    v.push(SecretKind::LegacyOauthRefreshToken);
    v
}

/// Kinds are separate entries: no two kinds share an entry name.
pub proof fn entry_names_are_distinct(a: SecretKind, b: SecretKind)
    requires
        a != b,
    ensures
        entry_name_spec(a) != entry_name_spec(b),
{
    reveal_strlit("pat");
    reveal_strlit("oauth");
    reveal_strlit("cache-key");
    reveal_strlit("oauth-client-id");
    reveal_strlit("oauth-client-secret");
    reveal_strlit("oauth-access-token");
    reveal_strlit("oauth-refresh-token");
    if entry_name_spec(a) == entry_name_spec(b) {
        let x = entry_name_spec(a);
        assert(x[0] == entry_name_spec(b)[0]);
        if x.len() > 6 {
            assert(x[6] == entry_name_spec(b)[6]);
        }
        if x.len() > 1 {
            assert(x[1] == entry_name_spec(b)[1]);
        }
    }
}

} // verus!
