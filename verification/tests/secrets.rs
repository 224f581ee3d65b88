use ynab_cli::cli::auth::{
    logged_in_line, logout_kinds, token_input, LoginSource, LOGGED_OUT_MESSAGE,
    NOT_LOGGED_IN_MESSAGE,
};
use ynab_cli::secrets::{all_kinds, SecretKind, LEGACY_OAUTH_KINDS, SERVICE};

#[test]
fn entry_names_are_fixed_and_distinct() {
    assert_eq!(SERVICE, "ynab-cli");
    assert_eq!(SecretKind::Pat.entry_name(), "pat");
    assert_eq!(SecretKind::Oauth.entry_name(), "oauth");
    assert_eq!(SecretKind::CacheKey.entry_name(), "cache-key");
    assert_eq!(SecretKind::LegacyOauthRefreshToken.entry_name(), "oauth-refresh-token");
    let names: Vec<&str> = all_kinds().into_iter().map(|k| k.entry_name()).collect();
    assert_eq!(names.len(), 7);
    for (i, a) in names.iter().enumerate() {
        for b in &names[i + 1..] {
            assert_ne!(a, b);
        }
    }
}

#[test]
fn logout_clears_every_kind_of_secret() {
    let kinds = logout_kinds();
    for k in all_kinds() {
        assert!(kinds.contains(&k));
    }
    assert_eq!(&kinds[3..], &LEGACY_OAUTH_KINDS[..]);
    assert_eq!(LOGGED_OUT_MESSAGE, "Logged out. Credentials and cached data removed.");
}

#[test]
fn pasted_token_is_trimmed_and_required() {
    assert_eq!(token_input("  tok-1 \n").unwrap(), "tok-1");
    assert_eq!(token_input("\n").unwrap_err().message(), "config error: no token provided");
}

#[test]
fn login_lines() {
    assert_eq!(logged_in_line(LoginSource::NewToken, "u-1"), "Logged in. YNAB user id: u-1");
    assert_eq!(logged_in_line(LoginSource::Pat, "u-1"), "Logged in (PAT). YNAB user id: u-1");
    assert_eq!(
        logged_in_line(LoginSource::Oauth, "u-1"),
        "Logged in (OAuth). YNAB user id: u-1"
    );
    assert_eq!(NOT_LOGGED_IN_MESSAGE, "Not logged in. Run `ynab auth login`.");
}
