use ynab_cli::cli::auth::oauth_status;
use ynab_cli::cli::context::{cache_wanted, resolve_budget, resolve_token};
use ynab_cli::config::Config;
use ynab_cli::error::Error;

#[test]
fn budget_resolution_order() {
    let cfg = Config {
        cache: None,
        default_budget: Some("cfg-b".into()),
    };
    assert_eq!(resolve_budget(Some("flag-b"), &cfg), "flag-b");
    assert_eq!(resolve_budget(None, &cfg), "cfg-b");
    let empty = Config::default();
    assert_eq!(resolve_budget(None, &empty), "last-used");
}

#[test]
fn token_prefers_keychain_when_no_env() {
    let tok = resolve_token(None, Some("kc-tok".to_string())).unwrap();
    assert_eq!(tok, "kc-tok");
}

#[test]
fn token_missing_is_not_authenticated() {
    let err = resolve_token(None, None).unwrap_err();
    assert!(matches!(err, Error::NotAuthenticated));
}

#[test]
fn env_token_is_trimmed_and_wins_unless_blank() {
    assert_eq!(
        resolve_token(Some("  env-tok\n"), Some("kc-tok".into())).unwrap(),
        "env-tok"
    );
    assert_eq!(
        resolve_token(Some("   "), Some("kc-tok".into())).unwrap(),
        "kc-tok"
    );
    assert!(matches!(
        resolve_token(Some(""), None),
        Err(Error::NotAuthenticated)
    ));
}

#[test]
fn oauth_is_the_last_token_source() {
    assert_eq!(oauth_status(Ok(Some("oa".into()))).unwrap(), "oa");
    assert!(matches!(oauth_status(Ok(None)), Err(Error::NotAuthenticated)));
    assert!(matches!(
        oauth_status(Err(Error::NotAuthenticated)),
        Err(Error::NotAuthenticated)
    ));
    assert!(matches!(
        oauth_status(Err(Error::Http("down".into()))),
        Err(Error::Http(ref m)) if m == "down"
    ));
}

#[test]
fn cache_only_for_concrete_budgets() {
    let on = Config::default();
    let off = Config {
        cache: Some(false),
        default_budget: None,
    };
    assert!(cache_wanted(&on, false, "b-1"));
    assert!(!cache_wanted(&on, true, "b-1"));
    assert!(!cache_wanted(&off, false, "b-1"));
    assert!(!cache_wanted(&on, false, "last-used"));
    let budget = resolve_budget(None, &on);
    assert!(!cache_wanted(&on, false, &budget));
}
