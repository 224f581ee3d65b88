use ynab_cli::auth::oauth::{
    authorize_request, authorize_url_str, bad_url, UrlField, client_id_input, client_secret_input, expires_in_or_fallback,
    login_refresh_token, migrated_state, needs_migration, oauth_base_url, oauth_port, parse_u16,
    redirect_uri_str, refreshed_state, stored_app_credentials, token_step, token_url_str,
    with_app_credentials, with_tokens, AppCredentials, OauthState, TokenStep, DEFAULT_PORT,
};
use ynab_cli::auth::{unix_now, unix_seconds};
use ynab_cli::error::Error;

#[test]
fn app_credentials_and_tokens_share_one_entry() {
    let state = OauthState {
        client_id: Some("client-1".to_string()),
        client_secret: Some("secret-1".to_string()),
        ..OauthState::default()
    };
    let state = with_tokens(state, "access-abc", 3600, "refresh-xyz", 1_000_000);
    assert_eq!(state.client_id.as_deref(), Some("client-1"));
    assert_eq!(state.client_secret.as_deref(), Some("secret-1"));
    assert_eq!(state.access_token.as_deref(), Some("access-abc"));
    assert_eq!(state.refresh_token.as_deref(), Some("refresh-xyz"));
    assert_eq!(state.expires_at, Some(1_000_000 + 3600 - 60));
}

#[test]
fn stored_token_is_current_until_the_leeway() {
    let state = with_tokens(OauthState::default(), "a", 3600, "r", 1000);
    match token_step(&state, 1000) {
        TokenStep::Current(t) => assert_eq!(t, "a"),
        other => panic!("unexpected {other:?}"),
    }
    // expires_at = 4540; current while expires_at > now + 300.
    assert!(matches!(token_step(&state, 4239), TokenStep::Current(_)));
    assert!(matches!(token_step(&state, 4240), TokenStep::NotAuthenticated));
}

#[test]
fn no_oauth_material_means_no_oauth() {
    assert!(matches!(token_step(&OauthState::default(), 0), TokenStep::NoOauth));
    let only_creds = OauthState {
        client_id: Some("c".into()),
        client_secret: Some("s".into()),
        ..OauthState::default()
    };
    assert!(matches!(token_step(&only_creds, 0), TokenStep::NoOauth));
}

#[test]
fn expired_token_refreshes_with_stored_credentials() {
    let state = OauthState {
        client_id: Some("client-1".to_string()),
        client_secret: Some("secret-1".to_string()),
        access_token: Some("old-access".to_string()),
        expires_at: Some(990),
        refresh_token: Some("old-refresh".to_string()),
    };
    match token_step(&state, 1000) {
        TokenStep::Refresh { credentials, refresh_token } => {
            assert_eq!(credentials.client_id, "client-1");
            assert_eq!(credentials.client_secret, "secret-1");
            assert_eq!(refresh_token, "old-refresh");
        }
        other => panic!("unexpected {other:?}"),
    }
    let (next, token) =
        refreshed_state(state, "new-access", Some(7200), Some("new-refresh"), 1000).unwrap();
    assert_eq!(token, "new-access");
    assert_eq!(next.refresh_token.as_deref(), Some("new-refresh"));
    assert_eq!(next.client_id.as_deref(), Some("client-1"));
    assert_eq!(next.expires_at, Some(1000 + 7200 - 60));
}

#[test]
fn refresh_without_new_refresh_token_fails() {
    let state = OauthState {
        refresh_token: Some("spent".into()),
        ..OauthState::default()
    };
    assert!(matches!(
        refreshed_state(state, "a", Some(10), None, 0),
        Err(Error::NotAuthenticated)
    ));
    let (s, _) = refreshed_state(OauthState::default(), "a", None, Some("r"), 0).unwrap();
    assert_eq!(s.expires_at, Some(7200 - 60));
    assert_eq!(expires_in_or_fallback(None), 7200);
    assert_eq!(expires_in_or_fallback(Some(5)), 5);
}

#[test]
fn login_needs_a_refresh_token() {
    assert_eq!(login_refresh_token(Some("r")).unwrap(), "r");
    assert_eq!(
        login_refresh_token(None).unwrap_err().message(),
        "config error: OAuth server did not return a refresh token"
    );
}

#[test]
fn stored_app_credentials_unless_reset() {
    let state = OauthState {
        client_id: Some("c".into()),
        client_secret: Some("s".into()),
        ..OauthState::default()
    };
    let creds = stored_app_credentials(&state, false).unwrap();
    assert_eq!(creds.client_id, "c");
    assert_eq!(creds.client_secret, "s");
    assert!(stored_app_credentials(&state, true).is_none());
    let half = OauthState {
        client_id: Some("c".into()),
        ..OauthState::default()
    };
    assert!(stored_app_credentials(&half, false).is_none());
    let with = with_app_credentials(
        OauthState {
            refresh_token: Some("r".into()),
            ..OauthState::default()
        },
        AppCredentials {
            client_id: "new-c".into(),
            client_secret: "new-s".into(),
        },
    );
    assert_eq!(with.client_id.as_deref(), Some("new-c"));
    assert_eq!(with.refresh_token.as_deref(), Some("r"));
}

#[test]
fn legacy_entries_migrate_into_one_state() {
    assert!(needs_migration(true, false));
    assert!(needs_migration(false, true));
    assert!(!needs_migration(false, false));
    let s = migrated_state(
        Some("client-1".into()),
        Some("secret-1".into()),
        Some(("legacy-access".into(), 5000)),
        Some("legacy-refresh".into()),
    );
    assert_eq!(s.client_id.as_deref(), Some("client-1"));
    assert_eq!(s.client_secret.as_deref(), Some("secret-1"));
    assert_eq!(s.access_token.as_deref(), Some("legacy-access"));
    assert_eq!(s.expires_at, Some(5000));
    assert_eq!(s.refresh_token.as_deref(), Some("legacy-refresh"));
    let s = migrated_state(None, None, None, Some("r".into()));
    assert!(s.access_token.is_none());
    assert!(s.expires_at.is_none());
}

#[test]
fn prompts_trim_and_refuse_blank() {
    assert_eq!(client_id_input("  id \n").unwrap(), "id");
    assert_eq!(
        client_id_input(" \t").unwrap_err().message(),
        "config error: no OAuth client ID provided"
    );
    assert_eq!(client_secret_input("s\n").unwrap(), "s");
    assert_eq!(
        client_secret_input("").unwrap_err().message(),
        "config error: no OAuth client secret provided"
    );
}

#[test]
fn endpoints_and_redirect() {
    assert_eq!(oauth_base_url(None), "https://app.ynab.com");
    assert_eq!(oauth_base_url(Some("http://127.0.0.1:9")), "http://127.0.0.1:9");
    assert_eq!(authorize_url_str("https://app.ynab.com"), "https://app.ynab.com/oauth/authorize");
    assert_eq!(token_url_str("https://app.ynab.com"), "https://app.ynab.com/oauth/token");
    assert_eq!(redirect_uri_str(DEFAULT_PORT), "http://localhost:53682/callback");
    assert_eq!(redirect_uri_str(8080), "http://localhost:8080/callback");
}

#[test]
fn port_override_parses_like_u16() {
    assert_eq!(parse_u16("8080"), Some(8080));
    assert_eq!(parse_u16("+80"), Some(80));
    assert_eq!(parse_u16("65535"), Some(65535));
    assert_eq!(parse_u16("65536"), None);
    assert_eq!(parse_u16(""), None);
    assert_eq!(parse_u16("+"), None);
    assert_eq!(parse_u16("-1"), None);
    assert_eq!(parse_u16(" 80"), None);
    assert_eq!(oauth_port(None), 53682);
    assert_eq!(oauth_port(Some("9000")), 9000);
    assert_eq!(oauth_port(Some("nope")), 53682);
}

#[test]
fn clock_reads_unix_seconds() {
    assert_eq!(unix_seconds(None), 0);
    assert_eq!(unix_seconds(Some(1_700_000_000)), 1_700_000_000);
    assert!(unix_now() > 1_600_000_000);
}

#[test]
fn authorize_request_always_asks_for_read_only() {
    let (url, state) = authorize_request(
        "client-1",
        "https://app.ynab.com/oauth/authorize",
        "http://localhost:53682/callback",
    )
    .unwrap();
    assert!(url.starts_with("https://app.ynab.com/oauth/authorize?"));
    assert!(!state.is_empty());
    let parsed = oauth2::url::Url::parse(&url).unwrap();
    let pairs: Vec<(String, String)> = parsed.query_pairs().into_owned().collect();
    assert_eq!(
        pairs,
        vec![
            ("response_type".to_string(), "code".to_string()),
            ("client_id".to_string(), "client-1".to_string()),
            ("state".to_string(), state.clone()),
            ("redirect_uri".to_string(), "http://localhost:53682/callback".to_string()),
            ("scope".to_string(), "read-only".to_string()),
        ]
    );
    let (_, other_state) = authorize_request(
        "client-1",
        "https://app.ynab.com/oauth/authorize",
        "http://localhost:53682/callback",
    )
    .unwrap();
    assert_ne!(state, other_state);
}

#[test]
fn unparsable_oauth_urls_are_config_errors() {
    let e = authorize_request("c", "not a url", "http://localhost:1/callback").unwrap_err();
    assert!(e.message().starts_with("config error: invalid OAuth authorize URL: "));
    let e = authorize_request("c", "https://app.ynab.com/oauth/authorize", "nope").unwrap_err();
    assert!(e.message().starts_with("config error: invalid OAuth redirect URL: "));
    assert_eq!(
        bad_url(UrlField::Token, "empty host".into()).message(),
        "config error: invalid OAuth token URL: empty host"
    );
}

#[test]
fn login_prompt_shows_the_url() {
    assert_eq!(
        ynab_cli::auth::oauth::login_prompt("https://x/oauth/authorize?a=b"),
        "Open this URL to authorize ynab-cli:\nhttps://x/oauth/authorize?a=b"
    );
}
