use ynab_cli::cli::config_cmd::get;
use ynab_cli::config::{parse_bool, Config, VALID_KEYS};

#[test]
fn defaults_when_missing() {
    let cfg = Config::default();
    assert!(cfg.cache_enabled());
    assert!(cfg.default_budget.is_none());
}

#[test]
fn key_access() {
    let cfg = Config::default();
    assert_eq!(cfg.get_key("cache").unwrap(), None);
    let cfg = cfg.with_key("cache", "false").unwrap();
    assert_eq!(cfg.get_key("cache").unwrap().as_deref(), Some("false"));
    let cfg = cfg.with_key("default_budget", "b-9").unwrap();
    assert_eq!(cfg.get_key("default_budget").unwrap().as_deref(), Some("b-9"));

    assert!(cfg.get_key("nope").is_err());
    assert!(cfg.clone().with_key("cache", "maybe").is_err());
}

#[test]
fn unknown_key_message_lists_valid_keys() {
    let e = Config::default().get_key("colour").unwrap_err();
    assert_eq!(
        e.message(),
        "config error: unknown key: colour (valid keys: cache, default_budget)"
    );
    let e = Config::default().with_key("colour", "red").unwrap_err();
    assert_eq!(
        e.message(),
        "config error: unknown key: colour (valid keys: cache, default_budget)"
    );
    assert_eq!(VALID_KEYS, ["cache", "default_budget"]);
}

#[test]
fn cache_flag_accepts_only_true_or_false() {
    let e = Config::default().with_key("cache", "TRUE").unwrap_err();
    assert_eq!(e.message(), "config error: cache must be true or false");
    assert_eq!(parse_bool("true"), Some(true));
    assert_eq!(parse_bool("false"), Some(false));
    assert_eq!(parse_bool(" true"), None);
    let cfg = Config::default().with_key("cache", "false").unwrap();
    assert!(!cfg.cache_enabled());
}

#[test]
fn set_then_get_on_concrete_values() {
    let cfg = Config::default();
    let (cfg, line) = ynab_cli::cli::config_cmd::set(cfg, "default_budget", "b-1").unwrap();
    assert_eq!(line, "default_budget = b-1");
    assert_eq!(get(&cfg, "default_budget").unwrap(), "b-1");
    assert_eq!(get(&cfg, "cache").unwrap(), "<unset>");
    let (cfg, line) = ynab_cli::cli::config_cmd::set(cfg, "cache", "true").unwrap();
    assert_eq!(line, "cache = true");
    assert_eq!(get(&cfg, "cache").unwrap(), "true");
    assert_eq!(get(&cfg, "default_budget").unwrap(), "b-1");
    assert!(ynab_cli::cli::config_cmd::set(cfg.clone(), "cache", "yes").is_err());
    assert!(get(&cfg, "secrets").is_err());
}
