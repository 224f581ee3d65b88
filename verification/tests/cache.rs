use ynab_cli::cache::sync::{
    entity_pairs, envelope_knowledge, sync_path, sync_plan, Resource,
};
use ynab_cli::cache::{generated_key, is_cache_key, key_choice, key_pragma, KeyChoice, BAD_ENV_KEY_MESSAGE};
use ynab_cli::cli::cache_cmd::{
    default_budget_tip, status_headline, status_table_rows, CacheState, DEFAULT_BUDGET_TIP,
};
use ynab_cli::config::Config;
use ynab_cli::error::Error;

const KEY: &str = "00112233445566778899aabbccddeeff00112233445566778899AABBCCDDEEFF";

#[test]
fn env_key_overrides_keychain_when_valid() {
    match key_choice(Some(KEY), Some("kc".into())).unwrap() {
        KeyChoice::Environment(k) => assert_eq!(k, KEY),
        other => panic!("unexpected {other:?}"),
    }
    match key_choice(Some(&format!("  {KEY}\n")), None).unwrap() {
        KeyChoice::Environment(k) => assert_eq!(k, KEY),
        other => panic!("unexpected {other:?}"),
    }
}

#[test]
fn bad_env_key_is_a_cache_error() {
    let e = key_choice(Some("not-hex"), Some("kc".into())).unwrap_err();
    assert!(matches!(e, Error::Cache(ref m) if m == BAD_ENV_KEY_MESSAGE));
    let e = key_choice(Some(&KEY[..63]), None).unwrap_err();
    assert!(matches!(e, Error::Cache(_)));
}

#[test]
fn keychain_then_generate() {
    assert!(matches!(key_choice(None, Some("kc".into())).unwrap(), KeyChoice::Keychain(ref k) if k == "kc"));
    assert!(matches!(key_choice(Some("  "), Some("kc".into())).unwrap(), KeyChoice::Keychain(_)));
    assert!(matches!(key_choice(None, None).unwrap(), KeyChoice::Generate));
}

#[test]
fn generated_key_is_lowercase_hex_of_the_bytes() {
    let mut bytes = [0u8; 32];
    for (i, b) in bytes.iter_mut().enumerate() {
        *b = (i as u8) * 8 + 1;
    }
    let k = generated_key(&bytes);
    assert_eq!(k.len(), 64);
    assert!(k.starts_with("01091119"));
    assert!(k.ends_with("f9"));
    assert!(is_cache_key(&k));
    assert_eq!(key_pragma("ab"), "x'ab'");
    assert!(!is_cache_key("zz"));
}

#[test]
fn sync_plans() {
    let p = sync_plan(Resource::Accounts, Some(5));
    assert_eq!(p.last_knowledge, Some(5));
    assert!(!p.replace);
    assert_eq!(p.order_field, Some("$.name"));
    let p = sync_plan(Resource::Transactions, None);
    assert_eq!(p.order_field, Some("$.date"));
    assert!(!p.replace);
    let p = sync_plan(Resource::CategoryGroups, Some(5));
    assert_eq!(p.last_knowledge, None);
    assert!(p.replace);
    assert_eq!(p.order_field, None);
    assert_eq!(Resource::CategoryGroups.name(), "category_groups");
}

#[test]
fn transactions_sync_never_sends_since_date() {
    assert_eq!(
        sync_path(Resource::Transactions, "b-1", Some(7)),
        "/budgets/b-1/transactions?last_knowledge_of_server=7"
    );
    assert_eq!(
        sync_path(Resource::CategoryGroups, "b-1", Some(7)),
        "/budgets/b-1/categories"
    );
    assert_eq!(
        sync_path(Resource::Payees, "b-1", None),
        "/budgets/b-1/payees"
    );
}

#[test]
fn entities_without_ids_are_skipped() {
    let pairs = entity_pairs(vec![
        (Some("a".to_string()), 1),
        (None, 2),
        (Some("c".to_string()), 3),
    ]);
    assert_eq!(pairs, vec![("a".to_string(), 1), ("c".to_string(), 3)]);
    assert_eq!(envelope_knowledge(None), 0);
    assert_eq!(envelope_knowledge(Some(12)), 12);
}

#[test]
fn cache_status_lines() {
    assert_eq!(status_headline("/tmp/c.db", CacheState::Missing), "Cache: empty (/tmp/c.db)");
    assert_eq!(
        status_headline("/tmp/c.db", CacheState::Unreadable),
        "Cache: unreadable, will be rebuilt on next use (/tmp/c.db)"
    );
    assert_eq!(
        status_headline("/tmp/c.db", CacheState::Present { size: 4096 }),
        "Cache: /tmp/c.db (4096 bytes)"
    );
    let rows = status_table_rows(vec![("b-1".into(), "transactions".into(), 10, 2)]);
    assert_eq!(rows, vec![vec!["b-1", "transactions", "10", "2"]]);
}

#[test]
fn default_budget_tip_only_when_relevant() {
    assert_eq!(default_budget_tip(&Config::default()), Some(DEFAULT_BUDGET_TIP));
    let with_budget = Config {
        cache: None,
        default_budget: Some("b-1".into()),
    };
    assert_eq!(default_budget_tip(&with_budget), None);
    let off = Config {
        cache: Some(false),
        default_budget: None,
    };
    assert_eq!(default_budget_tip(&off), None);
}

#[test]
fn cache_status_report_shapes() {
    let r = ynab_cli::cli::cache_cmd::status_report("/c.db".into(), CacheState::Missing, vec![]);
    assert_eq!(r.path, "/c.db");
    assert!(!r.exists);
    assert!(r.readable.is_none() && r.size_bytes.is_none() && r.resources.is_none());
    let r = ynab_cli::cli::cache_cmd::status_report("/c.db".into(), CacheState::Unreadable, vec![]);
    assert!(r.exists);
    assert_eq!(r.readable, Some(false));
    assert!(r.size_bytes.is_none() && r.resources.is_none());
    let r = ynab_cli::cli::cache_cmd::status_report(
        "/c.db".into(),
        CacheState::Present { size: 4096 },
        vec![("b-1".into(), "transactions".into(), 10, 2)],
    );
    assert!(r.exists);
    assert!(r.readable.is_none());
    assert_eq!(r.size_bytes, Some(4096));
    let res = r.resources.unwrap();
    assert_eq!(res.len(), 1);
    assert_eq!(res[0].budget_id, "b-1");
    assert_eq!(res[0].resource, "transactions");
    assert_eq!(res[0].server_knowledge, 10);
    assert_eq!(res[0].entities, 2);
}
