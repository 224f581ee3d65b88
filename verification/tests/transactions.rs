use ynab_cli::api::types::Transaction;
use ynab_cli::cli::transactions::{
    checked_date, filtered_raw_transactions, format_iso_date, keep, matches_filters, name_or_id, normalize_date, normalize_filters,
    transaction_rows, truncate_memo, Filters,
};
use ynab_cli::cli::TransactionsCommand;
use ynab_cli::error::Error;

fn tx() -> Transaction {
    Transaction {
        id: "t-1".into(),
        date: "2026-07-15".into(),
        amount: -12340,
        memo: Some("weekly shop".into()),
        approved: true,
        account_id: "a-1".into(),
        account_name: Some("Chequing".into()),
        payee_id: Some("p-1".into()),
        payee_name: Some("Corner Grocer".into()),
        category_id: Some("c-1".into()),
        category_name: Some("Groceries".into()),
        deleted: false,
    }
}

#[test]
fn keep_defaults_true_and_skips_deleted() {
    let f = Filters::default();
    assert!(keep(&tx(), &f));
    let mut dead = tx();
    dead.deleted = true;
    assert!(!keep(&dead, &f));
}

#[test]
fn until_is_inclusive_lexicographic() {
    let f = Filters {
        until: Some("2026-07-15".into()),
        ..Default::default()
    };
    assert!(keep(&tx(), &f));
    let f = Filters {
        until: Some("2026-07-14".into()),
        ..Default::default()
    };
    assert!(!keep(&tx(), &f));
}

#[test]
fn payee_matches_id_or_name_substring() {
    let f = Filters {
        payee: Some("p-1".into()),
        ..Default::default()
    };
    assert!(keep(&tx(), &f));
    let f = Filters {
        payee: Some("grocer".into()),
        ..Default::default()
    };
    assert!(keep(&tx(), &f));
    let f = Filters {
        payee: Some("landlord".into()),
        ..Default::default()
    };
    assert!(!keep(&tx(), &f));
}

#[test]
fn uncategorized_and_unapproved() {
    let f = Filters {
        uncategorized: true,
        ..Default::default()
    };
    assert!(!keep(&tx(), &f));
    let mut t = tx();
    t.category_id = None;
    assert!(keep(&t, &f));

    let f = Filters {
        unapproved: true,
        ..Default::default()
    };
    assert!(!keep(&tx(), &f));
    let mut t = tx();
    t.approved = false;
    assert!(keep(&t, &f));
}

#[test]
fn date_validation() {
    assert!(normalize_date("2026-07-01", "--since").is_ok());
    let err = normalize_date("07/01/2026", "--since").unwrap_err();
    assert_eq!(
        err.message(),
        "config error: --since must be an ISO date (YYYY-MM-DD)"
    );
    assert_eq!(normalize_date("2026-7-1", "--since").unwrap(), "2026-07-01");
}

#[test]
fn deleted_fails_keep_but_passes_matches_filters() {
    let f = Filters::default();
    let mut dead = tx();
    dead.deleted = true;
    assert!(!keep(&dead, &f));
    assert!(matches_filters(&dead, &f));
}

#[test]
fn since_is_inclusive_lexicographic() {
    let f = Filters {
        since: Some("2026-07-15".into()),
        ..Default::default()
    };
    assert!(keep(&tx(), &f));
    let f = Filters {
        since: Some("2026-07-16".into()),
        ..Default::default()
    };
    assert!(!keep(&tx(), &f));
}

#[test]
fn filters_combine_with_and_on_concrete_values() {
    let both = Filters {
        payee: Some("grocer".into()),
        account: Some("savings".into()),
        ..Default::default()
    };
    assert!(!keep(&tx(), &both));
    let both = Filters {
        payee: Some("grocer".into()),
        account: Some("a-1".into()),
        category: Some("GROCERIES".into()),
        ..Default::default()
    };
    assert!(keep(&tx(), &both));
}

#[test]
fn name_match_ignores_case_both_ways() {
    assert!(name_or_id("CORNER", None, Some("Corner Grocer")));
    assert!(name_or_id("corner", None, Some("CORNER GROCER")));
    assert!(!name_or_id("p-1", Some("p-2"), None));
    assert!(name_or_id("p-2", Some("p-2"), None));
    assert!(!name_or_id("Corner", Some("corner"), None));
}

#[test]
fn normalize_filters_checks_since_before_until() {
    let f = Filters {
        since: Some("nope".into()),
        until: Some("also nope".into()),
        ..Default::default()
    };
    let e = normalize_filters(f).unwrap_err();
    assert_eq!(e.message(), "config error: --since must be an ISO date (YYYY-MM-DD)");

    let f = Filters {
        since: Some("2026-7-1".into()),
        until: Some("yesterday".into()),
        ..Default::default()
    };
    let e = normalize_filters(f).unwrap_err();
    assert!(matches!(e, Error::Config(ref m) if m == "--until must be an ISO date (YYYY-MM-DD)"));

    let f = Filters {
        since: Some("2026-7-1".into()),
        until: Some("2026-12-31".into()),
        payee: Some("grocer".into()),
        unapproved: true,
        ..Default::default()
    };
    let g = normalize_filters(f).unwrap();
    assert_eq!(g.since.as_deref(), Some("2026-07-01"));
    assert_eq!(g.until.as_deref(), Some("2026-12-31"));
    assert_eq!(g.payee.as_deref(), Some("grocer"));
    assert!(g.unapproved);
    assert!(!g.uncategorized);
}

#[test]
fn memo_is_cut_at_forty_characters() {
    assert_eq!(truncate_memo(&None), "-");
    assert_eq!(truncate_memo(&Some("short".into())), "short");
    let forty = "a".repeat(40);
    assert_eq!(truncate_memo(&Some(forty.clone())), forty);
    let long = format!("{}tail", "é".repeat(40));
    assert_eq!(truncate_memo(&Some(long)), format!("{}…", "é".repeat(40)));
}

#[test]
fn rows_hide_deleted_and_fill_dashes() {
    let mut dead = tx();
    dead.deleted = true;
    let mut bare = tx();
    bare.account_name = None;
    bare.payee_name = None;
    bare.category_name = None;
    bare.memo = None;
    bare.amount = 100500;
    let rows = transaction_rows(&vec![tx(), dead, bare], &Filters::default());
    assert_eq!(
        rows,
        vec![
            vec![
                "2026-07-15".to_string(),
                "Chequing".into(),
                "Corner Grocer".into(),
                "Groceries".into(),
                "weekly shop".into(),
                "-12.34".into()
            ],
            vec![
                "2026-07-15".to_string(),
                "-".into(),
                "-".into(),
                "-".into(),
                "-".into(),
                "100.50".into()
            ],
        ]
    );
}

#[test]
fn json_selection_keeps_deleted_and_pairs_in_order() {
    let mut dead = tx();
    dead.deleted = true;
    dead.category_id = None;
    let parsed = vec![tx(), dead];
    let raw = vec!["t-1", "t-2"];
    let f = Filters {
        uncategorized: true,
        ..Default::default()
    };
    assert_eq!(filtered_raw_transactions(raw.clone(), &parsed, &f), vec!["t-2"]);
    assert_eq!(
        filtered_raw_transactions(raw.clone(), &parsed, &Filters::default()),
        vec!["t-1", "t-2"]
    );
    assert_eq!(
        filtered_raw_transactions(raw, &parsed[..1].to_vec(), &Filters::default()),
        vec!["t-1"]
    );
}

#[test]
fn command_flags_become_filters() {
    let cmd = TransactionsCommand::List {
        since: Some("2026-01-01".into()),
        until: None,
        payee: None,
        account: Some("a-1".into()),
        category: None,
        uncategorized: true,
        unapproved: false,
    };
    let f = cmd.into_filters();
    assert_eq!(f.since.as_deref(), Some("2026-01-01"));
    assert_eq!(f.account.as_deref(), Some("a-1"));
    assert!(f.uncategorized);
    assert!(!f.unapproved);
}

#[test]
fn date_outcome_follows_the_parse() {
    assert_eq!(checked_date(Some((2026, 7, 1)), "--until").unwrap(), "2026-07-01");
    let e = checked_date(None, "--until").unwrap_err();
    assert_eq!(e.message(), "config error: --until must be an ISO date (YYYY-MM-DD)");
}

#[test]
fn dates_render_like_chrono_year_padding() {
    assert_eq!(format_iso_date(2026, 7, 1), "2026-07-01");
    assert_eq!(format_iso_date(33, 1, 2), "0033-01-02");
    assert_eq!(format_iso_date(0, 12, 31), "0000-12-31");
    assert_eq!(format_iso_date(12345, 12, 31), "+12345-12-31");
    assert_eq!(format_iso_date(-5, 1, 2), "-0005-01-02");
    assert_eq!(normalize_date("33-1-2", "--since").unwrap(), "0033-01-02");
}
