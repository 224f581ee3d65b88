use ynab_cli::api::types::{Account, Budget, Category, CategoryGroup, Payee};
use ynab_cli::cli::accounts::account_rows;
use ynab_cli::cli::budgets::budget_rows;
use ynab_cli::cli::categories::category_rows;
use ynab_cli::cli::payees::payee_rows;

fn account(name: &str, closed: bool, deleted: bool) -> Account {
    Account {
        id: format!("id-{name}"),
        name: name.into(),
        kind: "checking".into(),
        on_budget: true,
        closed,
        balance: 100500,
        deleted,
    }
}

fn category(name: &str, deleted: bool) -> Category {
    Category {
        id: format!("id-{name}"),
        name: name.into(),
        hidden: false,
        budgeted: 1_500_000,
        activity: -1_500_000,
        balance: 0,
        deleted,
    }
}

#[test]
fn account_rows_hide_deleted() {
    let rows = account_rows(&vec![
        account("Chequing", false, false),
        account("Old", true, true),
        account("Savings", true, false),
    ]);
    assert_eq!(
        rows,
        vec![
            vec!["Chequing", "checking", "100.50", "no"],
            vec!["Savings", "checking", "100.50", "yes"],
        ]
    );
}

#[test]
fn payee_rows_hide_deleted() {
    let rows = payee_rows(&vec![
        Payee { id: "p-1".into(), name: "Grocer".into(), deleted: false },
        Payee { id: "p-2".into(), name: "Gone".into(), deleted: true },
    ]);
    assert_eq!(rows, vec![vec!["Grocer", "p-1"]]);
}

#[test]
fn budget_rows_dash_missing_months() {
    let rows = budget_rows(&vec![Budget {
        id: "b-1".into(),
        name: "Family".into(),
        first_month: Some("2025-01-01".into()),
        last_month: None,
    }]);
    assert_eq!(rows, vec![vec!["Family", "b-1", "2025-01-01", "-"]]);
}

#[test]
fn category_rows_skip_deleted_groups_and_categories() {
    let groups = vec![
        CategoryGroup {
            id: "g-1".into(),
            name: "Bills".into(),
            hidden: false,
            deleted: false,
            categories: vec![category("Rent", false), category("Old", true)],
        },
        CategoryGroup {
            id: "g-2".into(),
            name: "Gone".into(),
            hidden: false,
            deleted: true,
            categories: vec![category("Ghost", false)],
        },
        CategoryGroup {
            id: "g-3".into(),
            name: "Fun".into(),
            hidden: true,
            deleted: false,
            categories: vec![category("Games", false)],
        },
    ];
    assert_eq!(
        category_rows(&groups),
        vec![
            vec!["Bills", "Rent", "1500.00", "-1500.00", "0.00"],
            vec!["Fun", "Games", "1500.00", "-1500.00", "0.00"],
        ]
    );
}
