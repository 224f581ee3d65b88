use ynab_cli::api::client::{
    accounts_path, api_error, append_param, budgets_path, categories_path, data_member,
    is_success, payees_path, transactions_path, user_path, BASE_URL,
};
use ynab_cli::error::Error;

#[test]
fn paths_are_budget_scoped() {
    assert_eq!(BASE_URL, "https://api.ynab.com/v1");
    assert_eq!(user_path(), "/user");
    assert_eq!(budgets_path(), "/budgets");
    assert_eq!(accounts_path("b-1", None), "/budgets/b-1/accounts");
    assert_eq!(categories_path("b-1", None), "/budgets/b-1/categories");
    assert_eq!(payees_path("b-1", None), "/budgets/b-1/payees");
    assert_eq!(transactions_path("b-1", None, None), "/budgets/b-1/transactions");
}

#[test]
fn knowledge_and_since_date_are_query_params() {
    assert_eq!(
        accounts_path("b-1", Some(42)),
        "/budgets/b-1/accounts?last_knowledge_of_server=42"
    );
    assert_eq!(
        payees_path("b-1", Some(-3)),
        "/budgets/b-1/payees?last_knowledge_of_server=-3"
    );
    assert_eq!(
        transactions_path("b-1", Some("2026-07-01"), None),
        "/budgets/b-1/transactions?since_date=2026-07-01"
    );
    assert_eq!(
        transactions_path("b-1", Some("2026-07-01"), Some(9)),
        "/budgets/b-1/transactions?since_date=2026-07-01&last_knowledge_of_server=9"
    );
    assert_eq!(append_param("/x?a=1".into(), "b=2"), "/x?a=1&b=2");
    assert_eq!(append_param("/x".into(), "b=2"), "/x?b=2");
}

#[test]
fn failed_replies_map_to_errors() {
    assert!(is_success(200));
    assert!(is_success(204));
    assert!(!is_success(199));
    assert!(!is_success(300));
    assert!(matches!(api_error(401, Some("x".into()), None), Error::NotAuthenticated));
    assert!(matches!(api_error(429, None, Some("Too Many")), Error::RateLimited));
    let e = api_error(404, Some("Resource not found".into()), Some("Not Found"));
    assert_eq!(e.message(), "YNAB API error (404): Resource not found");
    let e = api_error(500, None, Some("Internal Server Error"));
    assert_eq!(e.message(), "YNAB API error (500): Internal Server Error");
    let e = api_error(599, None, None);
    assert_eq!(e.message(), "YNAB API error (599): unknown error");
}

#[test]
fn missing_data_envelope_is_a_decode_error() {
    assert_eq!(data_member(Some(3)).unwrap(), 3);
    let e = data_member::<u8>(None).unwrap_err();
    assert!(matches!(e, Error::Decode(ref m) if m == "missing data envelope"));
}
