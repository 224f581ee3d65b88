use ynab_cli::error::Error;
use ynab_cli::mcp::params::{BudgetScopedParams, ListTransactionsParams};
use ynab_cli::mcp::{session_result, to_tool_result, SessionEnd, ToolOutcome, SERVER_NAME};

#[test]
fn success_is_structured_content() {
    assert!(matches!(to_tool_result(Ok::<u8, Error>(5)), ToolOutcome::Structured(5)));
}

#[test]
fn failures_carry_the_error_message_never_a_token() {
    match to_tool_result::<u8>(Err(Error::NotAuthenticated)) {
        ToolOutcome::Failure(text) => {
            assert_eq!(
                text,
                "not logged in — run `ynab auth login` (or `ynab auth login --oauth`)"
            );
            assert!(!text.contains("token"));
        }
        other => panic!("unexpected {other:?}"),
    }
    match to_tool_result::<u8>(Err(Error::Config(
        "--since must be an ISO date (YYYY-MM-DD)".into(),
    ))) {
        ToolOutcome::Failure(text) => {
            assert_eq!(text, "config error: --since must be an ISO date (YYYY-MM-DD)")
        }
        other => panic!("unexpected {other:?}"),
    }
}

#[test]
fn closing_the_session_is_a_clean_exit() {
    assert_eq!(SERVER_NAME, "ynab-cli");
    assert!(session_result(SessionEnd::ClosedBeforeHandshake).is_ok());
    assert!(session_result(SessionEnd::Closed).is_ok());
    assert!(session_result(SessionEnd::Cancelled).is_ok());
    assert!(session_result(SessionEnd::OtherQuit).is_ok());
    let e = session_result(SessionEnd::TaskFailed("panicked".into())).unwrap_err();
    assert_eq!(e.message(), "config error: MCP server task failed: panicked");
    let e = session_result(SessionEnd::HandshakeFailed("bad".into())).unwrap_err();
    assert_eq!(e.message(), "config error: mcp server failed to start: bad");
    let e = session_result(SessionEnd::WaitFailed("join".into())).unwrap_err();
    assert_eq!(e.message(), "config error: mcp server error: join");
}

#[test]
fn tool_parameters_become_budget_and_filters() {
    assert!(BudgetScopedParams::default().budget_id.is_none());
    let p = ListTransactionsParams {
        budget_id: Some("b-1".into()),
        uncategorized: true,
        payee: Some("grocer".into()),
        ..Default::default()
    };
    let (budget, f) = p.into_parts();
    assert_eq!(budget.as_deref(), Some("b-1"));
    assert_eq!(f.payee.as_deref(), Some("grocer"));
    assert!(f.uncategorized);
    assert!(!f.unapproved);
    assert!(f.since.is_none());
}
