//! The parameters of the MCP tools. Their JSON schema and deserialization
//! are attached in the program around the library.

use vstd::prelude::*;
use crate::cli::transactions::Filters;

verus! {

/// Shared by `list_accounts`, `list_categories`, `list_payees`. Budget
/// resolution mirrors the CLI's `--budget` flag: this value, then config
/// `default_budget`, then the API's `last-used` alias.
#[derive(Debug)]
pub struct BudgetScopedParams {
    /// Budget id. Defaults to the configured default budget, then YNAB's
    /// `last-used` alias.
    pub budget_id: Option<String>,
}

impl Default for BudgetScopedParams {
    fn default() -> (r: BudgetScopedParams)
        ensures
            r.budget_id is None,
    {
        BudgetScopedParams { budget_id: None }
    }
}

/// Parameters for `list_transactions`. Filters combine with AND, mirroring
/// `ynab transactions list`'s flags exactly.
#[derive(Debug)]
pub struct ListTransactionsParams {
    /// Budget id. Defaults to the configured default budget, then YNAB's
    /// `last-used` alias.
    pub budget_id: Option<String>,
    /// Only transactions on or after this ISO date (YYYY-MM-DD).
    pub since: Option<String>,
    /// Only transactions on or before this ISO date (YYYY-MM-DD).
    pub until: Option<String>,
    /// Payee id, or case-insensitive name substring.
    pub payee: Option<String>,
    /// Account id, or case-insensitive name substring.
    pub account: Option<String>,
    /// Category id, or case-insensitive name substring.
    pub category: Option<String>,
    /// Only transactions with no category.
    pub uncategorized: bool,
    /// Only unapproved transactions.
    pub unapproved: bool,
}

impl Default for ListTransactionsParams {
    fn default() -> (r: ListTransactionsParams)
        ensures
            r.budget_id is None,
            r.since is None,
            r.until is None,
            r.payee is None,
            r.account is None,
            r.category is None,
            !r.uncategorized,
            !r.unapproved,
    {
        ListTransactionsParams {
            budget_id: None,
            since: None,
            until: None,
            payee: None,
            account: None,
            category: None,
            uncategorized: false,
            unapproved: false,
        }
    }
}

impl ListTransactionsParams {
    /// The budget to list and the filters to apply, exactly as given.
    pub fn into_parts(self) -> (r: (Option<String>, Filters))
        ensures
            r.0 == self.budget_id,
            r.1.since == self.since,
            r.1.until == self.until,
            r.1.payee == self.payee,
            r.1.account == self.account,
            r.1.category == self.category,
            r.1.uncategorized == self.uncategorized,
            r.1.unapproved == self.unapproved,
    {
        (
            self.budget_id,
            Filters {
                since: self.since,
                until: self.until,
                payee: self.payee,
                account: self.account,
                category: self.category,
                uncategorized: self.uncategorized,
                unapproved: self.unapproved,
            },
        )
    }
}

} // verus!
