//! The typed shapes of YNAB API payloads. The program around the library
//! decodes JSON into these; the library only reads them.

use vstd::prelude::*;

verus! {

/// YNAB wraps every success payload as {"data": ...}.
#[derive(Debug)]
pub struct DataEnvelope<T> {
    pub data: T,
}

/// YNAB wraps every error payload as {"error": {"detail": ...}}.
#[derive(Debug)]
pub struct ErrorEnvelope {
    pub error: ErrorDetail,
}

#[derive(Debug)]
pub struct ErrorDetail {
    pub detail: String,
}

#[derive(Debug)]
pub struct UserWrapper {
    pub user: User,
}

#[derive(Debug, Clone)]
pub struct User {
    pub id: String,
}

#[derive(Debug, Clone)]
pub struct Budget {
    pub id: String,
    pub name: String,
    pub first_month: Option<String>,
    pub last_month: Option<String>,
}

#[derive(Debug, Clone)]
pub struct BudgetsWrapper {
    pub budgets: Vec<Budget>,
}

#[derive(Debug, Clone)]
pub struct Account {
    pub id: String,
    pub name: String,
    /// The account type (`"type"` in the API).
    pub kind: String,
    pub on_budget: bool,
    pub closed: bool,
    pub balance: i64,
    pub deleted: bool,
}

#[derive(Debug, Clone)]
pub struct AccountsWrapper {
    pub accounts: Vec<Account>,
}

#[derive(Debug, Clone)]
pub struct Category {
    pub id: String,
    pub name: String,
    pub hidden: bool,
    pub budgeted: i64,
    pub activity: i64,
    pub balance: i64,
    pub deleted: bool,
}

#[derive(Debug, Clone)]
pub struct CategoryGroup {
    pub id: String,
    pub name: String,
    pub hidden: bool,
    pub deleted: bool,
    pub categories: Vec<Category>,
}

#[derive(Debug, Clone)]
pub struct CategoryGroupsWrapper {
    pub category_groups: Vec<CategoryGroup>,
}

#[derive(Debug, Clone)]
pub struct Payee {
    pub id: String,
    pub name: String,
    pub deleted: bool,
}

#[derive(Debug, Clone)]
pub struct PayeesWrapper {
    pub payees: Vec<Payee>,
}

#[derive(Debug, Clone)]
pub struct Transaction {
    pub id: String,
    pub date: String,
    pub amount: i64,
    pub memo: Option<String>,
    pub approved: bool,
    pub account_id: String,
    pub account_name: Option<String>,
    pub payee_id: Option<String>,
    pub payee_name: Option<String>,
    pub category_id: Option<String>,
    pub category_name: Option<String>,
    pub deleted: bool,
}

#[derive(Debug, Clone)]
pub struct TransactionsWrapper {
    pub transactions: Vec<Transaction>,
}

} // verus!
