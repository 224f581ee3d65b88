//! `accounts list`: the human table shows every account that is not deleted.

use vstd::prelude::*;
use crate::api::types::Account;
use crate::output::{milliunits, milliunits_text, rows_view};

verus! {

/// The headers of the accounts table.
pub const HEADERS: [&'static str; 4] = ["Name", "Type", "Balance", "Closed"];

/// The table row of an account: name, type, balance, closed.
pub open spec fn account_row(a: Account) -> Seq<Seq<char>> {
    seq![a.name@, a.kind@, milliunits_text(a.balance as int), if a.closed { "yes"@ } else { "no"@ }]
}

/// The rows of the accounts table: one per account that is not deleted, in
/// the API's order.
pub open spec fn account_table(accounts: Seq<Account>) -> Seq<Seq<Seq<char>>>
    decreases accounts.len(),
{
    if accounts.len() == 0 {
        Seq::empty()
    } else {
        let prev = account_table(accounts.drop_last());
        if !accounts.last().deleted {
            prev.push(account_row(accounts.last()))
        } else {
            prev
        }
    }
}

/// The rows `accounts list` prints.
pub fn account_rows(accounts: &Vec<Account>) -> (rows: Vec<Vec<String>>)
    ensures
        rows_view(rows@) == account_table(accounts@),
{
    let mut rows: Vec<Vec<String>> = Vec::new();
    let mut i: usize = 0;
    while i < accounts.len()
        invariant
            i <= accounts.len(),
            rows_view(rows@) == account_table(accounts@.take(i as int)),
        decreases accounts.len() - i,
    {
        let ghost before = rows@;
        assert(accounts@.take(i + 1).drop_last() =~= accounts@.take(i as int));
        let a = &accounts[i];
        if !a.deleted {
            let mut row: Vec<String> = Vec::new();
            row.push(a.name.clone());
            row.push(a.kind.clone());
            row.push(milliunits(a.balance));
            row.push(if a.closed { String::from_str("yes") } else { String::from_str("no") });
            assert(row@.map_values(|c: String| c@) =~= account_row(*a));
            rows.push(row);
            assert(rows_view(rows@) =~= rows_view(before).push(account_row(accounts@[i as int])));
        }
        i = i + 1;
    }
    assert(accounts@.take(accounts.len() as int) =~= accounts@);
    rows
}

/// The number of accounts that are not deleted.
pub open spec fn live_accounts(accounts: Seq<Account>) -> nat
    decreases accounts.len(),
{
    if accounts.len() == 0 {
        0
    } else {
        live_accounts(accounts.drop_last()) + if accounts.last().deleted { 0nat } else { 1nat }
    }
}

proof fn account_table_len(accounts: Seq<Account>)
    ensures
        account_table(accounts).len() == live_accounts(accounts),
    decreases accounts.len(),
{
    if accounts.len() > 0 {
        account_table_len(accounts.drop_last());
    }
}

/// The accounts table has exactly one row per account that is not deleted,
/// whatever else the account is (on or off budget, open or closed).
pub proof fn one_row_per_live_account(accounts: Seq<Account>, rows: Seq<Vec<String>>)
    requires
        rows_view(rows) == account_table(accounts),
    ensures
        rows.len() == live_accounts(accounts),
{
    account_table_len(accounts);
    assert(rows_view(rows).len() == rows.len());
}

} // verus!
