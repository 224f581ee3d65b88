//! `payees list`: the human table shows every payee that is not deleted.

use vstd::prelude::*;
use crate::api::types::Payee;
use crate::output::rows_view;

verus! {

/// The headers of the payees table.
pub const HEADERS: [&'static str; 2] = ["Name", "Id"];

/// The table row of a payee: name, id.
pub open spec fn payee_row(p: Payee) -> Seq<Seq<char>> {
    seq![p.name@, p.id@]
}

/// The rows of the payees table: one per payee that is not deleted, in the
/// API's order.
pub open spec fn payee_table(payees: Seq<Payee>) -> Seq<Seq<Seq<char>>>
    decreases payees.len(),
{
    if payees.len() == 0 {
        Seq::empty()
    } else {
        let prev = payee_table(payees.drop_last());
        if !payees.last().deleted {
            prev.push(payee_row(payees.last()))
        } else {
            prev
        }
    }
}

/// The rows `payees list` prints.
pub fn payee_rows(payees: &Vec<Payee>) -> (rows: Vec<Vec<String>>)
    ensures
        rows_view(rows@) == payee_table(payees@),
{
    let mut rows: Vec<Vec<String>> = Vec::new();
    let mut i: usize = 0;
    while i < payees.len()
        invariant
            i <= payees.len(),
            rows_view(rows@) == payee_table(payees@.take(i as int)),
        decreases payees.len() - i,
    {
        let ghost before = rows@;
        assert(payees@.take(i + 1).drop_last() =~= payees@.take(i as int));
        let p = &payees[i];
        if !p.deleted {
            let mut row: Vec<String> = Vec::new();
            row.push(p.name.clone());
            row.push(p.id.clone());
            assert(row@.map_values(|c: String| c@) =~= payee_row(*p));
            rows.push(row);
            assert(rows_view(rows@) =~= rows_view(before).push(payee_row(payees@[i as int])));
        }
        i = i + 1;
    }
    assert(payees@.take(payees.len() as int) =~= payees@);
    rows
}

/// The number of payees that are not deleted.
pub open spec fn live_payees(payees: Seq<Payee>) -> nat
    decreases payees.len(),
{
    if payees.len() == 0 {
        0
    } else {
        live_payees(payees.drop_last()) + if payees.last().deleted { 0nat } else { 1nat }
    }
}

proof fn payee_table_len(payees: Seq<Payee>)
    ensures
        payee_table(payees).len() == live_payees(payees),
    decreases payees.len(),
{
    if payees.len() > 0 {
        payee_table_len(payees.drop_last());
    }
}

/// The payees table has exactly one row per payee that is not deleted.
pub proof fn one_row_per_live_payee(payees: Seq<Payee>, rows: Seq<Vec<String>>)
    requires
        rows_view(rows) == payee_table(payees),
    ensures
        rows.len() == live_payees(payees),
{
    payee_table_len(payees);
    assert(rows_view(rows).len() == rows.len());
}

} // verus!
