//! `budgets list`: one table row per budget.

use vstd::prelude::*;
use crate::api::types::Budget;
use crate::cli::transactions::or_dash;
use crate::output::rows_view;
use crate::text::opt_text;

verus! {

/// The headers of the budgets table.
pub const HEADERS: [&'static str; 4] = ["Name", "Id", "First Month", "Last Month"];

/// The table row of a budget: name, id, first month, last month.
pub open spec fn budget_row(b: Budget) -> Seq<Seq<char>> {
    seq![b.name@, b.id@, or_dash(opt_text(b.first_month)), or_dash(opt_text(b.last_month))]
}

fn month_cell(o: &Option<String>) -> (r: String)
    ensures
        r@ == or_dash(opt_text(*o)),
{
    match o {
        Some(s) => s.clone(),
        None => {
            proof {
                reveal_strlit("-");
            }
            String::from_str("-")
        },
    }
}

/// The rows `budgets list` prints: one per budget, in the API's order.
pub fn budget_rows(budgets: &Vec<Budget>) -> (rows: Vec<Vec<String>>)
    ensures
        rows_view(rows@) == budgets@.map_values(|b: Budget| budget_row(b)),
{
    let mut rows: Vec<Vec<String>> = Vec::new();
    let mut i: usize = 0;
    while i < budgets.len()
        invariant
            i <= budgets.len(),
            rows_view(rows@) == budgets@.take(i as int).map_values(|b: Budget| budget_row(b)),
        decreases budgets.len() - i,
    {
        let ghost before = rows@;
        let b = &budgets[i];
        let mut row: Vec<String> = Vec::new();
        row.push(b.name.clone());
        row.push(b.id.clone());
        row.push(month_cell(&b.first_month));
        row.push(month_cell(&b.last_month));
        assert(row@.map_values(|c: String| c@) =~= budget_row(*b));
        rows.push(row);
        assert(rows_view(rows@) =~= rows_view(before).push(budget_row(budgets@[i as int])));
        assert(budgets@.take(i + 1).map_values(|b: Budget| budget_row(b)) =~= budgets@.take(
            i as int,
        ).map_values(|b: Budget| budget_row(b)).push(budget_row(budgets@[i as int])));
        i = i + 1;
    }
    assert(budgets@.take(budgets.len() as int) =~= budgets@);
    rows
}

/// Every budget has its row, in order, holding its name, its id and its
/// first and last month: the month's text when it has one, "-" only when it
/// has none.
pub proof fn budget_rows_show_each_budget(budgets: Seq<Budget>, rows: Seq<Vec<String>>)
    requires
        rows_view(rows) == budgets.map_values(|b: Budget| budget_row(b)),
    ensures
        rows.len() == budgets.len(),
        forall|i: int| #![trigger rows[i]] 0 <= i < budgets.len() ==> {
            let cells = rows_view(rows)[i];
            &&& cells.len() == 4
            &&& cells[0] == budgets[i].name@
            &&& cells[1] == budgets[i].id@
            &&& cells[2] == match budgets[i].first_month {
                Some(m) => m@,
                None => "-"@,
            }
            &&& cells[3] == match budgets[i].last_month {
                Some(m) => m@,
                None => "-"@,
            }
        },
{
    reveal_strlit("-");
    assert(rows_view(rows).len() == rows.len());
    assert forall|i: int| #![trigger rows[i]] 0 <= i < budgets.len() implies {
        let cells = rows_view(rows)[i];
        &&& cells.len() == 4
        &&& cells[0] == budgets[i].name@
        &&& cells[1] == budgets[i].id@
        &&& cells[2] == match budgets[i].first_month {
            Some(m) => m@,
            None => "-"@,
        }
        &&& cells[3] == match budgets[i].last_month {
            Some(m) => m@,
            None => "-"@,
        }
    } by {
        assert(rows_view(rows)[i] == budget_row(budgets[i]));
    }
}

} // verus!
