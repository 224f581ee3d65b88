//! `categories list`: the human table shows every category that is not
//! deleted, inside every group that is not deleted.

use vstd::prelude::*;
use crate::api::types::{Category, CategoryGroup};
use crate::output::{milliunits, milliunits_text, rows_view};

verus! {

/// The headers of the categories table.
pub const HEADERS: [&'static str; 5] = ["Group", "Category", "Budgeted", "Activity", "Balance"];

/// The table row of a category in a group: group, category, budgeted,
/// activity, balance.
pub open spec fn category_row(group: Seq<char>, c: Category) -> Seq<Seq<char>> {
    seq![
        group,
        c.name@,
        milliunits_text(c.budgeted as int),
        milliunits_text(c.activity as int),
        milliunits_text(c.balance as int),
    ]
}

/// The rows of one group's categories that are not deleted, in order.
pub open spec fn group_table(group: Seq<char>, cats: Seq<Category>) -> Seq<Seq<Seq<char>>>
    decreases cats.len(),
{
    if cats.len() == 0 {
        Seq::empty()
    } else {
        let prev = group_table(group, cats.drop_last());
        if !cats.last().deleted {
            prev.push(category_row(group, cats.last()))
        } else {
            prev
        }
    }
}

/// The rows of the categories table: the rows of each group that is not
/// deleted, groups in the API's order.
pub open spec fn category_table(groups: Seq<CategoryGroup>) -> Seq<Seq<Seq<char>>>
    decreases groups.len(),
{
    if groups.len() == 0 {
        Seq::empty()
    } else {
        let prev = category_table(groups.drop_last());
        let g = groups.last();
        if !g.deleted {
            prev + group_table(g.name@, g.categories@)
        } else {
            prev
        }
    }
}

fn push_group_rows(rows: &mut Vec<Vec<String>>, g: &CategoryGroup)
    ensures
        rows_view(final(rows)@) == rows_view(old(rows)@) + group_table(g.name@, g.categories@),
{
    let ghost start = rows_view(rows@);
    let cats = &g.categories;
    let mut j: usize = 0;
    while j < cats.len()
        invariant
            j <= cats.len(),
            rows_view(rows@) == start + group_table(g.name@, cats@.take(j as int)),
        decreases cats.len() - j,
    {
        let ghost before = rows@;
        assert(cats@.take(j + 1).drop_last() =~= cats@.take(j as int));
        let c = &cats[j];
        if !c.deleted {
            let mut row: Vec<String> = Vec::new();
            row.push(g.name.clone());
            row.push(c.name.clone());
            row.push(milliunits(c.budgeted));
            row.push(milliunits(c.activity));
            row.push(milliunits(c.balance));
            assert(row@.map_values(|x: String| x@) =~= category_row(g.name@, *c));
            rows.push(row);
            assert(rows_view(rows@) =~= rows_view(before).push(category_row(g.name@, cats@[j as int])));
            assert(start + group_table(g.name@, cats@.take(j + 1)) =~= (start + group_table(
                g.name@,
                cats@.take(j as int),
            )).push(category_row(g.name@, cats@[j as int])));
        }
        j = j + 1;
    }
    assert(cats@.take(cats.len() as int) =~= cats@);
}

/// The rows `categories list` prints.
pub fn category_rows(groups: &Vec<CategoryGroup>) -> (rows: Vec<Vec<String>>)
    ensures
        rows_view(rows@) == category_table(groups@),
{
    let mut rows: Vec<Vec<String>> = Vec::new();
    let mut i: usize = 0;
    while i < groups.len()
        invariant
            i <= groups.len(),
            rows_view(rows@) == category_table(groups@.take(i as int)),
        decreases groups.len() - i,
    {
        assert(groups@.take(i + 1).drop_last() =~= groups@.take(i as int));
        let g = &groups[i];
        if !g.deleted {
            push_group_rows(&mut rows, g);
        }
        i = i + 1;
    }
    assert(groups@.take(groups.len() as int) =~= groups@);
    rows
}

/// The number of categories that are not deleted.
pub open spec fn live_categories(cats: Seq<Category>) -> nat
    decreases cats.len(),
{
    if cats.len() == 0 {
        0
    } else {
        live_categories(cats.drop_last()) + if cats.last().deleted { 0nat } else { 1nat }
    }
}

/// The number of categories that are not deleted inside groups that are not
/// deleted.
pub open spec fn live_grouped_categories(groups: Seq<CategoryGroup>) -> nat
    decreases groups.len(),
{
    if groups.len() == 0 {
        0
    } else {
        live_grouped_categories(groups.drop_last()) + if groups.last().deleted {
            0nat
        } else {
            live_categories(groups.last().categories@)
        }
    }
}

proof fn group_table_len(group: Seq<char>, cats: Seq<Category>)
    ensures
        group_table(group, cats).len() == live_categories(cats),
    decreases cats.len(),
{
    if cats.len() > 0 {
        group_table_len(group, cats.drop_last());
    }
}

proof fn category_table_len(groups: Seq<CategoryGroup>)
    ensures
        category_table(groups).len() == live_grouped_categories(groups),
    decreases groups.len(),
{
    if groups.len() > 0 {
        category_table_len(groups.drop_last());
        group_table_len(groups.last().name@, groups.last().categories@);
    }
}

/// The categories table has exactly one row per category that is not
/// deleted inside a group that is not deleted; a hidden category or group
/// still has its rows.
pub proof fn one_row_per_live_category(groups: Seq<CategoryGroup>, rows: Seq<Vec<String>>)
    requires
        rows_view(rows) == category_table(groups),
    ensures
        rows.len() == live_grouped_categories(groups),
{
    category_table_len(groups);
    assert(rows_view(rows).len() == rows.len());
}

} // verus!
