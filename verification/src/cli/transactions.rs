//! `transactions list`: date validation, the filters (which combine with
//! AND), the human table rows (deleted transactions hidden) and the `--json`
//! selection (deleted transactions kept, only the explicit filters applied).

use vstd::prelude::*;
use crate::api::types::Transaction;
use crate::error::{Error, Result, is_config_error};
use crate::output::{milliunits, milliunits_text, rows_view};
use crate::text::{
    chars_of, clone_opt, contains_text, decimal, digit_char, has_infix, lowercase, lowercase_of,
    opt_text, push_decimal, same_text, string_from_chars, text_less, text_lt, two_digits,
};

verus! {

/// The headers of the transactions table.
pub const HEADERS: [&'static str; 6] = ["Date", "Account", "Payee", "Category", "Memo", "Amount"];

/// The filters of `transactions list`; each one given narrows the result.
#[derive(Debug)]
pub struct Filters {
    pub since: Option<String>,
    pub until: Option<String>,
    pub payee: Option<String>,
    pub account: Option<String>,
    pub category: Option<String>,
    pub uncategorized: bool,
    pub unapproved: bool,
}

impl Default for Filters {
    fn default() -> (r: Filters)
        ensures
            r.since is None,
            r.until is None,
            r.payee is None,
            r.account is None,
            r.category is None,
            !r.uncategorized,
            !r.unapproved,
    {
        Filters {
            since: None,
            until: None,
            payee: None,
            account: None,
            category: None,
            uncategorized: false,
            unapproved: false,
        }
    }
}

/// The year, month and day that chrono's `NaiveDate::parse_from_str(s,
/// "%Y-%m-%d")` reads from a text, or `None` when chrono rejects it.
pub uninterp spec fn chrono_date_parts(s: Seq<char>) -> Option<(i32, u32, u32)>;

/// Parses `value` with chrono's `NaiveDate::parse_from_str` under the format
/// "%Y-%m-%d" and reads the date's `year`, `month` and `day` (`Datelike`).
/// The claim is that the result is what chrono gives for these characters
/// (named `chrono_date_parts`), and that a month lies in 1..=12 and a day in
/// 1..=31, as `Datelike::month` and `Datelike::day` document; which texts
/// chrono accepts is not restated here.
#[verifier::external_body]
fn parse_iso_date(value: &str) -> (r: Option<(i32, u32, u32)>)
    ensures
        r == chrono_date_parts(value@),
        r matches Some((y, m, d)) ==> 1 <= m <= 12 && 1 <= d <= 31,
{
    match chrono::NaiveDate::parse_from_str(value, "%Y-%m-%d") {
        Ok(d) => Some(
            (chrono::Datelike::year(&d), chrono::Datelike::month(&d), chrono::Datelike::day(&d)),
        ),
        Err(_) => None,
    }
}

/// `n` in decimal, zero-padded on the left to at least four digits.
pub open spec fn padded4(n: nat) -> Seq<char> {
    let d = decimal(n);
    if d.len() >= 4 {
        d
    } else {
        Seq::new((4 - d.len()) as nat, |i: int| '0') + d
    }
}

/// A year as chrono's `%Y` writes it: four digits, zero-padded, for years
/// 0 through 9999; otherwise the sign ('+' or '-') followed by at least four
/// digits.
pub open spec fn year_text(y: int) -> Seq<char> {
    if 0 <= y <= 9999 {
        padded4(y as nat)
    } else if y > 9999 {
        seq!['+'] + padded4(y as nat)
    } else {
        seq!['-'] + padded4((-y) as nat)
    }
}

/// A date in canonical `%Y-%m-%d` form.
pub open spec fn iso_date_text(y: int, m: nat, d: nat) -> Seq<char> {
    year_text(y) + seq!['-'] + two_digits(m) + seq!['-'] + two_digits(d)
}

/// What a date flag's value becomes: the date chrono reads from it, in
/// canonical form, or `None` when chrono rejects it.
pub open spec fn chrono_iso_date(s: Seq<char>) -> Option<Seq<char>> {
    match chrono_date_parts(s) {
        Some((y, m, d)) => Some(iso_date_text(y as int, m as nat, d as nat)),
        None => None,
    }
}

fn push_padded4(out: &mut Vec<char>, n: u32)
    ensures
        final(out)@ == old(out)@ + padded4(n as nat),
{
    let mut digits: Vec<char> = Vec::new();
    push_decimal(&mut digits, n as u64);
    assert(digits@ =~= decimal(n as nat));
    let ghost start = out@;
    let mut k: usize = digits.len();
    while k < 4
        invariant
            digits@ == decimal(n as nat),
            digits.len() <= k <= 4 || (k == digits.len() && k >= 4),
            out@ == start + Seq::new((k - digits.len()) as nat, |i: int| '0'),
        decreases 4 - k,
    {
        out.push('0');
        k = k + 1;
        assert(out@ =~= start + Seq::new((k - digits.len()) as nat, |i: int| '0'));
    }
    out.append(&mut digits);
    assert(out@ =~= start + padded4(n as nat));
}

/// Renders a date in canonical `%Y-%m-%d` form, as chrono's `format` does.
pub fn format_iso_date(y: i32, m: u32, d: u32) -> (r: String)
    requires
        m < 100,
        d < 100,
    ensures
        r@ == iso_date_text(y as int, m as nat, d as nat),
{
    let mut v: Vec<char> = Vec::new();
    if 0 <= y && y <= 9999 {
        push_padded4(&mut v, y as u32);
    } else if y > 9999 {
        v.push('+');
        push_padded4(&mut v, y as u32);
    } else {
        v.push('-');
        let a: u32 = if y == i32::MIN {
            2147483648u32
        } else {
            (-y) as u32
        };
        push_padded4(&mut v, a);
    }
    let ghost year = v@;
    assert(year =~= year_text(y as int));
    v.push('-');
    v.push(digit_of(m / 10));
    v.push(digit_of(m % 10));
    v.push('-');
    v.push(digit_of(d / 10));
    v.push(digit_of(d % 10));
    assert(v@ =~= iso_date_text(y as int, m as nat, d as nat));
    string_from_chars(&v)
}

fn digit_of(n: u32) -> (c: char)
    requires
        n < 10,
    ensures
        c == digit_char(n as int),
{
    let b: u8 = 48u8 + (n as u8);
    b as char
}

/// The message for a date flag that is not an ISO date.
pub open spec fn bad_date_text(flag: Seq<char>) -> Seq<char> {
    flag + " must be an ISO date (YYYY-MM-DD)"@
}

/// The outcome of validating a date flag, given the date chrono read from
/// its value: that date in canonical form, or the flag's error.
pub fn checked_date(parts: Option<(i32, u32, u32)>, flag: &str) -> (r: Result<String>)
    requires
        parts matches Some((y, m, d)) ==> 1 <= m <= 12 && 1 <= d <= 31,
    ensures
        match parts {
            Some((y, m, d)) => r matches Ok(s) && s@ == iso_date_text(y as int, m as nat, d as nat),
            None => r matches Err(e) && is_config_error(e, bad_date_text(flag@)),
        },
{
    match parts {
        Some((y, m, d)) => Ok(format_iso_date(y, m, d)),
        None => {
            let mut m = String::from_str(flag);
            m.append(" must be an ISO date (YYYY-MM-DD)");
            Err(Error::Config(m))
        },
    }
}

/// Validates a `--since`/`--until` value and returns it in canonical
/// `YYYY-MM-DD` form.
pub fn normalize_date(value: &str, flag: &str) -> (r: Result<String>)
    ensures
        match chrono_iso_date(value@) {
            Some(d) => r matches Ok(s) && s@ == d,
            None => r matches Err(e) && is_config_error(e, bad_date_text(flag@)),
        },
{
    checked_date(parse_iso_date(value), flag)
}

/// Whether a date filter is valid: absent, or a date chrono accepts.
pub open spec fn date_ok(o: Option<String>) -> bool {
    match o {
        Some(s) => chrono_iso_date(s@) is Some,
        None => true,
    }
}

/// A valid date filter in canonical form.
pub open spec fn canonical_date(o: Option<String>) -> Option<Seq<char>> {
    match o {
        Some(s) => chrono_iso_date(s@),
        None => None,
    }
}

/// Validates the date filters (`--since` first, then `--until`) and puts
/// them in canonical form; the other filters pass through unchanged.
pub fn normalize_filters(f: Filters) -> (r: Result<Filters>)
    ensures
        !date_ok(f.since) ==> (r matches Err(e) && is_config_error(e, bad_date_text("--since"@))),
        date_ok(f.since) && !date_ok(f.until) ==> (r matches Err(e) && is_config_error(
            e,
            bad_date_text("--until"@),
        )),
        date_ok(f.since) && date_ok(f.until) ==> (r matches Ok(g) && opt_text(g.since)
            == canonical_date(f.since) && opt_text(g.until) == canonical_date(f.until) && g.payee
            == f.payee && g.account == f.account && g.category == f.category && g.uncategorized
            == f.uncategorized && g.unapproved == f.unapproved),
{
    let since = match &f.since {
        Some(s) => {
            match normalize_date(s.as_str(), "--since") {
                Ok(d) => Some(d),
                Err(e) => {
                    return Err(e);
                },
            }
        },
        None => None,
    };
    let until = match &f.until {
        Some(u) => {
            match normalize_date(u.as_str(), "--until") {
                Ok(d) => Some(d),
                Err(e) => {
                    return Err(e);
                },
            }
        },
        None => None,
    };
    Ok(
        Filters {
            since,
            until,
            payee: f.payee,
            account: f.account,
            category: f.category,
            uncategorized: f.uncategorized,
            unapproved: f.unapproved,
        },
    )
}

/// A filter value matches an entity when it equals the entity's id, or is a
/// case-insensitive substring of its name.
pub open spec fn name_or_id_spec(
    filter: Seq<char>,
    id: Option<Seq<char>>,
    name: Option<Seq<char>>,
) -> bool {
    id == Some(filter) || (name matches Some(n) && has_infix(
        lowercase_of(n),
        lowercase_of(filter),
    ))
}

/// The view of an optional text slice.
pub open spec fn opt_str(o: Option<&str>) -> Option<Seq<char>> {
    match o {
        Some(s) => Some(s@),
        None => None,
    }
}

fn as_str_opt(o: &Option<String>) -> (r: Option<&str>)
    ensures
        opt_str(r) == opt_text(*o),
{
    match o {
        Some(s) => Some(s.as_str()),
        None => None,
    }
}

/// Whether `filter` names the entity with this id and name.
pub fn name_or_id(filter: &str, id: Option<&str>, name: Option<&str>) -> (r: bool)
    ensures
        r == name_or_id_spec(filter@, opt_str(id), opt_str(name)),
{
    if let Some(i) = id {
        if same_text(filter, i) {
            return true;
        }
    }
    match name {
        Some(n) => {
            let hay = lowercase(n);
            let needle = lowercase(filter);
            contains_text(hay.as_str(), needle.as_str())
        },
        None => false,
    }
}

/// Whether a transaction passes every filter that is set (AND). Dates are
/// ISO texts, compared lexicographically; both bounds are inclusive.
pub open spec fn matches_filters_spec(t: Transaction, f: Filters) -> bool {
    &&& (f.since matches Some(s) ==> !text_lt(t.date@, s@))
    &&& (f.until matches Some(u) ==> !text_lt(u@, t.date@))
    &&& (f.payee matches Some(p) ==> name_or_id_spec(
        p@,
        opt_text(t.payee_id),
        opt_text(t.payee_name),
    ))
    &&& (f.account matches Some(a) ==> name_or_id_spec(
        a@,
        Some(t.account_id@),
        opt_text(t.account_name),
    ))
    &&& (f.category matches Some(c) ==> name_or_id_spec(
        c@,
        opt_text(t.category_id),
        opt_text(t.category_name),
    ))
    &&& (f.uncategorized ==> t.category_id is None)
    &&& (f.unapproved ==> !t.approved)
}

/// Whether the human table shows a transaction: not deleted, and matching.
pub open spec fn keep_spec(t: Transaction, f: Filters) -> bool {
    !t.deleted && matches_filters_spec(t, f)
}

/// Whether `t` passes the filters, regardless of whether it is deleted.
pub fn matches_filters(t: &Transaction, f: &Filters) -> (r: bool)
    ensures
        r == matches_filters_spec(*t, *f),
{
    if let Some(since) = &f.since {
        if text_less(t.date.as_str(), since.as_str()) {
            return false;
        }
    }
    if let Some(until) = &f.until {
        if text_less(until.as_str(), t.date.as_str()) {
            return false;
        }
    }
    if let Some(p) = &f.payee {
        if !name_or_id(p.as_str(), as_str_opt(&t.payee_id), as_str_opt(&t.payee_name)) {
            return false;
        }
    }
    if let Some(a) = &f.account {
        if !name_or_id(a.as_str(), Some(t.account_id.as_str()), as_str_opt(&t.account_name)) {
            return false;
        }
    }
    if let Some(c) = &f.category {
        if !name_or_id(c.as_str(), as_str_opt(&t.category_id), as_str_opt(&t.category_name)) {
            return false;
        }
    }
    if f.uncategorized && t.category_id.is_some() {
        return false;
    }
    if f.unapproved && t.approved {
        return false;
    }
    true
}

/// Whether the human table shows `t`.
pub fn keep(t: &Transaction, f: &Filters) -> (r: bool)
    ensures
        r == keep_spec(*t, *f),
{
    !t.deleted && matches_filters(t, f)
}

/// A memo as the table shows it: "-" when absent, cut to 40 characters with
/// a trailing ellipsis when longer.
pub open spec fn memo_text(memo: Option<Seq<char>>) -> Seq<char> {
    match memo {
        None => seq!['-'],
        Some(m) => if m.len() <= 40 {
            m
        } else {
            m.take(40).push('…')
        },
    }
}

/// The memo cell of a transaction row.
pub fn truncate_memo(memo: &Option<String>) -> (r: String)
    ensures
        r@ == memo_text(opt_text(*memo)),
{
    match memo {
        None => {
            proof {
                reveal_strlit("-");
            }
            String::from_str("-")
        },
        Some(m) => {
            let cs = chars_of(m.as_str());
            if cs.len() <= 40 {
                m.clone()
            } else {
                let mut cut: Vec<char> = Vec::new();
                let mut i: usize = 0;
                while i < 40
                    invariant
                        i <= 40,
                        40 < cs@.len(),
                        cut@ == cs@.take(i as int),
                    decreases 40 - i,
                {
                    cut.push(cs[i]);
                    i = i + 1;
                    assert(cut@ =~= cs@.take(i as int));
                }
                cut.push('…');
                string_from_chars(&cut)
            }
        },
    }
}

/// An optional name as a table cell: "-" when absent.
pub open spec fn or_dash(o: Option<Seq<char>>) -> Seq<char> {
    match o {
        Some(s) => s,
        None => seq!['-'],
    }
}

fn cell_or_dash(o: &Option<String>) -> (r: String)
    ensures
        r@ == or_dash(opt_text(*o)),
{
    match o {
        Some(s) => s.clone(),
        None => {
            proof {
                reveal_strlit("-");
            }
            String::from_str("-")
        },
    }
}

/// The table row of a transaction: date, account, payee, category, memo,
/// amount.
pub open spec fn transaction_row(t: Transaction) -> Seq<Seq<char>> {
    seq![
        t.date@,
        or_dash(opt_text(t.account_name)),
        or_dash(opt_text(t.payee_name)),
        or_dash(opt_text(t.category_name)),
        memo_text(opt_text(t.memo)),
        milliunits_text(t.amount as int),
    ]
}

/// The rows of the human table for `ts` under `f`, in order.
pub open spec fn transaction_table(ts: Seq<Transaction>, f: Filters) -> Seq<Seq<Seq<char>>>
    decreases ts.len(),
{
    if ts.len() == 0 {
        Seq::empty()
    } else {
        let prev = transaction_table(ts.drop_last(), f);
        if keep_spec(ts.last(), f) {
            prev.push(transaction_row(ts.last()))
        } else {
            prev
        }
    }
}

fn row_of(t: &Transaction) -> (r: Vec<String>)
    ensures
        r@.map_values(|c: String| c@) == transaction_row(*t),
{
    let mut r: Vec<String> = Vec::new();
    r.push(t.date.clone());
    r.push(cell_or_dash(&t.account_name));
    r.push(cell_or_dash(&t.payee_name));
    r.push(cell_or_dash(&t.category_name));
    r.push(truncate_memo(&t.memo));
    r.push(milliunits(t.amount));
    assert(r@.map_values(|c: String| c@) =~= transaction_row(*t));
    r
}

/// The rows `transactions list` prints: one per transaction that is not
/// deleted and passes the filters, in the API's order.
pub fn transaction_rows(ts: &Vec<Transaction>, f: &Filters) -> (rows: Vec<Vec<String>>)
    ensures
        rows_view(rows@) == transaction_table(ts@, *f),
{
    let mut rows: Vec<Vec<String>> = Vec::new();
    let mut i: usize = 0;
    while i < ts.len()
        invariant
            i <= ts.len(),
            rows_view(rows@) == transaction_table(ts@.take(i as int), *f),
        decreases ts.len() - i,
    {
        let ghost before = rows@;
        assert(ts@.take(i + 1).drop_last() =~= ts@.take(i as int));
        if keep(&ts[i], f) {
            let row = row_of(&ts[i]);
            rows.push(row);
            assert(rows_view(rows@) =~= rows_view(before).push(transaction_row(ts@[i as int])));
        }
        i = i + 1;
    }
    assert(ts@.take(ts.len() as int) =~= ts@);
    rows
}

/// The raw entries `--json` keeps: the entries whose parsed transaction
/// matches the filters, deleted or not, in order (pairing stops at the
/// shorter of the two lists).
pub open spec fn matching_raw<V>(raw: Seq<V>, parsed: Seq<Transaction>, f: Filters) -> Seq<V>
    decreases raw.len(),
{
    if raw.len() == 0 || parsed.len() == 0 {
        Seq::empty()
    } else {
        let n = if raw.len() < parsed.len() { raw.len() } else { parsed.len() };
        let prev = matching_raw(raw.take(n - 1), parsed.take(n - 1), f);
        if matches_filters_spec(parsed[n - 1], f) {
            prev.push(raw[n - 1])
        } else {
            prev
        }
    }
}

proof fn matching_raw_step<V>(raw: Seq<V>, parsed: Seq<Transaction>, f: Filters, i: int)
    requires
        0 <= i < raw.len(),
        i < parsed.len(),
    ensures
        matching_raw(raw.take(i + 1), parsed.take(i + 1), f) == if matches_filters_spec(
            parsed[i],
            f,
        ) {
            matching_raw(raw.take(i), parsed.take(i), f).push(raw[i])
        } else {
            matching_raw(raw.take(i), parsed.take(i), f)
        },
{
    assert(raw.take(i + 1).take(i) =~= raw.take(i));
    assert(parsed.take(i + 1).take(i) =~= parsed.take(i));
}

/// The `--json` selection of `transactions list`: the raw entries whose
/// parsed transactions match the explicit filters. Deleted transactions are
/// kept; nothing else is dropped.
pub fn filtered_raw_transactions<V>(raw: Vec<V>, parsed: &Vec<Transaction>, f: &Filters) -> (r: Vec<V>)
    ensures
        r@ == matching_raw(raw@, parsed@, *f),
{
    let ghost all = raw@;
    let mut rest = raw;
    let mut out: Vec<V> = Vec::new();
    let mut i: usize = 0;
    let n: usize = if rest.len() < parsed.len() { rest.len() } else { parsed.len() };
    while i < n
        invariant
            n <= all.len(),
            n <= parsed@.len(),
            n == all.len() || n == parsed@.len(),
            i <= n,
            rest@ == all.skip(i as int),
            out@ == matching_raw(all.take(i as int), parsed@.take(i as int), *f),
        decreases n - i,
    {
        let item = rest.remove(0);
        assert(item == all[i as int]);
        proof {
            matching_raw_step(all, parsed@, *f, i as int);
        }
        if matches_filters(&parsed[i], f) {
            out.push(item);
        }
        assert(rest@ =~= all.skip(i + 1));
        i = i + 1;
    }
    proof {
        if n == all.len() {
            assert(all.take(n as int) =~= all);
            if n < parsed@.len() {
                assert(matching_raw(all, parsed@.take(n as int), *f) == matching_raw(all, parsed@, *f))
                    by {
                    matching_raw_prefix(all, parsed@, *f);
                }
            } else {
                assert(parsed@.take(n as int) =~= parsed@);
            }
        } else {
            assert(parsed@.take(n as int) =~= parsed@);
            matching_raw_prefix(all, parsed@, *f);
        }
    }
    out
}

/// Only the common length of the two lists matters.
proof fn matching_raw_prefix<V>(raw: Seq<V>, parsed: Seq<Transaction>, f: Filters)
    ensures
        raw.len() <= parsed.len() ==> matching_raw(raw, parsed.take(raw.len() as int), f)
            == matching_raw(raw, parsed, f),
        parsed.len() <= raw.len() ==> matching_raw(raw.take(parsed.len() as int), parsed, f)
            == matching_raw(raw, parsed, f),
{
    if raw.len() <= parsed.len() {
        let p = parsed.take(raw.len() as int);
        if raw.len() > 0 {
            assert(p.take(raw.len() - 1) =~= parsed.take(raw.len() - 1));
        }
    }
    if parsed.len() <= raw.len() {
        let q = raw.take(parsed.len() as int);
        if parsed.len() > 0 {
            assert(q.take(parsed.len() - 1) =~= raw.take(parsed.len() - 1));
        }
    }
}

/// The filters of `f` with only its since bound kept.
pub open spec fn only_since(f: Filters) -> Filters {
    Filters {
        since: f.since,
        until: None,
        payee: None,
        account: None,
        category: None,
        uncategorized: false,
        unapproved: false,
    }
}

/// The filters of `f` with only its until bound kept.
pub open spec fn only_until(f: Filters) -> Filters {
    Filters { since: None, until: f.until, ..only_since(Filters { since: None, ..f }) }
}

/// The filters of `f` with only its payee filter kept.
pub open spec fn only_payee(f: Filters) -> Filters {
    Filters { payee: f.payee, ..only_since(Filters { since: None, ..f }) }
}

/// The filters of `f` with only its account filter kept.
pub open spec fn only_account(f: Filters) -> Filters {
    Filters { account: f.account, ..only_since(Filters { since: None, ..f }) }
}

/// The filters of `f` with only its category filter kept.
pub open spec fn only_category(f: Filters) -> Filters {
    Filters { category: f.category, ..only_since(Filters { since: None, ..f }) }
}

/// The filters of `f` with only its flags kept.
pub open spec fn only_flags(f: Filters) -> Filters {
    Filters {
        uncategorized: f.uncategorized,
        unapproved: f.unapproved,
        ..only_since(Filters { since: None, ..f })
    }
}

/// Filters combine with AND: a transaction matches a set of filters exactly
/// when it matches each of them given alone.
pub proof fn filters_combine_with_and(t: Transaction, f: Filters)
    ensures
        matches_filters_spec(t, f) == (matches_filters_spec(t, only_since(f))
            && matches_filters_spec(t, only_until(f)) && matches_filters_spec(t, only_payee(f))
            && matches_filters_spec(t, only_account(f)) && matches_filters_spec(
            t,
            only_category(f),
        ) && matches_filters_spec(t, only_flags(f))),
{
}

/// With no filters every transaction matches, and the human table shows
/// exactly the ones that are not deleted.
pub proof fn no_filters_hide_only_deleted(t: Transaction, f: Filters)
    requires
        f.since is None,
        f.until is None,
        f.payee is None,
        f.account is None,
        f.category is None,
        !f.uncategorized,
        !f.unapproved,
    ensures
        matches_filters_spec(t, f),
        keep_spec(t, f) == !t.deleted,
{
}

/// With no filters, `--json` keeps every raw entry, deleted ones included,
/// in order.
pub proof fn json_without_filters_keeps_everything<V>(raw: Seq<V>, parsed: Seq<Transaction>, f: Filters)
    requires
        raw.len() == parsed.len(),
        f.since is None,
        f.until is None,
        f.payee is None,
        f.account is None,
        f.category is None,
        !f.uncategorized,
        !f.unapproved,
    ensures
        matching_raw(raw, parsed, f) == raw,
    decreases raw.len(),
{
    if raw.len() > 0 {
        let n = raw.len();
        json_without_filters_keeps_everything(raw.take(n - 1), parsed.take(n - 1), f);
        assert(raw.take(n - 1).push(raw[n - 1]) =~= raw);
    }
}

/// Filters that hold only an account filter.
pub open spec fn account_filter(a: String) -> Filters {
    Filters {
        since: None,
        until: None,
        payee: None,
        account: Some(a),
        category: None,
        uncategorized: false,
        unapproved: false,
    }
}

/// Filters that hold only a payee filter.
pub open spec fn payee_filter(p: String) -> Filters {
    Filters { account: None, payee: Some(p), ..account_filter(p) }
}

/// Filters that hold only a category filter.
pub open spec fn category_filter(c: String) -> Filters {
    Filters { account: None, category: Some(c), ..account_filter(c) }
}

/// Whether `needle` occurs in `name`, ignoring case.
pub open spec fn names(name: Option<String>, needle: String) -> bool {
    name matches Some(n) && exists|i: int|
        0 <= i && i + lowercase_of(needle@).len() <= lowercase_of(n@).len() && #[trigger] lowercase_of(
            n@,
        ).subrange(i, i + lowercase_of(needle@).len()) == lowercase_of(needle@)
}

/// The account, payee and category filters each accept a value exactly when
/// it is the entity's id or occurs in the entity's name ignoring case: a
/// transaction of the "Chequing" account matches `--account chequing`.
pub proof fn name_filters_match_id_or_name(t: Transaction, v: String)
    ensures
        matches_filters_spec(t, account_filter(v)) <==> (v@ == t.account_id@ || names(
            t.account_name,
            v,
        )),
        matches_filters_spec(t, payee_filter(v)) <==> ((t.payee_id matches Some(id) && v@ == id@)
            || names(t.payee_name, v)),
        matches_filters_spec(t, category_filter(v)) <==> ((t.category_id matches Some(id) && v@
            == id@) || names(t.category_name, v)),
{
}

} // verus!
