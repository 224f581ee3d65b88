//! `cache status` and `cache clear`: what is reported about the local cache.
//! Finding, sizing and probing the database file happens in the program
//! around the library; this module decides what is printed from what was
//! found.

use vstd::prelude::*;
use crate::config::{Config, cache_enabled_spec};
use crate::output::rows_view;
use crate::text::{signed_decimal, signed_decimal_string, decimal, decimal_string};

verus! {

/// The nudge shown to users who cache but have no default budget (delta
/// caching needs a concrete budget: the `last-used` alias bypasses it).
pub const DEFAULT_BUDGET_TIP: &'static str =
    "Tip: set a default budget (ynab config set default_budget <id>) to enable delta caching.";

/// What `cache clear` prints.
pub const CLEARED_MESSAGE: &'static str = "Cache cleared.";

/// The headers of the `cache status` table.
pub const STATUS_HEADERS: [&'static str; 4] = ["Budget", "Resource", "Server Knowledge", "Entities"];

/// The tip is relevant while caching is on and no default budget is set.
pub open spec fn tip_relevant(c: Config) -> bool {
    cache_enabled_spec(c@) && c.default_budget is None
}

/// The default-budget tip, when it is relevant to this configuration.
pub fn default_budget_tip(config: &Config) -> (r: Option<&'static str>)
    ensures
        r is Some <==> tip_relevant(*config),
        r matches Some(t) ==> t@ == DEFAULT_BUDGET_TIP@,
{
    if config.cache_enabled() && config.default_budget.is_none() {
        Some(DEFAULT_BUDGET_TIP)
    } else {
        None
    }
}

/// What was found at the cache's path.
#[derive(Debug, Clone, Copy, PartialEq, Eq, Structural)]
pub enum CacheState {
    /// No database file.
    Missing,
    /// A file that cannot be opened with the key (it is rebuilt on next use,
    /// never repaired by `status`).
    Unreadable,
    /// A readable database of this many bytes.
    Present { size: u64 },
}

/// The first line `cache status` prints.
pub open spec fn status_headline_spec(path: Seq<char>, state: CacheState) -> Seq<char> {
    match state {
        CacheState::Missing => "Cache: empty ("@ + path + ")"@,
        CacheState::Unreadable => "Cache: unreadable, will be rebuilt on next use ("@ + path + ")"@,
        CacheState::Present { size } => "Cache: "@ + path + " ("@ + decimal(size as nat)
            + " bytes)"@,
    }
}

/// The first line `cache status` prints for a cache at `path`.
pub fn status_headline(path: &str, state: CacheState) -> (r: String)
    ensures
        r@ == status_headline_spec(path@, state),
{
    match state {
        CacheState::Missing => {
            let mut s = String::from_str("Cache: empty (");
            s.append(path);
            s.append(")");
            s
        },
        CacheState::Unreadable => {
            let mut s = String::from_str("Cache: unreadable, will be rebuilt on next use (");
            s.append(path);
            s.append(")");
            s
        },
        CacheState::Present { size } => {
            let mut s = String::from_str("Cache: ");
            s.append(path);
            s.append(" (");
            let n = decimal_string(size);
            s.append(n.as_str());
            s.append(" bytes)");
            s
        },
    }
}

/// A `cache status` table row: budget, resource, stored knowledge, number of
/// cached entities.
pub open spec fn status_row(r: (String, String, i64, i64)) -> Seq<Seq<char>> {
    seq![r.0@, r.1@, signed_decimal(r.2 as int), signed_decimal(r.3 as int)]
}

/// The rows of the `cache status` table, one per synced resource, in order.
pub fn status_table_rows(rows: Vec<(String, String, i64, i64)>) -> (out: Vec<Vec<String>>)
    ensures
        rows_view(out@) == rows@.map_values(|r: (String, String, i64, i64)| status_row(r)),
{
    let ghost all = rows@;
    let mut out: Vec<Vec<String>> = Vec::new();
    let mut i: usize = 0;
    while i < rows.len()
        invariant
            rows@ == all,
            i <= rows.len(),
            rows_view(out@) =~= all.take(i as int).map_values(
                |r: (String, String, i64, i64)| status_row(r),
            ),
        decreases rows.len() - i,
    {
        let ghost before = out@;
        let r = &rows[i];
        let mut row: Vec<String> = Vec::new();
        row.push(r.0.clone());
        row.push(r.1.clone());
        row.push(signed_decimal_string(r.2));
        row.push(signed_decimal_string(r.3));
        assert(row@.map_values(|c: String| c@) =~= status_row(all[i as int]));
        out.push(row);
        assert(all.take(i + 1) =~= all.take(i as int).push(all[i as int]));
        assert(rows_view(out@) =~= rows_view(before).push(status_row(all[i as int])));
        i = i + 1;
    }
    assert(all.take(rows.len() as int) =~= all);
    out
}

/// One synced resource in the `cache status --json` report.
#[derive(Debug, Clone)]
pub struct ResourceStatus {
    pub budget_id: String,
    pub resource: String,
    pub server_knowledge: i64,
    pub entities: i64,
}

/// The `cache status --json` report: the path and whether a file is there;
/// for a file that cannot be read, `readable: false`; for a readable one,
/// its size and one entry per synced resource.
#[derive(Debug, Clone)]
pub struct StatusReport {
    pub path: String,
    pub exists: bool,
    pub readable: Option<bool>,
    pub size_bytes: Option<u64>,
    pub resources: Option<Vec<ResourceStatus>>,
}

/// Whether a report entry is the status row it was made from.
pub open spec fn is_row_of(s: ResourceStatus, r: (String, String, i64, i64)) -> bool {
    s.budget_id@ == r.0@ && s.resource@ == r.1@ && s.server_knowledge == r.2 && s.entities == r.3
}

/// The report for a cache at `path` in `state`, with the status rows of a
/// readable cache (ignored otherwise).
pub open spec fn status_report_spec(
    path: Seq<char>,
    state: CacheState,
    rows: Seq<(String, String, i64, i64)>,
    r: StatusReport,
) -> bool {
    &&& r.path@ == path
    &&& match state {
        CacheState::Missing => !r.exists && r.readable is None && r.size_bytes is None
            && r.resources is None,
        CacheState::Unreadable => r.exists && r.readable == Some(false) && r.size_bytes is None
            && r.resources is None,
        CacheState::Present { size } => r.exists && r.readable is None && r.size_bytes == Some(
            size,
        ) && (r.resources matches Some(v) && v@.len() == rows.len() && forall|i: int|
            0 <= i < rows.len() ==> #[trigger] is_row_of(v@[i], rows[i])),
    }
}

/// Builds the `cache status --json` report.
pub fn status_report(path: String, state: CacheState, rows: Vec<(String, String, i64, i64)>) -> (r:
    StatusReport)
    ensures
        status_report_spec(path@, state, rows@, r),
{
    match state {
        CacheState::Missing => StatusReport {
            path,
            exists: false,
            readable: None,
            size_bytes: None,
            resources: None,
        },
        CacheState::Unreadable => StatusReport {
            path,
            exists: true,
            readable: Some(false),
            size_bytes: None,
            resources: None,
        },
        CacheState::Present { size } => {
            let mut out: Vec<ResourceStatus> = Vec::new();
            let mut i: usize = 0;
            while i < rows.len()
                invariant
                    i <= rows.len(),
                    out@.len() == i,
                    forall|k: int| 0 <= k < i ==> #[trigger] is_row_of(out@[k], rows@[k]),
                decreases rows.len() - i,
            {
                let r = &rows[i];
                out.push(
                    ResourceStatus {
                        budget_id: r.0.clone(),
                        resource: r.1.clone(),
                        server_knowledge: r.2,
                        entities: r.3,
                    },
                );
                assert(is_row_of(out@[i as int], rows@[i as int]));
                i = i + 1;
            }
            StatusReport {
                path,
                exists: true,
                readable: None,
                size_bytes: Some(size),
                resources: Some(out),
            }
        },
    }
}

} // verus!
