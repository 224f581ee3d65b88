//! Delta sync against the cache: which request each resource makes, how its
//! reply is merged, and how the cached set is ordered.

use vstd::prelude::*;
use crate::api::client::{
    accounts_path, budget_resource_path, categories_path, payees_path, transactions_path,
    transactions_path_spec,
};
use crate::error::{Error, Result, cache_error};

verus! {

/// The resources the cache keeps.
#[derive(Debug, Clone, Copy, PartialEq, Eq, Structural)]
pub enum Resource {
    Accounts,
    Payees,
    CategoryGroups,
    Transactions,
}

/// The name a resource is stored under, which is also the member of the
/// reply that holds its entities.
pub open spec fn resource_name(r: Resource) -> Seq<char> {
    match r {
        Resource::Accounts => "accounts"@,
        Resource::Payees => "payees"@,
        Resource::CategoryGroups => "category_groups"@,
        Resource::Transactions => "transactions"@,
    }
}

impl Resource {
    /// The stored name of this resource.
    pub fn name(self) -> (r: &'static str)
        ensures
            r@ == resource_name(self),
    {
        match self {
            Resource::Accounts => "accounts",
            Resource::Payees => "payees",
            Resource::CategoryGroups => "category_groups",
            Resource::Transactions => "transactions",
        }
    }
}

/// How a resource is synced.
#[derive(Debug)]
pub struct SyncPlan {
    /// The knowledge value sent with the request (`None`: full fetch).
    pub last_knowledge: Option<i64>,
    /// Whether the reply replaces the cached set wholesale (else it is
    /// merged in, entity by entity, by id).
    pub replace: bool,
    /// The JSON field the cached set is ordered by (`None`: reply order).
    pub order_field: Option<&'static str>,
}

/// The plan for each resource: categories are always fetched in full and
/// replaced wholesale (a nested-group delta merge is not worth it for a
/// small payload) and kept in the API's order; the others send the stored
/// knowledge and merge the delta, accounts and payees ordered by name,
/// transactions by date.
pub open spec fn plan_spec(r: Resource, known: Option<i64>, p: SyncPlan) -> bool {
    match r {
        Resource::CategoryGroups => p.last_knowledge is None && p.replace && p.order_field is None,
        Resource::Accounts | Resource::Payees => p.last_knowledge == known && !p.replace
            && (p.order_field matches Some(f) && f@ == "$.name"@),
        Resource::Transactions => p.last_knowledge == known && !p.replace
            && (p.order_field matches Some(f) && f@ == "$.date"@),
    }
}

/// The sync plan of a resource, given the knowledge stored for it.
pub fn sync_plan(r: Resource, known: Option<i64>) -> (p: SyncPlan)
    ensures
        plan_spec(r, known, p),
{
    match r {
        Resource::CategoryGroups => SyncPlan { last_knowledge: None, replace: true, order_field: None },
        Resource::Accounts | Resource::Payees => SyncPlan {
            last_knowledge: known,
            replace: false,
            order_field: Some("$.name"),
        },
        Resource::Transactions => SyncPlan {
            last_knowledge: known,
            replace: false,
            order_field: Some("$.date"),
        },
    }
}

/// The request a sync of a resource makes. Transactions never send a
/// `since_date`: the cache must stay a complete record, and `--since` is
/// applied locally by the filters.
pub open spec fn sync_path_spec(r: Resource, budget: Seq<char>, known: Option<i64>) -> Seq<char> {
    match r {
        Resource::Accounts => budget_resource_path(budget, "accounts"@, known),
        Resource::Payees => budget_resource_path(budget, "payees"@, known),
        Resource::CategoryGroups => budget_resource_path(budget, "categories"@, None),
        Resource::Transactions => transactions_path_spec(budget, None, known),
    }
}

/// The path a sync of a resource requests.
pub fn sync_path(r: Resource, budget: &str, known: Option<i64>) -> (p: String)
    ensures
        p@ == sync_path_spec(r, budget@, known),
{
    match r {
        Resource::Accounts => accounts_path(budget, known),
        Resource::Payees => payees_path(budget, known),
        Resource::CategoryGroups => categories_path(budget, None),
        Resource::Transactions => transactions_path(budget, None, known),
    }
}

/// The (id, entity) pairs of a reply: the entities whose `id` is a string,
/// in order; any other entity is skipped.
pub open spec fn with_ids<V>(items: Seq<(Option<String>, V)>) -> Seq<(Seq<char>, V)>
    decreases items.len(),
{
    if items.len() == 0 {
        Seq::empty()
    } else {
        let prev = with_ids(items.drop_last());
        match items.last().0 {
            Some(id) => prev.push((id@, items.last().1)),
            None => prev,
        }
    }
}

/// The views of (id, entity) pairs.
pub open spec fn id_pairs_view<V>(v: Seq<(String, V)>) -> Seq<(Seq<char>, V)> {
    v.map_values(|p: (String, V)| (p.0@, p.1))
}

/// Keeps the entities that carry an id, paired with it.
pub fn entity_pairs<V>(items: Vec<(Option<String>, V)>) -> (r: Vec<(String, V)>)
    ensures
        id_pairs_view(r@) == with_ids(items@),
{
    let ghost all = items@;
    let mut rest = items;
    let mut out: Vec<(String, V)> = Vec::new();
    let n = rest.len();
    let mut i: usize = 0;
    while i < n
        invariant
            n == all.len(),
            i <= n,
            rest@ == all.skip(i as int),
            id_pairs_view(out@) == with_ids(all.take(i as int)),
        decreases n - i,
    {
        let (id, v) = rest.remove(0);
        assert(all.take(i + 1).drop_last() =~= all.take(i as int));
        let ghost before = out@;
        match id {
            Some(s) => {
                out.push((s, v));
                assert(id_pairs_view(out@) =~= id_pairs_view(before).push(
                    (all[i as int].0->Some_0@, all[i as int].1),
                ));
            },
            None => {},
        }
        assert(rest@ =~= all.skip(i + 1));
        i = i + 1;
    }
    assert(all.take(n as int) =~= all);
    out
}

/// The knowledge value a cached envelope reports: the stored one, or 0
/// before the first sync.
pub fn envelope_knowledge(stored: Option<i64>) -> (r: i64)
    ensures
        r == match stored {
            Some(k) => k,
            None => 0,
        },
{
    match stored {
        Some(k) => k,
        None => 0,
    }
}

/// What a list command does after trying the cache's sync path.
#[derive(Debug)]
pub enum SyncFallback<T> {
    /// The sync succeeded: use its result.
    Synced(T),
    /// The cache failed: fetch directly from the API instead.
    Direct,
    /// Any other failure is the command's failure.
    Failed(Error),
}

/// A corrupted or undecryptable cache is never a user-facing error: a cache
/// failure during sync falls back to the direct fetch, any other failure is
/// passed on, and a successful sync is used as it is.
pub fn sync_or_direct<T>(r: Result<T>) -> (d: SyncFallback<T>)
    ensures
        match r {
            Ok(v) => d == SyncFallback::Synced(v),
            Err(e) => if e is Cache {
                d is Direct
            } else {
                d == SyncFallback::<T>::Failed(e)
            },
        },
{
    match r {
        Ok(v) => SyncFallback::Synced(v),
        Err(e) => {
            if cache_error(&e) {
                SyncFallback::Direct
            } else {
                SyncFallback::Failed(e)
            }
        },
    }
}

/// Categories are always fetched in full: their sync request never carries
/// the stored knowledge.
pub proof fn categories_always_fetch_in_full(budget: Seq<char>, known: Option<i64>)
    ensures
        sync_path_spec(Resource::CategoryGroups, budget, known) == sync_path_spec(
            Resource::CategoryGroups,
            budget,
            None,
        ),
{
}

/// A transactions sync is the plain transactions request with the stored
/// knowledge and no `since_date`, whatever knowledge is stored.
pub proof fn transactions_sync_never_sends_since_date(budget: Seq<char>, known: Option<i64>)
    ensures
        sync_path_spec(Resource::Transactions, budget, known) == transactions_path_spec(
            budget,
            None,
            known,
        ),
{
}

/// A delta request never replaces the cached set: a plan that sends a stored
/// knowledge value merges the reply into the cache by id, so entities that
/// did not change since the last sync stay. Only a full fetch replaces.
pub proof fn delta_sync_merges(r: Resource, known: Option<i64>, p: SyncPlan)
    requires
        plan_spec(r, known, p),
    ensures
        p.last_knowledge is Some ==> !p.replace,
        p.replace ==> p.last_knowledge is None,
        r != Resource::CategoryGroups ==> p.last_knowledge == known,
{
}

} // verus!
