//! The metrics state the monitors write into: three gauge families, each a
//! finite map from an ordered label tuple to an integer value.
//!
//! Writes are idempotent overwrites keyed by the full label tuple; a bulk
//! reset empties every family.  The rendering edge reads the entry vectors
//! and owns the exposition format and the HTTP server.
use vstd::prelude::*;

verus! {

/// Label tuple of the balance gauge.
pub struct BalanceLabels {
    pub chain_id: String,
    pub address: String,
    pub denom: String,
    pub role: String,
    pub balance_url: String,
}

impl View for BalanceLabels {
    type V = (Seq<char>, Seq<char>, Seq<char>, Seq<char>, Seq<char>);

    open spec fn view(&self) -> Self::V {
        (self.chain_id@, self.address@, self.denom@, self.role@, self.balance_url@)
    }
}

/// Label tuple of the threshold-status gauge.
pub struct StatusLabels {
    pub chain_id: String,
    pub address: String,
    pub denom: String,
    pub min_balance: String,
    pub role: String,
    pub balance_url: String,
}

impl View for StatusLabels {
    type V = (Seq<char>, Seq<char>, Seq<char>, Seq<char>, Seq<char>, Seq<char>);

    open spec fn view(&self) -> Self::V {
        (
            self.chain_id@,
            self.address@,
            self.denom@,
            self.min_balance@,
            self.role@,
            self.balance_url@,
        )
    }
}

/// Label tuple of the query-status gauge.
pub struct QueryStatusLabels {
    pub chain_id: String,
    pub address: String,
    pub role: String,
    pub balance_url: String,
    pub query_endpoint_url: String,
}

impl View for QueryStatusLabels {
    type V = (Seq<char>, Seq<char>, Seq<char>, Seq<char>, Seq<char>);

    open spec fn view(&self) -> Self::V {
        (self.chain_id@, self.address@, self.role@, self.balance_url@, self.query_endpoint_url@)
    }
}

/// A label type that can decide whether two tuples are the same key.
pub trait LabelKey: View + Sized {
    fn key_eq(&self, other: &Self) -> (r: bool)
        ensures
            r == (self@ == other@),
    ;
}

impl LabelKey for BalanceLabels {
    fn key_eq(&self, other: &Self) -> (r: bool)
        ensures
            r == (self@ == other@),
    {
        self.chain_id == other.chain_id && self.address == other.address && self.denom
            == other.denom && self.role == other.role && self.balance_url == other.balance_url
    }
}

impl LabelKey for StatusLabels {
    fn key_eq(&self, other: &Self) -> (r: bool)
        ensures
            r == (self@ == other@),
    {
        self.chain_id == other.chain_id && self.address == other.address && self.denom
            == other.denom && self.min_balance == other.min_balance && self.role == other.role
            && self.balance_url == other.balance_url
    }
}

impl LabelKey for QueryStatusLabels {
    fn key_eq(&self, other: &Self) -> (r: bool)
        ensures
            r == (self@ == other@),
    {
        self.chain_id == other.chain_id && self.address == other.address && self.role == other.role
            && self.balance_url == other.balance_url && self.query_endpoint_url
            == other.query_endpoint_url
    }
}

/// The map a gauge family's entry vector denotes: later entries overwrite
/// earlier ones with the same key.
pub open spec fn gauge_map<L: View>(entries: Seq<(L, i64)>) -> Map<L::V, int>
    decreases entries.len(),
{
    if entries.len() == 0 {
        Map::empty()
    } else {
        gauge_map(entries.drop_last()).insert(entries.last().0@, entries.last().1 as int)
    }
}

/// No two entries share a key, so every key names one value.
pub open spec fn distinct_keys<L: View>(entries: Seq<(L, i64)>) -> bool {
    forall|a: int, b: int|
        0 <= a < b < entries.len() ==> (#[trigger] entries[a]).0@ != (#[trigger] entries[b]).0@
}

proof fn lemma_gauge_map_contains<L: View>(entries: Seq<(L, i64)>, k: L::V)
    ensures
        gauge_map(entries).contains_key(k) <==> exists|a: int|
            0 <= a < entries.len() && (#[trigger] entries[a]).0@ == k,
    decreases entries.len(),
{
    if entries.len() > 0 {
        lemma_gauge_map_contains(entries.drop_last(), k);
        assert(forall|a: int|
            0 <= a < entries.len() - 1 ==> (#[trigger] entries[a]) == entries.drop_last()[a]);
        if entries.last().0@ == k {
            assert(entries[entries.len() - 1].0@ == k);
        }
    }
}

proof fn lemma_gauge_map_update<L: View>(entries: Seq<(L, i64)>, a: int, x: (L, i64))
    requires
        distinct_keys(entries),
        0 <= a < entries.len(),
        x.0@ == entries[a].0@,
    ensures
        gauge_map(entries.update(a, x)) == gauge_map(entries).insert(x.0@, x.1 as int),
    decreases entries.len(),
{
    let u = entries.update(a, x);
    if a == entries.len() - 1 {
        assert(u.drop_last() =~= entries.drop_last());
        assert(u.last() == x);
        assert(gauge_map(entries.drop_last()).insert(entries.last().0@, entries.last().1 as int)
            .insert(x.0@, x.1 as int) =~= gauge_map(entries.drop_last()).insert(x.0@, x.1 as int));
    } else {
        assert(u.drop_last() =~= entries.drop_last().update(a, x));
        assert(forall|c: int, d: int|
            0 <= c < d < entries.len() - 1 ==> (#[trigger] entries.drop_last()[c]).0@
                != (#[trigger] entries.drop_last()[d]).0@);
        assert(entries.drop_last()[a] == entries[a]);
        lemma_gauge_map_update(entries.drop_last(), a, x);
        assert(u.last() == entries.last());
        // the updated key differs from the last entry's key, so the two
        // inserts commute
        assert(entries[a].0@ != entries.last().0@);
        assert(gauge_map(entries.drop_last()).insert(x.0@, x.1 as int).insert(
            entries.last().0@,
            entries.last().1 as int,
        ) =~= gauge_map(entries.drop_last()).insert(entries.last().0@, entries.last().1 as int)
            .insert(x.0@, x.1 as int));
    }
}

/// Insert-or-overwrite one labelled value in a gauge family.
fn gauge_set<L: LabelKey>(entries: &mut Vec<(L, i64)>, label: L, value: i64)
    requires
        distinct_keys(old(entries)@),
    ensures
        distinct_keys(final(entries)@),
        gauge_map(final(entries)@) == gauge_map(old(entries)@).insert(label@, value as int),
{
    let n: usize = entries.len();
    let mut idx: usize = 0;
    while idx < n
        invariant
            n == entries@.len(),
            idx <= n,
            *entries == *old(entries),
            distinct_keys(entries@),
            forall|t: int| 0 <= t < idx ==> (#[trigger] entries@[t]).0@ != label@,
        decreases n - idx,
    {
        if entries[idx].0.key_eq(&label) {
            let ghost before = entries@;
            let ghost x_view = label@;
            entries[idx] = (label, value);
            proof {
                assert(entries@ =~= before.update(idx as int, entries@[idx as int]));
                assert(entries@[idx as int].0@ == x_view);
                lemma_gauge_map_update(before, idx as int, entries@[idx as int]);
                assert(forall|c: int|
                    0 <= c < entries@.len() ==> (#[trigger] entries@[c]).0@ == before[c].0@);
            }
            return ;
        }
        idx = idx + 1;
    }
    let ghost before = entries@;
    entries.push((label, value));
    proof {
        assert(entries@.drop_last() =~= before);
        assert(entries@.last().0@ == label@);
        assert(forall|c: int| 0 <= c < before.len() ==> (#[trigger] entries@[c]) == before[c]);
    }
}

/// Look one labelled value up in a gauge family.
fn gauge_get<L: LabelKey>(entries: &Vec<(L, i64)>, label: &L) -> (r: Option<i64>)
    requires
        distinct_keys(entries@),
    ensures
        match r {
            Some(v) => gauge_map(entries@).contains_key(label@) && gauge_map(entries@)[label@]
                == v as int,
            None => !gauge_map(entries@).contains_key(label@),
        },
{
    proof {
        lemma_gauge_map_contains(entries@, label@);
    }
    let n: usize = entries.len();
    let mut idx: usize = 0;
    while idx < n
        invariant
            n == entries@.len(),
            idx <= n,
            distinct_keys(entries@),
            forall|t: int| 0 <= t < idx ==> (#[trigger] entries@[t]).0@ != label@,
            gauge_map(entries@).contains_key(label@) <==> exists|a: int|
                0 <= a < entries@.len() && (#[trigger] entries@[a]).0@ == label@,
        decreases n - idx,
    {
        if entries[idx].0.key_eq(label) {
            proof {
                lemma_gauge_value_at(entries@, idx as int);
            }
            return Some(entries[idx].1);
        }
        idx = idx + 1;
    }
    None
}

proof fn lemma_gauge_value_at<L: View>(entries: Seq<(L, i64)>, a: int)
    requires
        distinct_keys(entries),
        0 <= a < entries.len(),
    ensures
        gauge_map(entries).contains_key(entries[a].0@),
        gauge_map(entries)[entries[a].0@] == entries[a].1 as int,
    decreases entries.len(),
{
    if a == entries.len() - 1 {
    } else {
        assert(forall|c: int, d: int|
            0 <= c < d < entries.len() - 1 ==> (#[trigger] entries.drop_last()[c]).0@
                != (#[trigger] entries.drop_last()[d]).0@);
        assert(entries.drop_last()[a] == entries[a]);
        lemma_gauge_value_at(entries.drop_last(), a);
        assert(entries[a].0@ != entries.last().0@);
    }
}

/// The shared metrics state: one entry vector per gauge family.
pub struct MetricsState {
    pub balances: Vec<(BalanceLabels, i64)>,
    pub statuses: Vec<(StatusLabels, i64)>,
    pub query_statuses: Vec<(QueryStatusLabels, i64)>,
}

impl MetricsState {
    pub open spec fn wf(&self) -> bool {
        distinct_keys(self.balances@) && distinct_keys(self.statuses@) && distinct_keys(
            self.query_statuses@,
        )
    }

    pub open spec fn balance_map(&self) -> Map<
        (Seq<char>, Seq<char>, Seq<char>, Seq<char>, Seq<char>),
        int,
    > {
        gauge_map(self.balances@)
    }

    pub open spec fn status_map(&self) -> Map<
        (Seq<char>, Seq<char>, Seq<char>, Seq<char>, Seq<char>, Seq<char>),
        int,
    > {
        gauge_map(self.statuses@)
    }

    pub open spec fn query_status_map(&self) -> Map<
        (Seq<char>, Seq<char>, Seq<char>, Seq<char>, Seq<char>),
        int,
    > {
        gauge_map(self.query_statuses@)
    }

    /// Clears every gauge family; label tuples reappear on the next
    /// successful tick of each monitor.
    pub fn reset_all(&mut self)
        ensures
            final(self).wf(),
            final(self).balances@.len() == 0,
            final(self).statuses@.len() == 0,
            final(self).query_statuses@.len() == 0,
            final(self).balance_map() == Map::<
                (Seq<char>, Seq<char>, Seq<char>, Seq<char>, Seq<char>),
                int,
            >::empty(),
            final(self).status_map() == Map::<
                (Seq<char>, Seq<char>, Seq<char>, Seq<char>, Seq<char>, Seq<char>),
                int,
            >::empty(),
            final(self).query_status_map() == Map::<
                (Seq<char>, Seq<char>, Seq<char>, Seq<char>, Seq<char>),
                int,
            >::empty(),
    {
        self.balances.clear();
        self.statuses.clear();
        self.query_statuses.clear();
    }

    /// The balance gauge's value at a label tuple, if that tuple has been
    /// written since the last reset.
    pub fn balance_value(&self, label: &BalanceLabels) -> (r: Option<i64>)
        requires
            self.wf(),
        ensures
            match r {
                Some(v) => self.balance_map().contains_key(label@) && self.balance_map()[label@]
                    == v as int,
                None => !self.balance_map().contains_key(label@),
            },
    {
        gauge_get(&self.balances, label)
    }

    /// The threshold-status gauge's value at a label tuple.
    pub fn status_value(&self, label: &StatusLabels) -> (r: Option<i64>)
        requires
            self.wf(),
        ensures
            match r {
                Some(v) => self.status_map().contains_key(label@) && self.status_map()[label@]
                    == v as int,
                None => !self.status_map().contains_key(label@),
            },
    {
        gauge_get(&self.statuses, label)
    }

    /// The query-status gauge's value at a label tuple.
    pub fn query_status_value(&self, label: &QueryStatusLabels) -> (r: Option<i64>)
        requires
            self.wf(),
        ensures
            match r {
                Some(v) => self.query_status_map().contains_key(label@)
                    && self.query_status_map()[label@] == v as int,
                None => !self.query_status_map().contains_key(label@),
            },
    {
        gauge_get(&self.query_statuses, label)
    }
}

/// Creates the gauge families the watcher writes into, all empty.
pub fn register_custom_metrics() -> (r: MetricsState)
    ensures
        r.wf(),
        r.balances@.len() == 0,
        r.statuses@.len() == 0,
        r.query_statuses@.len() == 0,
{
    MetricsState { balances: Vec::new(), statuses: Vec::new(), query_statuses: Vec::new() }
}

/// Sets the balance gauge at (chain_id, address, denom, role, balance_url).
pub fn account_balance_setter(
    metrics: &mut MetricsState,
    chain_id: &str,
    address: &str,
    denom: &str,
    role: &str,
    balance_url: &str,
    balance: i64,
)
    requires
        old(metrics).wf(),
    ensures
        final(metrics).wf(),
        final(metrics).balance_map() == old(metrics).balance_map().insert(
            (chain_id@, address@, denom@, role@, balance_url@),
            balance as int,
        ),
        final(metrics).statuses == old(metrics).statuses,
        final(metrics).query_statuses == old(metrics).query_statuses,
{
    let label = BalanceLabels {
        chain_id: chain_id.to_owned(),
        address: address.to_owned(),
        denom: denom.to_owned(),
        role: role.to_owned(),
        balance_url: balance_url.to_owned(),
    };
    gauge_set(&mut metrics.balances, label, balance);
}

/// Sets the threshold-status gauge at (chain_id, address, denom,
/// min_balance, role, balance_url): 0 above the threshold, 1 at or below it.
pub fn account_status_setter(
    metrics: &mut MetricsState,
    chain_id: &str,
    address: &str,
    denom: &str,
    min_balance: &str,
    role: &str,
    balance_url: &str,
    status: i64,
)
    requires
        old(metrics).wf(),
    ensures
        final(metrics).wf(),
        final(metrics).status_map() == old(metrics).status_map().insert(
            (chain_id@, address@, denom@, min_balance@, role@, balance_url@),
            status as int,
        ),
        final(metrics).balances == old(metrics).balances,
        final(metrics).query_statuses == old(metrics).query_statuses,
{
    let label = StatusLabels {
        chain_id: chain_id.to_owned(),
        address: address.to_owned(),
        denom: denom.to_owned(),
        min_balance: min_balance.to_owned(),
        role: role.to_owned(),
        balance_url: balance_url.to_owned(),
    };
    gauge_set(&mut metrics.statuses, label, status);
}

/// Sets the query-status gauge at (chain_id, address, role, balance_url,
/// query_endpoint_url): 0 when the most recent query succeeded, 1 when it
/// failed.
pub fn account_query_status_setter(
    metrics: &mut MetricsState,
    chain_id: &str,
    address: &str,
    role: &str,
    balance_url: &str,
    query_endpoint_url: &str,
    status: i64,
)
    requires
        old(metrics).wf(),
    ensures
        final(metrics).wf(),
        final(metrics).query_status_map() == old(metrics).query_status_map().insert(
            (chain_id@, address@, role@, balance_url@, query_endpoint_url@),
            status as int,
        ),
        final(metrics).balances == old(metrics).balances,
        final(metrics).statuses == old(metrics).statuses,
{
    let label = QueryStatusLabels {
        chain_id: chain_id.to_owned(),
        address: address.to_owned(),
        role: role.to_owned(),
        balance_url: balance_url.to_owned(),
        query_endpoint_url: query_endpoint_url.to_owned(),
    };
    gauge_set(&mut metrics.query_statuses, label, status);
}

} // verus!
