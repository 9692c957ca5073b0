//! Process-local cost ledger: a bounded ring of transaction cost records
//! and the summaries computed over it. Nothing is persisted, so a fresh
//! workbench starts at zero cost.

use vstd::prelude::*;
use crate::cluster::{ClusterKind, all_clusters, cluster_in};

verus! {

/// How many records a ledger made by `new` keeps.
pub const DEFAULT_CAPACITY: usize = 4096;

/// The cost of one transaction that the workbench sent or explained.
#[derive(Debug, Clone)]
pub struct TxCostRecord {
    pub cluster: ClusterKind,
    pub signature: String,
    pub lamports_fee: u64,
    pub priority_fee_lamports: u64,
    pub compute_units_consumed: u64,
    pub rent_lamports: u64,
    pub timestamp_ms: u64,
}

/// Totals for one cluster.
#[derive(Debug, Clone, Copy, PartialEq, Eq, Structural)]
pub struct ClusterCostBreakdown {
    pub cluster: ClusterKind,
    pub tx_count: u64,
    pub lamports_spent: u64,
    pub compute_units_used: u64,
    pub rent_locked_lamports: u64,
}

/// Totals over every requested cluster, and one breakdown per cluster.
#[derive(Debug, Clone)]
pub struct LocalCostSummary {
    pub tx_count: u64,
    pub lamports_spent: u64,
    pub compute_units_used: u64,
    pub rent_locked_lamports: u64,
    pub by_cluster: Vec<ClusterCostBreakdown>,
}

/// The ledger: at most `capacity` records, oldest first.
#[derive(Debug)]
pub struct LocalCostLedger {
    records: Vec<TxCostRecord>,
    capacity: usize,
}

/// `a + b`, capped at `u64::MAX`.
pub open spec fn sat(a: u64, b: u64) -> u64 {
    if a + b > u64::MAX {
        u64::MAX
    } else {
        (a + b) as u64
    }
}

/// What a transaction spent: its fee plus its priority fee.
pub open spec fn spend(r: TxCostRecord) -> u64 {
    sat(r.lamports_fee, r.priority_fee_lamports)
}

/// The earliest timestamp a summary keeps: `window_s` seconds before `now_ms`.
pub open spec fn cutoff_of(window_s: Option<u64>, now_ms: u64) -> Option<u64> {
    match window_s {
        None => None,
        Some(w) => {
            let span: u64 = if w * 1000 > u64::MAX { u64::MAX } else { (w * 1000) as u64 };
            Some(if now_ms - span < 0 { 0u64 } else { (now_ms - span) as u64 })
        },
    }
}

/// Whether a summary over `clusters` with this cutoff counts `r`.
pub open spec fn kept(clusters: Seq<ClusterKind>, cutoff: Option<u64>, r: TxCostRecord) -> bool {
    &&& clusters.contains(r.cluster)
    &&& match cutoff {
        None => true,
        Some(c) => r.timestamp_ms >= c,
    }
}

/// The four saturating totals (count, spend, compute units, rent) over the
/// records of `s` that are kept.
pub open spec fn totals(s: Seq<TxCostRecord>, clusters: Seq<ClusterKind>, cutoff: Option<u64>) -> (
    u64,
    u64,
    u64,
    u64,
)
    decreases s.len(),
{
    if s.len() == 0 {
        (0, 0, 0, 0)
    } else {
        let t = totals(s.drop_last(), clusters, cutoff);
        let r = s.last();
        if kept(clusters, cutoff, r) {
            (sat(t.0, 1), sat(t.1, spend(r)), sat(t.2, r.compute_units_consumed), sat(t.3, r.rent_lamports))
        } else {
            t
        }
    }
}

/// The breakdown of cluster `k`.
pub open spec fn breakdown(s: Seq<TxCostRecord>, k: ClusterKind, cutoff: Option<u64>) -> ClusterCostBreakdown {
    let t = totals(s, seq![k], cutoff);
    ClusterCostBreakdown {
        cluster: k,
        tx_count: t.0,
        lamports_spent: t.1,
        compute_units_used: t.2,
        rent_locked_lamports: t.3,
    }
}

/// One breakdown for each cluster of `ks` that is requested, in the order of `ks`.
pub open spec fn breakdowns(
    ks: Seq<ClusterKind>,
    s: Seq<TxCostRecord>,
    clusters: Seq<ClusterKind>,
    cutoff: Option<u64>,
) -> Seq<ClusterCostBreakdown>
    decreases ks.len(),
{
    if ks.len() == 0 {
        seq![]
    } else {
        let rest = breakdowns(ks.drop_last(), s, clusters, cutoff);
        if clusters.contains(ks.last()) {
            rest.push(breakdown(s, ks.last(), cutoff))
        } else {
            rest
        }
    }
}

/// The summary of `s` over `clusters` with this cutoff.
pub open spec fn summary_is(
    r: LocalCostSummary,
    s: Seq<TxCostRecord>,
    clusters: Seq<ClusterKind>,
    cutoff: Option<u64>,
) -> bool {
    let t = totals(s, clusters, cutoff);
    &&& r.tx_count == t.0
    &&& r.lamports_spent == t.1
    &&& r.compute_units_used == t.2
    &&& r.rent_locked_lamports == t.3
    &&& r.by_cluster@ == breakdowns(all_clusters(), s, clusters, cutoff)
}

/// The records after appending `r` to `s` in a ledger of capacity `cap`.
pub open spec fn after_record(s: Seq<TxCostRecord>, cap: nat, r: TxCostRecord) -> Seq<TxCostRecord> {
    if s.len() == cap {
        s.drop_first().push(r)
    } else {
        s.push(r)
    }
}

/// Saturating addition; `u64::saturating_add`.
fn add_sat(a: u64, b: u64) -> (r: u64)
    ensures
        r == sat(a, b),
{
    a.saturating_add(b)
}

/// The totals over `records`.
fn sum_records(records: &Vec<TxCostRecord>, clusters: &[ClusterKind], cutoff: Option<u64>) -> (t: (
    u64,
    u64,
    u64,
    u64,
))
    ensures
        t == totals(records@, clusters@, cutoff),
{
    let mut t: (u64, u64, u64, u64) = (0, 0, 0, 0);
    let mut i: usize = 0;
    while i < records.len()
        invariant
            i <= records.len(),
            t == totals(records@.subrange(0, i as int), clusters@, cutoff),
        decreases records.len() - i,
    {
        let r = &records[i];
        let in_window = match cutoff {
            None => true,
            Some(c) => r.timestamp_ms >= c,
        };
        proof {
            assert(records@.subrange(0, i + 1).drop_last() =~= records@.subrange(0, i as int));
            assert(records@.subrange(0, i + 1).last() == *r);
        }
        if cluster_in(clusters, r.cluster) && in_window {
            let spent = add_sat(r.lamports_fee, r.priority_fee_lamports);
            t = (
                add_sat(t.0, 1),
                add_sat(t.1, spent),
                add_sat(t.2, r.compute_units_consumed),
                add_sat(t.3, r.rent_lamports),
            );
        }
        i = i + 1;
    }
    assert(records@.subrange(0, records@.len() as int) =~= records@);
    t
}

/// The summary of `records` over `clusters` with this cutoff.
pub fn summarize(records: &Vec<TxCostRecord>, clusters: &[ClusterKind], cutoff: Option<u64>) -> (r:
    LocalCostSummary)
    ensures
        summary_is(r, records@, clusters@, cutoff),
{
    let t = sum_records(records, clusters, cutoff);
    let all = ClusterKind::all();
    let mut by_cluster: Vec<ClusterCostBreakdown> = Vec::new();
    let mut i: usize = 0;
    while i < all.len()
        invariant
            all@ == all_clusters(),
            i <= all.len(),
            by_cluster@ == breakdowns(all@.subrange(0, i as int), records@, clusters@, cutoff),
        decreases all.len() - i,
    {
        let k = all[i];
        proof {
            assert(all@.subrange(0, i + 1).drop_last() =~= all@.subrange(0, i as int));
        }
        if cluster_in(clusters, k) {
            let one = [k];
            proof {
                assert(one@ =~= seq![k]);
            }
            let b = sum_records(records, &one, cutoff);
            by_cluster.push(
                ClusterCostBreakdown {
                    cluster: k,
                    tx_count: b.0,
                    lamports_spent: b.1,
                    compute_units_used: b.2,
                    rent_locked_lamports: b.3,
                },
            );
        }
        i = i + 1;
    }
    assert(all@.subrange(0, all@.len() as int) =~= all@);
    LocalCostSummary {
        tx_count: t.0,
        lamports_spent: t.1,
        compute_units_used: t.2,
        rent_locked_lamports: t.3,
        by_cluster,
    }
}

/// The earliest timestamp kept by a window of `window_s` seconds ending at `now_ms`.
pub fn window_cutoff(window_s: Option<u64>, now_ms: u64) -> (r: Option<u64>)
    ensures
        r == cutoff_of(window_s, now_ms),
{
    match window_s {
        None => None,
        Some(w) => {
            let span = match w.checked_mul(1000) {
                Some(x) => x,
                None => u64::MAX,
            };
            Some(now_ms.saturating_sub(span))
        },
    }
}

/// Milliseconds since the Unix epoch, from the system clock
/// (`SystemTime::now`); 0 when the clock reads before the epoch. Nothing
/// is promised of the value, which depends on the time of the call.
#[verifier::external_body]
pub fn now_ms() -> (r: u64) {
    std::time::SystemTime::now().duration_since(std::time::UNIX_EPOCH).map(|d| d.as_millis() as u64).unwrap_or(0)
}

impl LocalCostLedger {
    #[verifier::type_invariant]
    spec fn bounded(self) -> bool {
        &&& 1 <= self.capacity
        &&& self.records.len() <= self.capacity
    }

    /// The records held, oldest first.
    pub closed spec fn records(&self) -> Seq<TxCostRecord> {
        self.records@
    }

    /// The most records this ledger holds.
    pub closed spec fn capacity(&self) -> nat {
        self.capacity as nat
    }

    pub fn new() -> (l: Self)
        ensures
            l.records() == Seq::<TxCostRecord>::empty(),
            l.capacity() == DEFAULT_CAPACITY,
    {
        Self::with_capacity(DEFAULT_CAPACITY)
    }

    /// A ledger that keeps at most `capacity` records (at least one).
    pub fn with_capacity(capacity: usize) -> (l: Self)
        ensures
            l.records() == Seq::<TxCostRecord>::empty(),
            l.capacity() == if capacity < 1 { 1 } else { capacity as nat },
    {
        let cap = if capacity < 1 { 1 } else { capacity };
        LocalCostLedger { records: Vec::new(), capacity: cap }
    }

    /// Appends a record, evicting the oldest one when the ledger is full.
    pub fn record(&mut self, record: TxCostRecord)
        ensures
            final(self).records() == after_record(old(self).records(), old(self).capacity(), record),
            final(self).capacity() == old(self).capacity(),
            final(self).records().len() <= final(self).capacity(),
    {
        proof {
            use_type_invariant(&*self);
        }
        let mut recs: Vec<TxCostRecord> = Vec::new();
        std::mem::swap(&mut recs, &mut self.records);
        if recs.len() == self.capacity {
            recs.remove(0);
        }
        recs.push(record);
        proof {
            assert(old(self).records().len() == self.capacity ==> recs@ =~= old(self).records().drop_first().push(record));
        }
        self.records = recs;
    }

    /// How many records are held; never more than the capacity.
    pub fn len(&self) -> (n: usize)
        ensures
            n == self.records().len(),
            n <= self.capacity(),
    {
        proof {
            use_type_invariant(self);
        }
        self.records.len()
    }

    pub fn is_empty(&self) -> (b: bool)
        ensures
            b == (self.records().len() == 0),
    {
        self.len() == 0
    }

    /// Drops every record.
    pub fn clear(&mut self)
        ensures
            final(self).records() == Seq::<TxCostRecord>::empty(),
            final(self).capacity() == old(self).capacity(),
    {
        proof {
            use_type_invariant(&*self);
        }
        self.records = Vec::new();
    }

    /// The summary over `clusters` of the records no older than
    /// `window_s` seconds before `now_ms` (all records when `window_s` is
    /// `None`).
    pub fn summary_at(&self, clusters: &[ClusterKind], window_s: Option<u64>, now_ms: u64) -> (r:
        LocalCostSummary)
        ensures
            summary_is(r, self.records(), clusters@, cutoff_of(window_s, now_ms)),
    {
        let cutoff = window_cutoff(window_s, now_ms);
        summarize(&self.records, clusters, cutoff)
    }

    /// The summary as of the system clock's present reading.
    pub fn summary(&self, clusters: &[ClusterKind], window_s: Option<u64>) -> (r: LocalCostSummary)
        ensures
            exists|now: u64| summary_is(r, self.records(), clusters@, #[trigger] cutoff_of(window_s, now)),
            window_s is None ==> summary_is(r, self.records(), clusters@, None),
    {
        let now = now_ms();
        let r = self.summary_at(clusters, window_s, now);
        assert(summary_is(r, self.records(), clusters@, cutoff_of(window_s, now)));
        r
    }
}

} // verus!

verus! {

/// Recording keeps the latest records: the ledger holds the old records and
/// the new one, oldest dropped first, never more than its capacity, and
/// the new record last.
pub proof fn law_ledger_keeps_the_latest_records(s: Seq<TxCostRecord>, cap: nat, r: TxCostRecord)
    requires
        1 <= cap,
        s.len() <= cap,
    ensures
        after_record(s, cap, r) == s.push(r).subrange(
            if s.len() + 1 > cap { 1int } else { 0int },
            s.len() + 1int,
        ),
        after_record(s, cap, r).len() <= cap,
        after_record(s, cap, r).last() == r,
{
    if s.len() == cap {
        assert(s.drop_first().push(r) =~= s.push(r).subrange(1, s.len() + 1int));
    } else {
        assert(s.push(r) =~= s.push(r).subrange(0, s.len() + 1int));
    }
}

/// The records a ledger of capacity `cap` holds after recording each of
/// `rs` in turn, starting empty.
pub open spec fn recorded(cap: nat, rs: Seq<TxCostRecord>) -> Seq<TxCostRecord>
    decreases rs.len(),
{
    if rs.len() == 0 {
        seq![]
    } else {
        after_record(recorded(cap, rs.drop_last()), cap, rs.last())
    }
}

/// A ledger made `with_capacity(capacity)` that then records `rs` holds
/// `min(rs.len(), max(capacity, 1))` records: the newest of `rs`, oldest
/// first.
pub proof fn law_ledger_keeps_the_newest_records(capacity: usize, rs: Seq<TxCostRecord>)
    ensures
        ({
            let cap: nat = if capacity < 1 { 1 } else { capacity as nat };
            let n: int = if rs.len() < cap { rs.len() as int } else { cap as int };
            &&& recorded(cap, rs).len() == n
            &&& recorded(cap, rs) == rs.subrange(rs.len() - n, rs.len() as int)
        }),
    decreases rs.len(),
{
    let cap: nat = if capacity < 1 { 1 } else { capacity as nat };
    if rs.len() > 0 {
        let prev = rs.drop_last();
        law_ledger_keeps_the_newest_records(capacity, prev);
        let k = prev.len() as int;
        let np: int = if k < cap { k } else { cap as int };
        assert(recorded(cap, prev) == prev.subrange(k - np, k));
        if k >= cap {
            assert(recorded(cap, rs) =~= rs.subrange(rs.len() - cap, rs.len() as int));
        } else {
            assert(recorded(cap, rs) =~= rs.subrange(0, rs.len() as int));
        }
    } else {
        assert(recorded(cap, rs) =~= rs.subrange(0, 0));
    }
}

} // verus!

verus! {

/// Summaries add up record by record: a summary of the records empty of
/// kept ones counts nothing; one more record that the summary keeps adds
/// one to the count and its spend, compute units and rent to the totals,
/// each capped at `u64::MAX`; a record it does not keep changes nothing.
pub proof fn law_summaries_add_up_record_by_record(
    s: Seq<TxCostRecord>,
    x: TxCostRecord,
    clusters: Seq<ClusterKind>,
    cutoff: Option<u64>,
    before: LocalCostSummary,
    after: LocalCostSummary,
    empty: LocalCostSummary,
)
    requires
        summary_is(before, s, clusters, cutoff),
        summary_is(after, s.push(x), clusters, cutoff),
        summary_is(empty, seq![], clusters, cutoff),
    ensures
        empty.tx_count == 0 && empty.lamports_spent == 0 && empty.compute_units_used == 0
            && empty.rent_locked_lamports == 0,
        kept(clusters, cutoff, x) ==> {
            &&& after.tx_count == if before.tx_count + 1 > u64::MAX { u64::MAX as int } else { before.tx_count + 1 }
            &&& after.compute_units_used == if before.compute_units_used + x.compute_units_consumed > u64::MAX {
                u64::MAX as int
            } else {
                before.compute_units_used + x.compute_units_consumed
            }
            &&& after.rent_locked_lamports == if before.rent_locked_lamports + x.rent_lamports > u64::MAX {
                u64::MAX as int
            } else {
                before.rent_locked_lamports + x.rent_lamports
            }
            &&& after.lamports_spent == if before.lamports_spent + spend(x) > u64::MAX {
                u64::MAX as int
            } else {
                before.lamports_spent + spend(x)
            }
        },
        !kept(clusters, cutoff, x) ==> {
            &&& after.tx_count == before.tx_count
            &&& after.lamports_spent == before.lamports_spent
            &&& after.compute_units_used == before.compute_units_used
            &&& after.rent_locked_lamports == before.rent_locked_lamports
        },
{
    assert(s.push(x).drop_last() =~= s);
    assert(s.push(x).last() == x);
}

} // verus!
