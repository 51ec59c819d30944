//! The store of live pipeline data: pipelines merged from each poll, the
//! connection status of every source and a bounded history of errors.

use vstd::prelude::*;
use std::collections::VecDeque;
use crate::instant::{is_instant, now_millis, MAX_INSTANT_MS, MIN_INSTANT_MS};
use crate::models::pipeline::{listed_status_order, status_rank, Pipeline, PipelineStatus};
use crate::text::{push_str, same_text};
use crate::utils::time::format_clock;
use crate::instant::utc_clock_text;

verus! {

broadcast use vstd::seq_lib::group_to_multiset_ensures;

// ---------------------------------------------------------------------------
// Source status and error records
// ---------------------------------------------------------------------------

/// Connection status for a single CI/CD source.
#[derive(Debug)]
pub enum SourceStatus {
    /// Successfully connected and fetching data
    Connected,
    /// Initial connection attempt in progress
    Connecting,
    /// Last attempt encountered an error (message included)
    Error(String),
    /// Rate limit hit; includes the instant when the limit resets
    RateLimited(i64),
}

pub enum SourceStatusView {
    Connected,
    Connecting,
    Error(Seq<char>),
    RateLimited(i64),
}

impl View for SourceStatus {
    type V = SourceStatusView;

    open spec fn view(&self) -> SourceStatusView {
        match self {
            SourceStatus::Connected => SourceStatusView::Connected,
            SourceStatus::Connecting => SourceStatusView::Connecting,
            SourceStatus::Error(m) => SourceStatusView::Error(m@),
            SourceStatus::RateLimited(t) => SourceStatusView::RateLimited(*t),
        }
    }
}

/// Short display text of a source status.
pub open spec fn source_status_text(s: SourceStatusView) -> Seq<char> {
    match s {
        SourceStatusView::Connected => "Connected"@,
        SourceStatusView::Connecting => "Connecting…"@,
        SourceStatusView::Error(_) => "Error"@,
        SourceStatusView::RateLimited(_) => "Rate Limited"@,
    }
}

impl SourceStatus {
    /// Short display string for the status bar.
    pub fn as_str(&self) -> (r: &'static str)
        ensures
            r@ == source_status_text(self@),
    {
        match self {
            SourceStatus::Connected => "Connected",
            SourceStatus::Connecting => "Connecting…",
            SourceStatus::Error(_) => "Error",
            SourceStatus::RateLimited(_) => "Rate Limited",
        }
    }
}

/// A single error record in the history.
#[derive(Debug)]
pub struct ErrorEntry {
    pub source: String,
    pub timestamp: i64,
    pub message: String,
}

pub struct ErrorEntryView {
    pub source: Seq<char>,
    pub timestamp: i64,
    pub message: Seq<char>,
}

impl View for ErrorEntry {
    type V = ErrorEntryView;

    open spec fn view(&self) -> ErrorEntryView {
        ErrorEntryView { source: self.source@, timestamp: self.timestamp, message: self.message@ }
    }
}

/// Quick status counts for the header bar.
#[derive(Debug, Clone, Copy)]
pub struct StatusSummary {
    pub running: usize,
    pub pending: usize,
    pub failed: usize,
    pub success: usize,
    pub cancelled: usize,
    pub skipped: usize,
}

// ---------------------------------------------------------------------------
// Keyed lists (the source status table and the last-update table)
// ---------------------------------------------------------------------------

/// Entry `(k, v)` put into a keyed list: it replaces the first entry with
/// key `k`, or is appended when there is none.
pub open spec fn upsert_view<V>(s: Seq<(Seq<char>, V)>, k: Seq<char>, v: V) -> Seq<(Seq<char>, V)> {
    match s.map_values(|e: (Seq<char>, V)| e.0).index_of_first(k) {
        Some(i) => s.update(i, (k, v)),
        None => s.push((k, v)),
    }
}

pub open spec fn statuses_view(s: Seq<(String, SourceStatus)>) -> Seq<(Seq<char>, SourceStatusView)> {
    s.map_values(|e: (String, SourceStatus)| (e.0@, e.1@))
}

pub open spec fn updates_view(s: Seq<(String, i64)>) -> Seq<(Seq<char>, i64)> {
    s.map_values(|e: (String, i64)| (e.0@, e.1))
}

pub open spec fn errors_view(s: Seq<ErrorEntry>) -> Seq<ErrorEntryView> {
    s.map_values(|e: ErrorEntry| e@)
}

/// The most recent `max` entries of a history.
pub open spec fn keep_last<A>(s: Seq<A>, max: int) -> Seq<A> {
    if s.len() > max {
        s.skip(s.len() - max)
    } else {
        s
    }
}

fn upsert_status(v: &mut Vec<(String, SourceStatus)>, key: &str, val: SourceStatus)
    ensures
        statuses_view(final(v)@) == upsert_view(statuses_view(old(v)@), key@, val@),
{
    let ghost keys = statuses_view(old(v)@).map_values(|e: (Seq<char>, SourceStatusView)| e.0);
    proof {
        keys.index_of_first_ensures(key@);
    }
    let n = v.len();
    let mut i: usize = 0;
    while i < n
        invariant
            n == v@.len(),
            i <= n,
            v@ == old(v)@,
            keys == statuses_view(old(v)@).map_values(|e: (Seq<char>, SourceStatusView)| e.0),
            forall|j: int| 0 <= j < i ==> keys[j] != key@,
        decreases n - i,
    {
        if same_text(v[i].0.as_str(), key) {
            assert(keys[i as int] == key@);
            proof {
                keys.index_of_first_ensures(key@);
                let f = keys.index_of_first(key@);
                if f != Some(i as int) {
                    assert(keys.contains(key@));
                }
            }
            v.set(i, (key.to_owned(), val));
            assert(statuses_view(v@) =~= upsert_view(statuses_view(old(v)@), key@, val@));
            return;
        }
        i = i + 1;
    }
    proof {
        assert(!keys.contains(key@));
    }
    v.push((key.to_owned(), val));
    assert(statuses_view(v@) =~= upsert_view(statuses_view(old(v)@), key@, val@));
}

fn upsert_update(v: &mut Vec<(String, i64)>, key: &str, val: i64)
    ensures
        updates_view(final(v)@) == upsert_view(updates_view(old(v)@), key@, val),
{
    let ghost keys = updates_view(old(v)@).map_values(|e: (Seq<char>, i64)| e.0);
    proof {
        keys.index_of_first_ensures(key@);
    }
    let n = v.len();
    let mut i: usize = 0;
    while i < n
        invariant
            n == v@.len(),
            i <= n,
            v@ == old(v)@,
            keys == updates_view(old(v)@).map_values(|e: (Seq<char>, i64)| e.0),
            forall|j: int| 0 <= j < i ==> keys[j] != key@,
        decreases n - i,
    {
        if same_text(v[i].0.as_str(), key) {
            assert(keys[i as int] == key@);
            proof {
                keys.index_of_first_ensures(key@);
                let f = keys.index_of_first(key@);
                if f != Some(i as int) {
                    assert(keys.contains(key@));
                }
            }
            v.set(i, (key.to_owned(), val));
            assert(updates_view(v@) =~= upsert_view(updates_view(old(v)@), key@, val));
            return;
        }
        i = i + 1;
    }
    proof {
        assert(!keys.contains(key@));
    }
    v.push((key.to_owned(), val));
    assert(updates_view(v@) =~= upsert_view(updates_view(old(v)@), key@, val));
}

fn push_error_capped(errors: &mut VecDeque<ErrorEntry>, e: ErrorEntry, max: usize)
    ensures
        errors_view(final(errors)@) == keep_last(errors_view(old(errors)@).push(e@), max as int),
{
    let ghost full = errors_view(old(errors)@).push(e@);
    errors.push_back(e);
    assert(errors_view(errors@) =~= full);
    let ghost mut dropped: int = 0;
    while errors.len() > max
        invariant
            full.len() == errors@.len() + dropped,
            0 <= dropped,
            dropped <= full.len() - max || dropped == 0,
            errors_view(errors@) == full.skip(dropped),
        decreases errors@.len(),
    {
        let ghost prev = errors@;
        let popped = errors.pop_front();
        assert(popped is Some);
        assert(errors@ == prev.subrange(1, prev.len() as int));
        proof {
            dropped = dropped + 1;
        }
        assert forall|k: int| 0 <= k < errors@.len() implies errors_view(errors@)[k] == full.skip(
            dropped,
        )[k] by {
            assert(errors@[k] == prev[k + 1]);
            assert(errors_view(prev)[k + 1] == full.skip(dropped - 1)[k + 1]);
        }
        assert(errors_view(errors@) =~= full.skip(dropped));
    }
    assert(errors_view(errors@) =~= keep_last(full, max as int));
}

// ---------------------------------------------------------------------------
// Pipelines: merge rules
// ---------------------------------------------------------------------------

pub open spec fn pipeline_ids(s: Seq<Pipeline>) -> Seq<Seq<char>> {
    s.map_values(|p: Pipeline| p.id@)
}

/// No two pipelines share an id.
pub open spec fn ids_unique(s: Seq<Pipeline>) -> bool {
    forall|i: int, j: int| 0 <= i < s.len() && 0 <= j < s.len() && i != j ==> s[i].id@ != s[j].id@
}

/// A list of pipelines, each with the name of the source it came from, as
/// text.
pub open spec fn tagged_view(s: Seq<(String, Pipeline)>) -> Seq<(Seq<char>, Pipeline)> {
    s.map_values(|e: (String, Pipeline)| (e.0@, e.1))
}

/// The pipelines of a tagged list.
pub open spec fn untag(t: Seq<(Seq<char>, Pipeline)>) -> Seq<Pipeline> {
    t.map_values(|e: (Seq<char>, Pipeline)| e.1)
}

/// The ids of the pipelines of a tagged list.
pub open spec fn tagged_ids(t: Seq<(Seq<char>, Pipeline)>) -> Seq<Seq<char>> {
    t.map_values(|e: (Seq<char>, Pipeline)| e.1.id@)
}

/// No two pipelines of a tagged list share an id.
pub open spec fn tagged_unique(t: Seq<(Seq<char>, Pipeline)>) -> bool {
    forall|i: int, j: int|
        0 <= i < t.len() && 0 <= j < t.len() && i != j ==> (#[trigger] t[i]).1.id@ != (#[trigger] t[j]).1.id@
}

/// The entries of `t` that came from another source than `source`, in
/// order.
pub open spec fn keep_other_sources(t: Seq<(Seq<char>, Pipeline)>, source: Seq<char>) -> Seq<(Seq<char>, Pipeline)>
    decreases t.len(),
{
    if t.len() == 0 {
        Seq::empty()
    } else {
        let r = keep_other_sources(t.drop_last(), source);
        if t.last().0 == source {
            r
        } else {
            r.push(t.last())
        }
    }
}

/// Entry `e` stored in `t`: it takes the place of the first entry with its
/// pipeline's id, or is appended when there is none.
pub open spec fn upsert_entry(t: Seq<(Seq<char>, Pipeline)>, e: (Seq<char>, Pipeline)) -> Seq<(Seq<char>, Pipeline)> {
    match tagged_ids(t).index_of_first(e.1.id@) {
        Some(i) => t.update(i, e),
        None => t.push(e),
    }
}

/// Every pipeline of `batch`, in order, stored in `t` as coming from
/// `source`.
pub open spec fn upsert_all(t: Seq<(Seq<char>, Pipeline)>, source: Seq<char>, batch: Seq<Pipeline>) -> Seq<(Seq<char>, Pipeline)>
    decreases batch.len(),
{
    if batch.len() == 0 {
        t
    } else {
        upsert_entry(upsert_all(t, source, batch.drop_last()), (source, batch.last()))
    }
}

/// The store after merging a fresh batch from `source`: every pipeline
/// that came from that source is dropped, then every pipeline of the batch
/// is stored by id as coming from it.
pub open spec fn merge_spec(old: Seq<(Seq<char>, Pipeline)>, source: Seq<char>, batch: Seq<Pipeline>) -> Seq<(Seq<char>, Pipeline)> {
    upsert_all(keep_other_sources(old, source), source, batch)
}

// ---------------------------------------------------------------------------
// Pipelines: display order and counts
// ---------------------------------------------------------------------------

/// `a` may come before `b` in the display order: status rank first, then
/// most recent start first.
pub open spec fn display_le(a: Pipeline, b: Pipeline) -> bool {
    status_rank(a.status) < status_rank(b.status) || (status_rank(a.status) == status_rank(
        b.status,
    ) && a.started_at >= b.started_at)
}

pub open spec fn in_display_order(s: Seq<Pipeline>) -> bool {
    forall|i: int, j: int| 0 <= i < j < s.len() ==> display_le(s[i], s[j])
}

/// Where `x` is inserted into a list in display order: before the first
/// entry that it strictly precedes.
pub open spec fn insert_pos(r: Seq<Pipeline>, x: Pipeline) -> int
    decreases r.len(),
{
    if r.len() == 0 {
        0
    } else if !display_le(r[0], x) {
        0
    } else {
        1 + insert_pos(r.drop_first(), x)
    }
}

/// The pipelines of `s` in display order (insertion in turn, each after the
/// entries that it does not strictly precede).
pub open spec fn display_sorted(s: Seq<Pipeline>) -> Seq<Pipeline>
    decreases s.len(),
{
    if s.len() == 0 {
        Seq::empty()
    } else {
        let r = display_sorted(s.drop_last());
        r.insert(insert_pos(r, s.last()), s.last())
    }
}

proof fn lemma_insert_pos(r: Seq<Pipeline>, x: Pipeline, pos: int)
    requires
        0 <= pos <= r.len(),
        forall|k: int| 0 <= k < pos ==> display_le(r[k], x),
        pos == r.len() || !display_le(r[pos], x),
    ensures
        insert_pos(r, x) == pos,
    decreases pos,
{
    if pos > 0 {
        let d = r.drop_first();
        assert forall|k: int| 0 <= k < pos - 1 implies display_le(d[k], x) by {
            assert(d[k] == r[k + 1]);
        }
        if pos - 1 < d.len() {
            assert(d[pos - 1] == r[pos]);
        }
        lemma_insert_pos(d, x, pos - 1);
    }
}

pub open spec fn derefs(s: Seq<&Pipeline>) -> Seq<Pipeline> {
    s.map_values(|p: &Pipeline| *p)
}

/// Number of pipelines with status `st`.
pub open spec fn count_status(s: Seq<Pipeline>, st: PipelineStatus) -> nat
    decreases s.len(),
{
    if s.len() == 0 {
        0
    } else {
        count_status(s.drop_last(), st) + (if s.last().status == st {
            1nat
        } else {
            0nat
        })
    }
}

pub open spec fn summary_matches(r: StatusSummary, s: Seq<Pipeline>) -> bool {
    &&& r.running == count_status(s, PipelineStatus::Running)
    &&& r.pending == count_status(s, PipelineStatus::Pending)
    &&& r.failed == count_status(s, PipelineStatus::Failed)
    &&& r.success == count_status(s, PipelineStatus::Success)
    &&& r.cancelled == count_status(s, PipelineStatus::Cancelled)
    &&& r.skipped == count_status(s, PipelineStatus::Skipped)
}

proof fn lemma_count_le_len(s: Seq<Pipeline>, st: PipelineStatus)
    ensures
        count_status(s, st) <= s.len(),
    decreases s.len(),
{
    if s.len() > 0 {
        lemma_count_le_len(s.drop_last(), st);
    }
}

proof fn lemma_insert_multiset<A>(s: Seq<A>, pos: int, a: A)
    requires
        0 <= pos <= s.len(),
    ensures
        s.insert(pos, a).to_multiset() =~= s.to_multiset().insert(a),
{
    let l = s.subrange(0, pos);
    let r = s.subrange(pos, s.len() as int);
    assert(s =~= l + r);
    vstd::seq_lib::lemma_multiset_commutative(l.push(a), r);
    vstd::seq_lib::lemma_multiset_commutative(l, r);
}


// ---------------------------------------------------------------------------
// Lemmas on the merge rules
// ---------------------------------------------------------------------------

/// The entries kept are those of the list from other sources, and ids stay
/// unique.
proof fn lemma_keep_other_sources(t: Seq<(Seq<char>, Pipeline)>, source: Seq<char>)
    ensures
        forall|x: (Seq<char>, Pipeline)| #[trigger] keep_other_sources(t, source).contains(x) <==> (t.contains(x)
            && x.0 != source),
        tagged_unique(t) ==> tagged_unique(keep_other_sources(t, source)),
    decreases t.len(),
{
    if t.len() > 0 {
        let d = t.drop_last();
        let e = t.last();
        lemma_keep_other_sources(d, source);
        let k = keep_other_sources(d, source);
        assert(t[t.len() - 1] == e);
        assert forall|x: (Seq<char>, Pipeline)| t.contains(x) <==> (d.contains(x) || x == e) by {
            if t.contains(x) {
                let i = choose|i: int| 0 <= i < t.len() && t[i] == x;
                if i < t.len() - 1 {
                    assert(d[i] == x);
                }
            }
            if d.contains(x) {
                let i = choose|i: int| 0 <= i < d.len() && d[i] == x;
                assert(t[i] == x);
            }
        }
        if e.0 != source {
            let kp = k.push(e);
            assert(keep_other_sources(t, source) == kp);
            assert forall|x: (Seq<char>, Pipeline)| kp.contains(x) <==> (k.contains(x) || x == e) by {
                if kp.contains(x) {
                    let i = choose|i: int| 0 <= i < kp.len() && kp[i] == x;
                    if i < k.len() {
                        assert(k[i] == x);
                    }
                }
                if k.contains(x) {
                    let i = choose|i: int| 0 <= i < k.len() && k[i] == x;
                    assert(kp[i] == x);
                }
                assert(kp[k.len() as int] == e);
            }
            if tagged_unique(t) {
                assert(tagged_unique(d)) by {
                    assert forall|i: int, j: int| 0 <= i < d.len() && 0 <= j < d.len() && i != j implies (#[trigger] d[i]).1.id@ != (#[trigger] d[j]).1.id@ by {
                        assert(d[i] == t[i] && d[j] == t[j]);
                    }
                }
                assert forall|i: int, j: int| 0 <= i < kp.len() && 0 <= j < kp.len() && i != j implies (#[trigger] kp[i]).1.id@ != (#[trigger] kp[j]).1.id@ by {
                    if i < k.len() && j < k.len() {
                        assert(kp[i] == k[i] && kp[j] == k[j]);
                    } else {
                        let a = if i < k.len() { i } else { j };
                        assert(kp[a] == k[a]);
                        assert(k.contains(k[a]));
                        assert(d.contains(k[a]));
                        let m = choose|m: int| 0 <= m < d.len() && d[m] == k[a];
                        assert(t[m] == d[m]);
                        assert(t[t.len() - 1] == e);
                    }
                }
            }
        } else {
            assert(keep_other_sources(t, source) == k);
            if tagged_unique(t) {
                assert(tagged_unique(d)) by {
                    assert forall|i: int, j: int| 0 <= i < d.len() && 0 <= j < d.len() && i != j implies (#[trigger] d[i]).1.id@ != (#[trigger] d[j]).1.id@ by {
                        assert(d[i] == t[i] && d[j] == t[j]);
                    }
                }
            }
        }
    }
}

/// Storing an entry keeps ids unique and puts it in the list; the other
/// entries that stay are those with another id.
proof fn lemma_upsert_entry(t: Seq<(Seq<char>, Pipeline)>, e: (Seq<char>, Pipeline))
    ensures
        tagged_unique(t) ==> tagged_unique(upsert_entry(t, e)),
        upsert_entry(t, e).contains(e),
        forall|x: (Seq<char>, Pipeline)| t.contains(x) && x.1.id@ != e.1.id@ ==> #[trigger] upsert_entry(t, e).contains(x),
        tagged_unique(t) ==> forall|x: (Seq<char>, Pipeline)| #[trigger] upsert_entry(t, e).contains(x) ==> x == e
            || (t.contains(x) && x.1.id@ != e.1.id@),
{
    let ids = tagged_ids(t);
    ids.index_of_first_ensures(e.1.id@);
    let u = upsert_entry(t, e);
    match ids.index_of_first(e.1.id@) {
        Some(i) => {
            assert(u[i] == e);
            assert forall|x: (Seq<char>, Pipeline)| t.contains(x) && x.1.id@ != e.1.id@ implies u.contains(x) by {
                let j = choose|j: int| 0 <= j < t.len() && t[j] == x;
                assert(ids[j] == x.1.id@);
                assert(j != i);
                assert(u[j] == x);
            }
            if tagged_unique(t) {
                assert forall|x: (Seq<char>, Pipeline)| u.contains(x) implies x == e || (t.contains(x) && x.1.id@ != e.1.id@) by {
                    let j = choose|j: int| 0 <= j < u.len() && u[j] == x;
                    if j != i {
                        assert(t[j] == x);
                        assert(ids[i] == e.1.id@);
                        assert(ids[j] == x.1.id@);
                    }
                }
                assert forall|a: int, b: int| 0 <= a < u.len() && 0 <= b < u.len() && a != b implies (#[trigger] u[a]).1.id@ != (#[trigger] u[b]).1.id@ by {
                    assert(ids[i] == e.1.id@);
                    if a != i && b != i {
                        assert(u[a] == t[a]);
                        assert(u[b] == t[b]);
                    } else if a == i {
                        assert(u[b] == t[b]);
                        assert(ids[b] == t[b].1.id@);
                    } else {
                        assert(u[a] == t[a]);
                        assert(ids[a] == t[a].1.id@);
                    }
                }
            }
        },
        None => {
            assert(u[t.len() as int] == e);
            assert forall|x: (Seq<char>, Pipeline)| t.contains(x) && x.1.id@ != e.1.id@ implies u.contains(x) by {
                let j = choose|j: int| 0 <= j < t.len() && t[j] == x;
                assert(u[j] == x);
            }
            assert forall|x: (Seq<char>, Pipeline)| u.contains(x) implies x == e || (t.contains(x) && x.1.id@ != e.1.id@) by {
                let j = choose|j: int| 0 <= j < u.len() && u[j] == x;
                if j < t.len() {
                    assert(t[j] == x);
                    assert(ids[j] == x.1.id@);
                    assert(ids.contains(x.1.id@));
                }
            }
            if tagged_unique(t) {
                assert forall|a: int, b: int| 0 <= a < u.len() && 0 <= b < u.len() && a != b implies (#[trigger] u[a]).1.id@ != (#[trigger] u[b]).1.id@ by {
                    if a < t.len() && b < t.len() {
                        assert(u[a] == t[a] && u[b] == t[b]);
                    } else if a < t.len() {
                        assert(u[a] == t[a]);
                        assert(ids[a] == t[a].1.id@);
                        assert(ids.contains(t[a].1.id@));
                    } else {
                        assert(u[b] == t[b]);
                        assert(ids[b] == t[b].1.id@);
                        assert(ids.contains(t[b].1.id@));
                    }
                }
            }
        },
    }
}

proof fn lemma_upsert_all_unique(t: Seq<(Seq<char>, Pipeline)>, source: Seq<char>, batch: Seq<Pipeline>)
    requires
        tagged_unique(t),
    ensures
        tagged_unique(upsert_all(t, source, batch)),
    decreases batch.len(),
{
    if batch.len() > 0 {
        lemma_upsert_all_unique(t, source, batch.drop_last());
        lemma_upsert_entry(upsert_all(t, source, batch.drop_last()), (source, batch.last()));
    }
}

// ---------------------------------------------------------------------------
// Laws of the store
// ---------------------------------------------------------------------------

/// After storing a batch with distinct ids from `source` into a list with
/// distinct ids, the list holds the batch's pipelines as coming from
/// `source`, and those of its entries whose id the batch does not use.
proof fn lemma_upsert_all_contents(t: Seq<(Seq<char>, Pipeline)>, source: Seq<char>, batch: Seq<Pipeline>)
    requires
        tagged_unique(t),
        ids_unique(batch),
    ensures
        forall|x: (Seq<char>, Pipeline)| #[trigger] upsert_all(t, source, batch).contains(x) <==> ((x.0 == source
            && batch.contains(x.1)) || (t.contains(x) && !pipeline_ids(batch).contains(x.1.id@))),
    decreases batch.len(),
{
    if batch.len() > 0 {
        let b = batch.drop_last();
        let p = batch.last();
        let e = (source, p);
        assert(ids_unique(b)) by {
            assert forall|i: int, j: int| 0 <= i < b.len() && 0 <= j < b.len() && i != j implies b[i].id@ != b[j].id@ by {
                assert(b[i] == batch[i] && b[j] == batch[j]);
            }
        }
        lemma_upsert_all_contents(t, source, b);
        lemma_upsert_all_unique(t, source, b);
        let u = upsert_all(t, source, b);
        lemma_upsert_entry(u, e);
        assert(batch[batch.len() - 1] == p);
        assert forall|q: Pipeline| b.contains(q) implies q.id@ != p.id@ by {
            let i = choose|i: int| 0 <= i < b.len() && b[i] == q;
            assert(batch[i] == q);
        }
        assert forall|q: Pipeline| batch.contains(q) <==> (b.contains(q) || q == p) by {
            if batch.contains(q) {
                let i = choose|i: int| 0 <= i < batch.len() && batch[i] == q;
                if i < b.len() {
                    assert(b[i] == q);
                }
            }
            if b.contains(q) {
                let i = choose|i: int| 0 <= i < b.len() && b[i] == q;
                assert(batch[i] == q);
            }
        }
        assert(pipeline_ids(batch) =~= pipeline_ids(b).push(p.id@));
        assert forall|id: Seq<char>| #[trigger] pipeline_ids(batch).contains(id) <==> (pipeline_ids(b).contains(id)
            || id == p.id@) by {
            if pipeline_ids(batch).contains(id) {
                let i = choose|i: int| 0 <= i < pipeline_ids(batch).len() && pipeline_ids(batch)[i] == id;
                if i < b.len() {
                    assert(pipeline_ids(b)[i] == id);
                }
            }
            if pipeline_ids(b).contains(id) {
                let i = choose|i: int| 0 <= i < pipeline_ids(b).len() && pipeline_ids(b)[i] == id;
                assert(pipeline_ids(batch)[i] == id);
            }
            if id == p.id@ {
                assert(pipeline_ids(batch)[batch.len() - 1] == id);
            }
        }
    }
}

/// Merging a batch of pipelines with distinct ids from one source: the
/// store then holds exactly the batch, as coming from that source, and
/// those earlier entries that came from another source and whose id the
/// batch does not reuse; ids stay distinct.  So every pipeline that the
/// source sent before and does not send again is gone.
pub proof fn lemma_merge_contents(old: Seq<(Seq<char>, Pipeline)>, source: Seq<char>, batch: Seq<Pipeline>)
    requires
        tagged_unique(old),
        ids_unique(batch),
    ensures
        tagged_unique(merge_spec(old, source, batch)),
        forall|x: (Seq<char>, Pipeline)| #[trigger] merge_spec(old, source, batch).contains(x) <==> ((x.0 == source
            && batch.contains(x.1)) || (old.contains(x) && x.0 != source && !pipeline_ids(batch).contains(
            x.1.id@,
        ))),
{
    lemma_keep_other_sources(old, source);
    let k = keep_other_sources(old, source);
    lemma_upsert_all_contents(k, source, batch);
    lemma_upsert_all_unique(k, source, batch);
}

/// After a record is added to a history kept to its `max` most recent
/// entries, the history holds at most `max` entries, ends with the new
/// record (when `max` is positive) and is a suffix of the old history with
/// the record appended.
pub proof fn lemma_error_history(history: Seq<ErrorEntryView>, e: ErrorEntryView, max: int)
    requires
        max >= 0,
    ensures
        keep_last(history.push(e), max).len() <= max,
        keep_last(history.push(e), max).len() == (if history.len() + 1 <= max {
            history.len() + 1int
        } else {
            max
        }),
        max > 0 ==> keep_last(history.push(e), max).last() == e,
        keep_last(history.push(e), max) == history.push(e).skip(
            history.len() + 1 - keep_last(history.push(e), max).len(),
        ),
{
    let full = history.push(e);
    if full.len() > max {
        assert(full.skip(full.len() - max) =~= full.skip(history.len() + 1 - max));
    } else {
        assert(full.skip(0) =~= full);
    }
}

/// The status counts of a list add up to its length.
pub proof fn lemma_summary_total(s: Seq<Pipeline>)
    ensures
        count_status(s, PipelineStatus::Running) + count_status(s, PipelineStatus::Pending)
            + count_status(s, PipelineStatus::Failed) + count_status(s, PipelineStatus::Success)
            + count_status(s, PipelineStatus::Cancelled) + count_status(s, PipelineStatus::Skipped)
            == s.len(),
    decreases s.len(),
{
    if s.len() > 0 {
        lemma_summary_total(s.drop_last());
    }
}

/// Where `insert_pos` puts `x`: after every entry that may come before it,
/// before the first one that it strictly precedes.
proof fn lemma_insert_pos_props(r: Seq<Pipeline>, x: Pipeline)
    ensures
        0 <= insert_pos(r, x) <= r.len(),
        forall|k: int| 0 <= k < insert_pos(r, x) ==> display_le(#[trigger] r[k], x),
        insert_pos(r, x) < r.len() ==> !display_le(r[insert_pos(r, x)], x),
    decreases r.len(),
{
    if r.len() > 0 && display_le(r[0], x) {
        let d = r.drop_first();
        lemma_insert_pos_props(d, x);
        assert forall|k: int| 0 <= k < insert_pos(r, x) implies display_le(#[trigger] r[k], x) by {
            if k > 0 {
                assert(r[k] == d[k - 1]);
            }
        }
        if insert_pos(r, x) < r.len() {
            assert(r[insert_pos(r, x)] == d[insert_pos(d, x)]);
        }
    }
}

/// The display order of a list is sorted by `display_le` and holds the
/// same pipelines, each as often.
pub proof fn lemma_display_sorted(s: Seq<Pipeline>)
    ensures
        in_display_order(display_sorted(s)),
        display_sorted(s).to_multiset() == s.to_multiset(),
        display_sorted(s).len() == s.len(),
    decreases s.len(),
{
    if s.len() > 0 {
        let d = s.drop_last();
        let x = s.last();
        lemma_display_sorted(d);
        let r = display_sorted(d);
        let pos = insert_pos(r, x);
        lemma_insert_pos_props(r, x);
        lemma_insert_multiset(r, pos, x);
        r.insert_ensures(pos, x);
        assert(s =~= d.push(x));
        let rr = display_sorted(s);
        assert(rr == r.insert(pos, x));
        assert forall|a: int, b: int| 0 <= a < b < rr.len() implies display_le(rr[a], rr[b]) by {
            if b < pos {
                assert(rr[a] == r[a] && rr[b] == r[b]);
            } else if b == pos {
                assert(rr[a] == r[a]);
            } else if a < pos {
                assert(rr[a] == r[a] && rr[b] == r[b - 1]);
                assert(display_le(r[a], x));
                if pos < r.len() {
                    assert(!display_le(r[pos], x));
                }
            } else if a == pos {
                assert(rr[b] == r[b - 1]);
                assert(!display_le(r[pos], x));
                assert(display_le(r[pos], r[b - 1]) || b - 1 == pos);
            } else {
                assert(rr[a] == r[a - 1] && rr[b] == r[b - 1]);
            }
        }
    }
}

/// In the display order of any list of pipelines, a pipeline whose status
/// comes later in Running → Pending → Failed → Success → Cancelled → Skipped
/// is never listed before one whose status comes earlier: every running
/// pipeline precedes every pending one, every pending one every failed
/// one, and so on.
pub proof fn lemma_display_follows_status_order(s: Seq<Pipeline>)
    ensures
        forall|i: int, j: int, p: int, q: int|
            #![trigger display_sorted(s)[i], display_sorted(s)[j], listed_status_order()[p], listed_status_order()[q]]
            0 <= i < j < display_sorted(s).len() && 0 <= p < q < listed_status_order().len()
                && display_sorted(s)[i].status == listed_status_order()[q]
                ==> display_sorted(s)[j].status != listed_status_order()[p],
{
    lemma_display_sorted(s);
    let o = listed_status_order();
    assert forall|k: int| 0 <= k < o.len() implies status_rank(#[trigger] o[k]) == k by {
        if k == 0 {
        } else if k == 1 {
        } else if k == 2 {
        } else if k == 3 {
        } else if k == 4 {
        } else {
        }
    }
    let d = display_sorted(s);
    assert forall|i: int, j: int, p: int, q: int|
        0 <= i < j < d.len() && 0 <= p < q < o.len() && d[i].status == o[q] implies d[j].status
        != o[p] by {
        assert(display_le(d[i], d[j]));
        assert(status_rank(o[q]) == q);
        assert(status_rank(o[p]) == p);
    }
}

fn find_id(s: &Vec<(String, Pipeline)>, id: &str) -> (r: Option<usize>)
    ensures
        r matches Some(i) ==> tagged_ids(tagged_view(s@)).index_of_first(id@) == Some(i as int),
        r is None ==> tagged_ids(tagged_view(s@)).index_of_first(id@) is None,
{
    let ghost ids = tagged_ids(tagged_view(s@));
    proof {
        ids.index_of_first_ensures(id@);
    }
    let n = s.len();
    let mut i: usize = 0;
    while i < n
        invariant
            n == s@.len(),
            i <= n,
            ids == tagged_ids(tagged_view(s@)),
            forall|j: int| 0 <= j < i ==> ids[j] != id@,
        decreases n - i,
    {
        if same_text(s[i].1.id.as_str(), id) {
            assert(ids[i as int] == id@);
            proof {
                ids.index_of_first_ensures(id@);
                if ids.index_of_first(id@) != Some(i as int) {
                    assert(ids.contains(id@));
                }
            }
            return Some(i);
        }
        i = i + 1;
    }
    proof {
        assert(!ids.contains(id@));
    }
    None
}

// ---------------------------------------------------------------------------
// The state
// ---------------------------------------------------------------------------

/// Central state container for all live pipeline data.
#[derive(Debug)]
pub struct AppState {
    /// All pipelines we know about, each with the name of the source it
    /// came from; no two share an id (see `wf`).
    pub pipelines: Vec<(String, Pipeline)>,
    /// Per-source connection status
    pub source_status: Vec<(String, SourceStatus)>,
    /// Instant of the last successful poll per source
    pub last_update: Vec<(String, i64)>,
    /// Recent errors, oldest first, at most `max_errors` after each record.
    pub errors: VecDeque<ErrorEntry>,
    /// Maximum number of errors to retain
    pub max_errors: usize,
}

/// The store after an error of `source` with message `msg` was recorded at
/// some instant: the source's status is that error, the history gains the
/// record and keeps its `max_errors` most recent entries, and nothing else
/// changes.
pub open spec fn error_recorded(before: AppState, after: AppState, source: Seq<char>, msg: Seq<char>) -> bool {
    &&& statuses_view(after.source_status@) == upsert_view(
        statuses_view(before.source_status@),
        source,
        SourceStatusView::Error(msg),
    )
    &&& exists|now: i64|
        is_instant(now) && #[trigger] errors_view(after.errors@) == keep_last(
            errors_view(before.errors@).push(ErrorEntryView { source, timestamp: now, message: msg }),
            before.max_errors as int,
        )
    &&& after.pipelines == before.pipelines
    &&& after.last_update == before.last_update
    &&& after.max_errors == before.max_errors
}

/// The store after a rate limit of `source` for `retry_after` milliseconds
/// met the current time: where the reset time is an instant (`recorded`),
/// the source's status is rate-limited until then and the history gains a
/// record of it; otherwise status and history stay as they were.  Nothing
/// else changes.
pub open spec fn rate_limit_recorded(
    before: AppState,
    after: AppState,
    source: Seq<char>,
    retry_after: i64,
    recorded: bool,
) -> bool {
    &&& recorded ==> exists|now: i64|
        is_instant(now) && MIN_INSTANT_MS <= now + retry_after <= MAX_INSTANT_MS && #[trigger] statuses_view(
            after.source_status@,
        ) == upsert_view(
            statuses_view(before.source_status@),
            source,
            SourceStatusView::RateLimited((now + retry_after) as i64),
        ) && errors_view(after.errors@) == keep_last(
            errors_view(before.errors@).push(
                ErrorEntryView {
                    source,
                    timestamp: now,
                    message: "Rate limited until "@ + utc_clock_text((now + retry_after) as i64),
                },
            ),
            before.max_errors as int,
        )
    &&& !recorded ==> after.source_status == before.source_status && after.errors == before.errors
        && exists|now: i64| #[trigger] is_instant(now) && !(MIN_INSTANT_MS <= now + retry_after <= MAX_INSTANT_MS)
    &&& after.pipelines == before.pipelines
    &&& after.last_update == before.last_update
    &&& after.max_errors == before.max_errors
}

impl AppState {
    /// The stored pipelines, each with the name of its source.
    pub open spec fn tagged(&self) -> Seq<(Seq<char>, Pipeline)> {
        tagged_view(self.pipelines@)
    }

    /// The stored pipelines.
    pub open spec fn stored(&self) -> Seq<Pipeline> {
        untag(self.tagged())
    }

    /// The state's invariant: pipeline ids are unique.
    pub open spec fn wf(&self) -> bool {
        tagged_unique(self.tagged())
    }

    /// Create a fresh, empty state.
    pub fn new() -> (r: Self)
        ensures
            r.wf(),
            r.stored().len() == 0,
            r.source_status@.len() == 0,
            r.last_update@.len() == 0,
            r.errors@.len() == 0,
            r.max_errors == 20,
    {
        AppState {
            pipelines: Vec::new(),
            source_status: Vec::new(),
            last_update: Vec::new(),
            errors: VecDeque::new(),
            max_errors: 20,
        }
    }

    /// Register a source as "connecting".
    pub fn register_source(&mut self, name: &str)
        ensures
            statuses_view(final(self).source_status@) == upsert_view(
                statuses_view(old(self).source_status@),
                name@,
                SourceStatusView::Connecting,
            ),
            final(self).stored() == old(self).stored(),
            final(self).wf() == old(self).wf(),
            final(self).last_update == old(self).last_update,
            final(self).errors == old(self).errors,
            final(self).max_errors == old(self).max_errors,
    {
        upsert_status(&mut self.source_status, name, SourceStatus::Connecting);
    }

    /// Merge a fresh batch of pipelines from a single source, `now` being
    /// the current time.
    ///
    /// Every pipeline that came from the same source before is removed
    /// first, then each pipeline of the batch is stored by id as coming from
    /// that source.  The source is marked as connected and its last-update
    /// time set to `now`.
    pub fn merge_pipelines_at(&mut self, source_name: &str, pipelines: Vec<Pipeline>, now: i64)
        requires
            old(self).wf(),
        ensures
            final(self).wf(),
            final(self).tagged() == merge_spec(old(self).tagged(), source_name@, pipelines@),
            statuses_view(final(self).source_status@) == upsert_view(
                statuses_view(old(self).source_status@),
                source_name@,
                SourceStatusView::Connected,
            ),
            updates_view(final(self).last_update@) == upsert_view(
                updates_view(old(self).last_update@),
                source_name@,
                now,
            ),
            final(self).errors == old(self).errors,
            final(self).max_errors == old(self).max_errors,
    {
        let ghost orig = tagged_view(self.pipelines@);
        let ghost batch = pipelines@;
        let ghost src = source_name@;
        let mut old_list: Vec<(String, Pipeline)> = Vec::new();
        std::mem::swap(&mut old_list, &mut self.pipelines);
        let mut kept: Vec<(String, Pipeline)> = Vec::new();
        let ghost mut k: int = 0;
        assert(orig.take(0) =~= Seq::<(Seq<char>, Pipeline)>::empty());
        assert(tagged_view(old_list@).skip(0) =~= orig);
        while old_list.len() > 0
            invariant
                0 <= k <= orig.len(),
                tagged_view(old_list@) == orig.skip(k),
                tagged_view(kept@) == keep_other_sources(orig.take(k), src),
                src == source_name@,
            decreases old_list@.len(),
        {
            let ghost before = old_list@;
            assert(tagged_view(before).len() == before.len());
            assert(orig.skip(k).len() > 0);
            assert(k < orig.len());
            assert(tagged_view(before)[0] == orig.skip(k)[0]);
            let e = old_list.remove(0);
            assert(tagged_view(before)[0] == (e.0@, e.1));
            assert(orig.take(k + 1).drop_last() =~= orig.take(k));
            assert(orig.take(k + 1).last() == (e.0@, e.1));
            let ghost kv = tagged_view(kept@);
            if !same_text(e.0.as_str(), source_name) {
                kept.push(e);
                assert(tagged_view(kept@) =~= kv.push(orig[k]));
            }
            proof {
                k = k + 1;
            }
            assert forall|i: int| 0 <= i < old_list@.len() implies tagged_view(old_list@)[i] == orig.skip(k)[i] by {
                assert(old_list@[i] == before[i + 1]);
                assert(tagged_view(before)[i + 1] == orig.skip(k - 1)[i + 1]);
            }
            assert(tagged_view(old_list@) =~= orig.skip(k));
        }
        assert(orig.take(orig.len() as int) =~= orig);
        proof {
            lemma_keep_other_sources(orig, src);
        }
        let ghost base = tagged_view(kept@);
        let mut rest = pipelines;
        let ghost mut m: int = 0;
        assert(batch.take(0) =~= Seq::<Pipeline>::empty());
        assert(batch.skip(0) =~= batch);
        while rest.len() > 0
            invariant
                0 <= m <= batch.len(),
                rest@ == batch.skip(m),
                tagged_view(kept@) == upsert_all(base, src, batch.take(m)),
                tagged_unique(base),
                tagged_unique(tagged_view(kept@)),
                src == source_name@,
            decreases rest@.len(),
        {
            let p = rest.remove(0);
            assert(batch.take(m + 1).drop_last() =~= batch.take(m));
            assert(batch.take(m + 1).last() == p);
            let ghost before = tagged_view(kept@);
            let ghost e = (src, p);
            proof {
                lemma_upsert_entry(before, e);
                tagged_ids(before).index_of_first_ensures(p.id@);
            }
            let found = find_id(&kept, p.id.as_str());
            match found {
                Some(i) => {
                    kept.set(i, (source_name.to_owned(), p));
                    assert(tagged_view(kept@) =~= before.update(i as int, e));
                },
                None => {
                    kept.push((source_name.to_owned(), p));
                    assert(tagged_view(kept@) =~= before.push(e));
                },
            }
            assert(tagged_view(kept@) == upsert_entry(before, e));
            proof {
                m = m + 1;
            }
            assert(rest@ =~= batch.skip(m));
        }
        assert(batch.take(batch.len() as int) =~= batch);
        self.pipelines = kept;
        upsert_status(&mut self.source_status, source_name, SourceStatus::Connected);
        upsert_update(&mut self.last_update, source_name, now);
    }

    /// Merge a fresh batch of pipelines from a single source (see
    /// `merge_pipelines_at`); the last-update time is the current time.
    pub fn merge_pipelines(&mut self, source_name: &str, pipelines: Vec<Pipeline>)
        requires
            old(self).wf(),
        ensures
            final(self).wf(),
            final(self).tagged() == merge_spec(old(self).tagged(), source_name@, pipelines@),
            statuses_view(final(self).source_status@) == upsert_view(
                statuses_view(old(self).source_status@),
                source_name@,
                SourceStatusView::Connected,
            ),
            exists|now: i64|
                is_instant(now) && #[trigger] updates_view(final(self).last_update@) == upsert_view(
                    updates_view(old(self).last_update@),
                    source_name@,
                    now,
                ),
            final(self).errors == old(self).errors,
            final(self).max_errors == old(self).max_errors,
    {
        let now = now_millis();
        self.merge_pipelines_at(source_name, pipelines, now);
    }

    /// Record that a source encountered an error at `now`.
    pub fn mark_source_error_at(&mut self, source_name: &str, message: &str, now: i64)
        ensures
            statuses_view(final(self).source_status@) == upsert_view(
                statuses_view(old(self).source_status@),
                source_name@,
                SourceStatusView::Error(message@),
            ),
            errors_view(final(self).errors@) == keep_last(
                errors_view(old(self).errors@).push(
                    ErrorEntryView { source: source_name@, timestamp: now, message: message@ },
                ),
                old(self).max_errors as int,
            ),
            final(self).pipelines == old(self).pipelines,
            final(self).last_update == old(self).last_update,
            final(self).max_errors == old(self).max_errors,
    {
        upsert_status(&mut self.source_status, source_name, SourceStatus::Error(message.to_owned()));
        let entry = ErrorEntry {
            source: source_name.to_owned(),
            timestamp: now,
            message: message.to_owned(),
        };
        push_error_capped(&mut self.errors, entry, self.max_errors);
    }

    /// Record that a source encountered an error (at the current time).
    pub fn mark_source_error(&mut self, source_name: &str, message: &str)
        ensures
            error_recorded(*old(self), *final(self), source_name@, message@),
    {
        let now = now_millis();
        self.mark_source_error_at(source_name, message, now);
    }

    /// Record at `now` that a source was rate-limited for `retry_after`
    /// milliseconds.
    pub fn mark_source_rate_limited_at(&mut self, source_name: &str, retry_after: i64, now: i64)
        requires
            is_instant(now),
            MIN_INSTANT_MS <= now + retry_after <= MAX_INSTANT_MS,
        ensures
            statuses_view(final(self).source_status@) == upsert_view(
                statuses_view(old(self).source_status@),
                source_name@,
                SourceStatusView::RateLimited((now + retry_after) as i64),
            ),
            errors_view(final(self).errors@) == keep_last(
                errors_view(old(self).errors@).push(
                    ErrorEntryView {
                        source: source_name@,
                        timestamp: now,
                        message: "Rate limited until "@ + utc_clock_text((now + retry_after) as i64),
                    },
                ),
                old(self).max_errors as int,
            ),
            final(self).pipelines == old(self).pipelines,
            final(self).last_update == old(self).last_update,
            final(self).max_errors == old(self).max_errors,
    {
        let reset_at = now + retry_after;
        upsert_status(&mut self.source_status, source_name, SourceStatus::RateLimited(reset_at));
        let mut message = "Rate limited until ".to_owned();
        let clock = format_clock(reset_at);
        push_str(&mut message, clock.as_str());
        let entry = ErrorEntry { source: source_name.to_owned(), timestamp: now, message };
        push_error_capped(&mut self.errors, entry, self.max_errors);
    }

    /// Record that a source was rate-limited for `retry_after` milliseconds
    /// from the current time.  Returns whether it was recorded: it is not
    /// where the reset time would lie beyond what `chrono` represents, and
    /// the state is then unchanged.
    pub fn mark_source_rate_limited(&mut self, source_name: &str, retry_after: i64) -> (recorded: bool)
        ensures
            rate_limit_recorded(*old(self), *final(self), source_name@, retry_after, recorded),
    {
        let now = now_millis();
        let reset: i128 = now as i128 + retry_after as i128;
        if reset < MIN_INSTANT_MS as i128 || reset > MAX_INSTANT_MS as i128 {
            return false;
        }
        self.mark_source_rate_limited_at(source_name, retry_after, now);
        true
    }

    /// Return all pipelines sorted by status priority then by start time
    /// (most recent first).
    ///
    /// Sort order: Running → Pending → Failed → Success → Cancelled → Skipped
    pub fn get_sorted_pipelines(&self) -> (r: Vec<&Pipeline>)
        ensures
            derefs(r@) == display_sorted(self.stored()),
            in_display_order(derefs(r@)),
            derefs(r@).to_multiset() == self.stored().to_multiset(),
            r@.len() == self.stored().len(),
            forall|i: int, j: int, p: int, q: int|
                #![trigger r@[i], r@[j], listed_status_order()[p], listed_status_order()[q]]
                0 <= i < j < r@.len() && 0 <= p < q < listed_status_order().len() && r@[i].status
                    == listed_status_order()[q] ==> r@[j].status != listed_status_order()[p],
    {
        proof {
            lemma_display_follows_status_order(self.stored());
        }
        let n = self.pipelines.len();
        let mut r: Vec<&Pipeline> = Vec::new();
        let mut i: usize = 0;
        assert(self.stored().take(0) =~= Seq::<Pipeline>::empty());
        while i < n
            invariant
                n == self.stored().len(),
                i <= n,
                r@.len() == i,
                derefs(r@) == display_sorted(self.stored().take(i as int)),
                in_display_order(derefs(r@)),
                derefs(r@).to_multiset() == self.stored().take(i as int).to_multiset(),
            decreases n - i,
        {
            let x = &self.pipelines[i].1;
            assert(*x == self.stored()[i as int]);
            let mut pos: usize = 0;
            while pos < r.len() && !before(x, r[pos])
                invariant
                    pos <= r@.len(),
                    forall|k: int| 0 <= k < pos ==> display_le(*r@[k], *x),
                decreases r@.len() - pos,
            {
                pos = pos + 1;
            }
            let ghost old_r = derefs(r@);
            proof {
                lemma_insert_pos(old_r, *x, pos as int);
                assert(self.stored().take(i + 1).drop_last() =~= self.stored().take(i as int));
                lemma_insert_multiset(old_r, pos as int, *x);
                old_r.insert_ensures(pos as int, *x);
            }
            r.insert(pos, x);
            assert(derefs(r@) =~= old_r.insert(pos as int, *x));
            assert(self.stored().take(i + 1) =~= self.stored().take(i as int).push(*x));
            assert forall|a: int, b: int| 0 <= a < b < derefs(r@).len() implies display_le(
                derefs(r@)[a],
                derefs(r@)[b],
            ) by {
                let rr = derefs(r@);
                if b < pos {
                    assert(rr[a] == old_r[a] && rr[b] == old_r[b]);
                } else if b == pos {
                    assert(rr[a] == old_r[a]);
                } else if a < pos {
                    assert(rr[a] == old_r[a] && rr[b] == old_r[b - 1]);
                    assert(display_le(old_r[a], *x));
                    if pos < old_r.len() {
                        assert(!display_le(old_r[pos as int], *x));
                    }
                } else if a == pos {
                    assert(rr[b] == old_r[b - 1]);
                    assert(!display_le(old_r[pos as int], *x));
                    assert(display_le(old_r[pos as int], old_r[b - 1]) || b - 1 == pos);
                } else {
                    assert(rr[a] == old_r[a - 1] && rr[b] == old_r[b - 1]);
                }
            }
            i = i + 1;
        }
        assert(self.stored().take(n as int) =~= self.stored());
        assert forall|k: int| 0 <= k < r@.len() implies *r@[k] == derefs(r@)[k] by {}
        r
    }

    /// Total number of pipelines currently tracked.
    pub fn pipeline_count(&self) -> (r: usize)
        ensures
            r == self.stored().len(),
    {
        self.pipelines.len()
    }

    /// Number of pipelines in each status category.
    pub fn status_summary(&self) -> (r: StatusSummary)
        ensures
            summary_matches(r, self.stored()),
    {
        let n = self.pipelines.len();
        let mut r = StatusSummary { running: 0, pending: 0, failed: 0, success: 0, cancelled: 0, skipped: 0 };
        let mut i: usize = 0;
        assert(self.stored().take(0) =~= Seq::<Pipeline>::empty());
        while i < n
            invariant
                n == self.stored().len(),
                i <= n,
                summary_matches(r, self.stored().take(i as int)),
            decreases n - i,
        {
            let ghost t = self.stored().take(i + 1);
            assert(t.drop_last() =~= self.stored().take(i as int));
            proof {
                lemma_count_le_len(self.stored().take(i as int), self.stored()[i as int].status);
            }
            match self.pipelines[i].1.status {
                PipelineStatus::Running => r.running = r.running + 1,
                PipelineStatus::Pending => r.pending = r.pending + 1,
                PipelineStatus::Failed => r.failed = r.failed + 1,
                PipelineStatus::Success => r.success = r.success + 1,
                PipelineStatus::Cancelled => r.cancelled = r.cancelled + 1,
                PipelineStatus::Skipped => r.skipped = r.skipped + 1,
            }
            i = i + 1;
        }
        assert(self.stored().take(n as int) =~= self.stored());
        r
    }
}

/// Sort pipelines into display order: status priority first, then most
/// recent start first; pipelines that tie keep their order.
pub fn sort_pipelines(v: Vec<Pipeline>) -> (r: Vec<Pipeline>)
    ensures
        r@ == display_sorted(v@),
        in_display_order(r@),
        r@.to_multiset() == v@.to_multiset(),
        forall|i: int, j: int, p: int, q: int|
            #![trigger r@[i], r@[j], listed_status_order()[p], listed_status_order()[q]]
            0 <= i < j < r@.len() && 0 <= p < q < listed_status_order().len() && r@[i].status
                == listed_status_order()[q] ==> r@[j].status != listed_status_order()[p],
{
    proof {
        lemma_display_sorted(v@);
        lemma_display_follows_status_order(v@);
    }
    let ghost orig = v@;
    let mut rest = v;
    let mut r: Vec<Pipeline> = Vec::new();
    let ghost mut k: int = 0;
    assert(orig.take(0) =~= Seq::<Pipeline>::empty());
    assert(orig.skip(0) =~= orig);
    while rest.len() > 0
        invariant
            0 <= k <= orig.len(),
            rest@ == orig.skip(k),
            r@ == display_sorted(orig.take(k)),
        decreases rest@.len(),
    {
        let x = rest.remove(0);
        let mut pos: usize = 0;
        while pos < r.len() && !before(&x, &r[pos])
            invariant
                pos <= r@.len(),
                forall|j: int| 0 <= j < pos ==> display_le(r@[j], x),
            decreases r@.len() - pos,
        {
            pos = pos + 1;
        }
        proof {
            lemma_insert_pos(r@, x, pos as int);
            assert(orig.take(k + 1).drop_last() =~= orig.take(k));
            assert(orig.take(k + 1).last() == x);
        }
        r.insert(pos, x);
        proof {
            k = k + 1;
        }
        assert(rest@ =~= orig.skip(k));
    }
    assert(orig.take(orig.len() as int) =~= orig);
    r
}

/// Whether `a` comes strictly before `b` in the display order.
fn before(a: &Pipeline, b: &Pipeline) -> (r: bool)
    ensures
        r == !display_le(*b, *a),
{
    let ra = a.status.rank();
    let rb = b.status.rank();
    ra < rb || (ra == rb && a.started_at > b.started_at)
}


} // verus!
