//! The span store: one record per live span, keyed by the host-assigned
//! span id, holding the span's name, its parent link and, for tracked
//! spans, the mutable tracing extension.
//!
//! Parents are always registered before their children, so every parent
//! link points strictly earlier in the store; ancestor walks therefore
//! terminate.

use vstd::prelude::*;

use crate::converters::{
    default_convert_transaction, default_new_span, default_on_close, default_visitor_cfg,
    new_span_v,
};
use crate::field_visitor::{extract_model, fields_v, FieldEntry, RecordV};
use crate::protocol::{span_closed_v, tx_model, SpanV, Transaction, TransactionV};
use crate::timings::Timings;
use crate::trace_ext::{close_timings, enter_ext, exit_ext, ext_wf, ExtV, TraceExt};

verus! {

/// One span known to the store.
pub struct SpanEntry {
    pub id: u64,
    pub name: String,
    pub parent: Option<u64>,
    pub ext: Option<TraceExt>,
}

/// The mathematical value of a `SpanEntry`.
pub struct EntryV {
    pub id: u64,
    pub name: Seq<char>,
    pub parent: Option<u64>,
    pub ext: Option<ExtV>,
}

impl View for SpanEntry {
    type V = EntryV;

    open spec fn view(&self) -> EntryV {
        EntryV {
            id: self.id,
            name: self.name@,
            parent: self.parent,
            ext: match &self.ext {
                Some(e) => Some(e@),
                None => None,
            },
        }
    }
}

/// The mathematical value of the whole store.
pub type StoreV = Seq<EntryV>;

/// Index of the entry with this id, or `-1` when there is none.
pub open spec fn find_idx(s: StoreV, id: u64) -> int
    decreases s.len(),
{
    if s.len() == 0 {
        -1
    } else if s[0].id == id {
        0
    } else {
        let r = find_idx(s.drop_first(), id);
        if r < 0 {
            -1
        } else {
            r + 1
        }
    }
}

pub open spec fn has_id(s: StoreV, id: u64) -> bool {
    find_idx(s, id) >= 0
}

/// What `find_idx` finds is the first entry with this id.
pub proof fn lemma_find_idx(s: StoreV, id: u64)
    ensures
        has_id(s, id) ==> {
            let x = find_idx(s, id);
            &&& 0 <= x < s.len()
            &&& s[x].id == id
            &&& forall|j: int| 0 <= j < x ==> s[j].id != id
        },
        !has_id(s, id) ==> forall|j: int| 0 <= j < s.len() ==> s[j].id != id,
    decreases s.len(),
{
    if s.len() > 0 && s[0].id != id {
        let t = s.drop_first();
        lemma_find_idx(t, id);
        if has_id(t, id) {
            let x = find_idx(t, id);
            assert(t[x] == s[x + 1]);
            assert forall|j: int| 0 <= j < x + 1 implies s[j].id != id by {
                if j > 0 {
                    assert(t[j - 1] == s[j]);
                }
            }
        } else {
            assert forall|j: int| 0 <= j < s.len() implies s[j].id != id by {
                if j > 0 {
                    assert(t[j - 1] == s[j]);
                }
            }
        }
    }
}

/// A position whose id occurs nowhere earlier is what `find_idx` finds.
pub proof fn lemma_find_idx_is(s: StoreV, id: u64, i: int)
    requires
        0 <= i < s.len(),
        s[i].id == id,
        forall|j: int| 0 <= j < i ==> s[j].id != id,
    ensures
        find_idx(s, id) == i,
    decreases s.len(),
{
    if i > 0 {
        lemma_find_idx_is(s.drop_first(), id, i - 1);
    }
}

/// Two stores with the same ids in the same places agree on `find_idx`.
pub proof fn lemma_find_idx_same_ids(s1: StoreV, s2: StoreV, id: u64)
    requires
        s1.len() == s2.len(),
        forall|k: int| 0 <= k < s1.len() ==> s1[k].id == s2[k].id,
    ensures
        find_idx(s1, id) == find_idx(s2, id),
    decreases s1.len(),
{
    if s1.len() > 0 {
        let t1 = s1.drop_first();
        let t2 = s2.drop_first();
        assert forall|k: int| 0 <= k < t1.len() implies t1[k].id == t2[k].id by {
            assert(t1[k] == s1[k + 1]);
            assert(t2[k] == s2[k + 1]);
        }
        lemma_find_idx_same_ids(t1, t2, id);
    }
}

/// The tracing extension at a position, when the span there is tracked.
pub open spec fn ext_at(s: StoreV, i: int) -> ExtV {
    match s[i].ext {
        Some(e) => e,
        None => arbitrary(),
    }
}

/// The tracing extension of the span with this id, if any.
pub open spec fn ext_of(s: StoreV, id: u64) -> Option<ExtV> {
    if has_id(s, id) {
        s[find_idx(s, id)].ext
    } else {
        None
    }
}

/// The span at position `i` is tracked: it carries a tracing extension.
pub open spec fn traced_at(s: StoreV, i: int) -> bool {
    0 <= i < s.len() && s[i].ext is Some
}

pub open spec fn parent_ok(s: StoreV, i: int) -> bool {
    match s[i].parent {
        Some(p) => 0 <= find_idx(s, p) < i,
        None => true,
    }
}

pub open spec fn ext_ok(s: StoreV, i: int) -> bool {
    match s[i].ext {
        Some(e) => ext_wf(e),
        None => true,
    }
}

/// Store well-formedness: ids are unique, every parent link points to an
/// earlier entry, and every tracing extension accounts its time exactly.
pub open spec fn store_wf(s: StoreV) -> bool {
    &&& forall|i: int, j: int| 0 <= i < j < s.len() ==> s[i].id != s[j].id
    &&& forall|i: int| 0 <= i < s.len() ==> #[trigger] parent_ok(s, i)
    &&& forall|i: int| 0 <= i < s.len() ==> #[trigger] ext_ok(s, i)
}

/// The nearest strict ancestor of the span at `i` that is tracked; spans
/// without a tracing extension are transparently skipped.
pub open spec fn nearest_tracked_above(s: StoreV, i: int) -> Option<int>
    decreases (if i >= 0 { i } else { 0 }),
{
    if 0 <= i < s.len() {
        match s[i].parent {
            None => None,
            Some(p) => {
                let j = find_idx(s, p);
                if 0 <= j < i {
                    if s[j].ext is Some {
                        Some(j)
                    } else {
                        nearest_tracked_above(s, j)
                    }
                } else {
                    None
                }
            },
        }
    } else {
        None
    }
}

/// What the nearest tracked ancestor is: a tracked strictly earlier entry.
pub proof fn lemma_nearest_tracked(s: StoreV, i: int)
    ensures
        match nearest_tracked_above(s, i) {
            Some(j) => 0 <= j < i && traced_at(s, j),
            None => true,
        },
    decreases (if i >= 0 { i } else { 0 }),
{
    if 0 <= i < s.len() {
        match s[i].parent {
            None => {},
            Some(p) => {
                let j = find_idx(s, p);
                if 0 <= j < i && !(s[j].ext is Some) {
                    lemma_nearest_tracked(s, j);
                }
            },
        }
    }
}

/// The outermost tracked span in the ancestor chain of `i`, the span at `i`
/// included: the tracked root the chain leads to.
pub open spec fn topmost_tracked_from(s: StoreV, i: int) -> Option<int>
    decreases (if i >= 0 { i } else { 0 }),
{
    if 0 <= i < s.len() {
        let up = match s[i].parent {
            None => None,
            Some(p) => {
                let j = find_idx(s, p);
                if 0 <= j < i {
                    topmost_tracked_from(s, j)
                } else {
                    None
                }
            },
        };
        if up is Some {
            up
        } else if s[i].ext is Some {
            Some(i)
        } else {
            None
        }
    } else {
        None
    }
}

/// What the topmost tracked span is: a tracked entry at or above `i`.
pub proof fn lemma_topmost_tracked(s: StoreV, i: int)
    ensures
        match topmost_tracked_from(s, i) {
            Some(j) => 0 <= j <= i && traced_at(s, j),
            None => true,
        },
    decreases (if i >= 0 { i } else { 0 }),
{
    if 0 <= i < s.len() {
        match s[i].parent {
            None => {},
            Some(p) => {
                let j = find_idx(s, p);
                if 0 <= j < i {
                    lemma_topmost_tracked(s, j);
                }
            },
        }
    }
}

/// The store with the extension slot at `i` replaced.
pub open spec fn store_set_ext(s: StoreV, i: int, ext: Option<ExtV>) -> StoreV {
    s.update(i, EntryV { ext, ..s[i] })
}

/// Replacing an extension slot with a well-formed one keeps the store
/// well-formed: ids and parent links are untouched.
pub proof fn lemma_set_ext_wf(s: StoreV, i: int, ext: Option<ExtV>)
    requires
        store_wf(s),
        0 <= i < s.len(),
        match ext {
            Some(e) => ext_wf(e),
            None => true,
        },
    ensures
        store_wf(store_set_ext(s, i, ext)),
{
    let s2 = store_set_ext(s, i, ext);
    assert forall|k: int| 0 <= k < s2.len() implies #[trigger] parent_ok(s2, k) by {
        assert(parent_ok(s, k));
        match s2[k].parent {
            Some(p) => {
                lemma_find_idx_same_ids(s, s2, p);
            },
            None => {},
        }
    }
    assert forall|k: int| 0 <= k < s2.len() implies #[trigger] ext_ok(s2, k) by {
        assert(ext_ok(s, k));
    }
}

/// `find_idx` is unchanged by replacing an extension slot.
pub proof fn lemma_set_ext_find_idx(s: StoreV, i: int, ext: Option<ExtV>, id: u64)
    requires
        0 <= i < s.len(),
    ensures
        find_idx(store_set_ext(s, i, ext), id) == find_idx(s, id),
{
    lemma_find_idx_same_ids(s, store_set_ext(s, i, ext), id);
}

/// The monotonic instant handed to a timing transition never lies before
/// the span's last transition.
pub open spec fn now_ok(s: StoreV, id: u64, now: u64) -> bool {
    match ext_of(s, id) {
        Some(e) => now >= e.last,
        None => true,
    }
}

/// The store after an enter of the span with this id; untracked spans
/// observe nothing.
pub open spec fn enter_model(s: StoreV, id: u64, now: u64, wall: u64) -> StoreV {
    let i = find_idx(s, id);
    if 0 <= i && s[i].ext is Some {
        store_set_ext(s, i, Some(enter_ext(ext_at(s, i), now, wall)))
    } else {
        s
    }
}

/// The store after an exit of the span with this id; untracked spans
/// observe nothing.
pub open spec fn exit_model(s: StoreV, id: u64, now: u64, wall: u64) -> StoreV {
    let i = find_idx(s, id);
    if 0 <= i && s[i].ext is Some {
        store_set_ext(s, i, Some(exit_ext(ext_at(s, i), now, wall)))
    } else {
        s
    }
}

/// The telemetry span a closing span hands upward or submits: timing split
/// written into its data, final timestamp stamped, parent link set.
pub open spec fn closed_span_v(e: ExtV, parent: Option<u64>, now: u64) -> SpanV {
    SpanV { parent_span_id: parent, ..span_closed_v(e.span, close_timings(e, now)) }
}

/// A close of this span ends a trace: the span is tracked and no ancestor
/// of it is.
pub open spec fn close_is_root(s: StoreV, id: u64) -> bool {
    let i = find_idx(s, id);
    &&& 0 <= i
    &&& s[i].ext is Some
    &&& nearest_tracked_above(s, i) is None
}

/// The store after a close of the span with this id.
///
/// A tracked close empties the span's extension slot; when a tracked
/// ancestor exists, the closed span and all its accumulated children are
/// appended to that ancestor's child list, the closed span last, carrying
/// the ancestor's span id as parent. A close without a tracing extension
/// changes nothing.
pub open spec fn close_model(s: StoreV, id: u64, now: u64) -> StoreV {
    let i = find_idx(s, id);
    if 0 <= i && s[i].ext is Some {
        let e = ext_at(s, i);
        match nearest_tracked_above(s, i) {
            Some(j) => {
                let pe = ext_at(s, j);
                let sp = closed_span_v(e, Some(pe.span.span_id), now);
                let pe2 = ExtV { spans: pe.spans + e.spans + seq![sp], ..pe };
                store_set_ext(store_set_ext(s, i, None), j, Some(pe2))
            },
            None => store_set_ext(s, i, None),
        }
    } else {
        s
    }
}

/// What a close submits: a transaction exactly when it closes a tracked
/// root, assembled from the root's closed span, its registered name, its
/// accumulated children verbatim, and the timing snapshot.
pub open spec fn close_output_model(s: StoreV, id: u64, now: u64, event_id: u128) -> Option<
    TransactionV,
> {
    if close_is_root(s, id) {
        let i = find_idx(s, id);
        let e = ext_at(s, i);
        Some(
            tx_model(
                span_closed_v(e.span, close_timings(e, now)),
                s[i].name,
                e.spans,
                close_timings(e, now),
                event_id,
            ),
        )
    } else {
        None
    }
}

/// Fresh tracing state seeded at span creation.
pub open spec fn fresh_ext_v(span: SpanV, now: u64, wall: u64) -> ExtV {
    ExtV {
        span,
        spans: Seq::<SpanV>::empty(),
        idle: 0,
        busy: 0,
        last: now,
        first: wall,
        last_sys: wall,
        first_mono: now,
    }
}

/// The store after a create of the span with this id: a tracing extension
/// is seeded unless one already exists — repeated creation is a no-op, so a
/// re-created span keeps its first extension.
pub open spec fn create_model(
    s: StoreV,
    id: u64,
    rec: RecordV,
    fresh_trace: u128,
    fresh_span: u64,
    now: u64,
    wall: u64,
) -> StoreV {
    let i = find_idx(s, id);
    if 0 <= i && s[i].ext is None {
        let parent = match nearest_tracked_above(s, i) {
            Some(j) => Some(ext_at(s, j).span),
            None => None,
        };
        store_set_ext(
            s,
            i,
            Some(fresh_ext_v(new_span_v(s[i].name, parent, rec, fresh_trace, fresh_span, wall), now, wall)),
        )
    } else {
        s
    }
}

/// The trace id a create chose, read back off the store it produced.
pub open spec fn created_trace_id(s1: StoreV, s0: StoreV, id: u64) -> u128 {
    ext_at(s1, find_idx(s0, id)).span.trace_id
}

/// The span id a create chose, read back off the store it produced.
pub open spec fn created_span_id(s1: StoreV, s0: StoreV, id: u64) -> u64 {
    ext_at(s1, find_idx(s0, id)).span.span_id
}

/// The absolute root of the ancestor chain at `i`.
pub open spec fn root_of(s: StoreV, i: int) -> int
    decreases (if i >= 0 {
        i
    } else {
        0
    }),
{
    if 0 <= i < s.len() {
        match s[i].parent {
            None => i,
            Some(p) => {
                let j = find_idx(s, p);
                if 0 <= j < i {
                    root_of(s, j)
                } else {
                    i
                }
            },
        }
    } else {
        i
    }
}

/// `b` unless `a` already decides.
pub open spec fn opt_or(a: Option<int>, b: Option<int>) -> Option<int> {
    if a is Some {
        a
    } else {
        b
    }
}

/// The store that tracks spans and assembles transactions.
pub struct SpanStore {
    entries: Vec<SpanEntry>,
}

impl View for SpanStore {
    type V = StoreV;

    closed spec fn view(&self) -> StoreV {
        self.entries@.map_values(|e: SpanEntry| e@)
    }
}

impl SpanStore {
    /// An empty store.
    pub fn new() -> (r: SpanStore)
        ensures
            r@ == Seq::<EntryV>::empty(),
            store_wf(r@),
    {
        let r = SpanStore { entries: Vec::new() };
        proof {
            assert(r@ =~= Seq::<EntryV>::empty());
        }
        r
    }

    /// Makes a span known to the store, untracked at first. The host
    /// guarantees fresh ids and registers parents before children; a
    /// violation of that is a caller bug, not an input.
    pub fn register(&mut self, id: u64, name: String, parent: Option<u64>)
        requires
            store_wf(old(self)@),
            !has_id(old(self)@, id),
            match parent {
                Some(p) => has_id(old(self)@, p),
                None => true,
            },
        ensures
            final(self)@ == old(self)@.push(
                EntryV { id, name: name@, parent, ext: None::<ExtV> },
            ),
            store_wf(final(self)@),
    {
        proof {
            lemma_find_idx(self@, id);
        }
        let ghost s0 = self@;
        self.entries.push(SpanEntry { id, name, parent, ext: None });
        proof {
            let s1 = self@;
            let ev = EntryV { id, name: name@, parent, ext: None::<ExtV> };
            assert(s1 =~= s0.push(ev));
            assert forall|k: int| 0 <= k < s1.len() implies #[trigger] parent_ok(s1, k) by {
                if k < s0.len() {
                    assert(parent_ok(s0, k));
                    match s1[k].parent {
                        Some(p) => {
                            lemma_find_idx(s0, p);
                            lemma_find_idx_is(s1, p, find_idx(s0, p));
                        },
                        None => {},
                    }
                } else {
                    match parent {
                        Some(p) => {
                            lemma_find_idx(s0, p);
                            lemma_find_idx_is(s1, p, find_idx(s0, p));
                        },
                        None => {},
                    }
                }
            }
            assert forall|k: int| 0 <= k < s1.len() implies #[trigger] ext_ok(s1, k) by {
                if k < s0.len() {
                    assert(ext_ok(s0, k));
                }
            }
            lemma_find_idx(s0, id);
        }
    }

    /// Whether a span with this id is known.
    pub fn contains(&self, id: u64) -> (r: bool)
        ensures
            r == has_id(self@, id),
    {
        match self.index_of(id) {
            Some(_) => true,
            None => false,
        }
    }

    /// Position of the span with this id.
    pub fn index_of(&self, id: u64) -> (r: Option<usize>)
        ensures
            match r {
                Some(i) => find_idx(self@, id) == i && i < self@.len() && self@[i as int].id
                    == id,
                None => !has_id(self@, id),
            },
    {
        let n = self.entries.len();
        let mut i: usize = 0;
        while i < n
            invariant
                0 <= i <= n,
                n == self@.len(),
                n == self.entries.len(),
                forall|j: int| 0 <= j < i ==> self@[j].id != id,
            decreases n - i,
        {
            if self.entries[i].id == id {
                proof {
                    lemma_find_idx_is(self@, id, i as int);
                }
                return Some(i);
            }
            i = i + 1;
        }
        proof {
            lemma_find_idx(self@, id);
            if has_id(self@, id) {
                assert(self@[find_idx(self@, id)].id == id);
            }
        }
        None
    }

    /// The tracing extension of the span with this id, if it is tracked.
    pub fn get_ext(&self, id: u64) -> (r: Option<&TraceExt>)
        ensures
            match r {
                Some(e) => ext_of(self@, id) == Some(e@),
                None => ext_of(self@, id) is None,
            },
    {
        match self.index_of(id) {
            Some(i) => match &self.entries[i].ext {
                Some(e) => Some(e),
                None => None,
            },
            None => None,
        }
    }

    /// Walks strict ancestors outward, closest first, to the nearest one
    /// that is tracked; untracked spans are transparently skipped.
    pub fn find_nearest_tracked(&self, i: usize) -> (r: Option<usize>)
        requires
            store_wf(self@),
            i < self@.len(),
        ensures
            (match r {
                Some(j) => nearest_tracked_above(self@, i as int) == Some(j as int) && j < i,
                None => nearest_tracked_above(self@, i as int) is None,
            }),
    {
        let mut cur: usize = i;
        loop
            invariant
                store_wf(self@),
                cur <= i < self@.len(),
                nearest_tracked_above(self@, i as int) == nearest_tracked_above(
                    self@,
                    cur as int,
                ),
            decreases cur,
        {
            let p_opt = self.entries[cur].parent;
            match p_opt {
                None => {
                    return None;
                },
                Some(p) => {
                    proof {
                        assert(parent_ok(self@, cur as int));
                    }
                    let j = match self.index_of(p) {
                        Some(j) => j,
                        None => unreached(),
                    };
                    let is_traced = match &self.entries[j].ext {
                        Some(_) => true,
                        None => false,
                    };
                    if is_traced {
                        return Some(j);
                    }
                    cur = j;
                },
            }
        }
    }

    /// Walks from a span to the outermost tracked span of its ancestor
    /// chain, the span itself included: the tracked root of its trace.
    pub fn find_topmost_tracked(&self, start: usize) -> (r: Option<usize>)
        requires
            store_wf(self@),
            start < self@.len(),
        ensures
            (match r {
                Some(j) => topmost_tracked_from(self@, start as int) == Some(j as int) && j
                    < self@.len(),
                None => topmost_tracked_from(self@, start as int) is None,
            }),
    {
        let mut cur: usize = start;
        let mut best: Option<usize> = None;
        loop
            invariant
                store_wf(self@),
                cur <= start < self@.len(),
                (match best {
                    Some(b) => b < self@.len(),
                    None => true,
                }),
                topmost_tracked_from(self@, start as int) == opt_or(
                    topmost_tracked_from(self@, cur as int),
                    (match best {
                        Some(b) => Some(b as int),
                        None => None,
                    }),
                ),
            decreases cur,
        {
            let is_traced = match &self.entries[cur].ext {
                Some(_) => true,
                None => false,
            };
            let best2: Option<usize> = if is_traced {
                Some(cur)
            } else {
                best
            };
            let p_opt = self.entries[cur].parent;
            match p_opt {
                None => {
                    return best2;
                },
                Some(p) => {
                    proof {
                        assert(parent_ok(self@, cur as int));
                    }
                    let j = match self.index_of(p) {
                        Some(j) => j,
                        None => unreached(),
                    };
                    best = best2;
                    cur = j;
                },
            }
        }
    }

    /// The parent link at a position.
    pub fn parent_at_idx(&self, j: usize) -> (r: Option<u64>)
        requires
            j < self@.len(),
        ensures
            r == self@[j as int].parent,
    {
        self.entries[j].parent
    }

    /// The id at a position.
    pub fn id_at_idx(&self, j: usize) -> (r: u64)
        requires
            j < self@.len(),
        ensures
            r == self@[j as int].id,
    {
        self.entries[j].id
    }

    /// The tracing extension at a position.
    pub fn ext_at_idx(&self, j: usize) -> (r: Option<&TraceExt>)
        requires
            j < self@.len(),
        ensures
            (match r {
                Some(e) => self@[j as int].ext == Some(e@),
                None => self@[j as int].ext is None,
            }),
    {
        match &self.entries[j].ext {
            Some(e) => Some(e),
            None => None,
        }
    }

    /// The registered name at a position.
    pub fn name_at_idx(&self, j: usize) -> (r: &String)
        requires
            j < self@.len(),
        ensures
            r@ == self@[j as int].name,
    {
        &self.entries[j].name
    }

    /// The name the span with this id was registered under.
    pub fn name_of(&self, id: u64) -> (r: Option<&String>)
        ensures
            match r {
                Some(n) => has_id(self@, id) && self@[find_idx(self@, id)].name == n@,
                None => !has_id(self@, id),
            },
    {
        match self.index_of(id) {
            Some(i) => Some(&self.entries[i].name),
            None => None,
        }
    }

    /// Seeds the tracing extension of a freshly created span from its
    /// creation attributes: trace identity resolved against the nearest
    /// tracked ancestor, fresh identifiers drawn where none were supplied.
    /// A span that already carries an extension is left untouched.
    pub fn create_span(&mut self, id: u64, fields: Vec<FieldEntry>, now_mono: u64, now_wall: u64)
        requires
            store_wf(old(self)@),
            has_id(old(self)@, id),
        ensures
            store_wf(final(self)@),
            final(self)@ == create_model(
                old(self)@,
                id,
                extract_model(default_visitor_cfg(), fields_v(fields@)),
                created_trace_id(final(self)@, old(self)@, id),
                created_span_id(final(self)@, old(self)@, id),
                now_mono,
                now_wall,
            ),
    {
        let ghost s0 = self@;
        let i = match self.index_of(id) {
            Some(i) => i,
            None => unreached(),
        };
        let already = match &self.entries[i].ext {
            Some(_) => true,
            None => false,
        };
        if already {
            return ;
        }
        let parent_idx = self.find_nearest_tracked(i);
        let sp = match parent_idx {
            Some(j) => {
                proof {
                    lemma_nearest_tracked(self@, i as int);
                }
                match &self.entries[j].ext {
                    Some(pe) => default_new_span(&self.entries[i].name, Some(&pe.span), fields, now_wall),
                    None => unreached(),
                }
            },
            None => default_new_span(&self.entries[i].name, None, fields, now_wall),
        };
        let ghost spv = sp@;
        let entry = self.entries.remove(i);
        let SpanEntry { id: eid, name: ename, parent: eparent, ext: _ } = entry;
        let ext = TraceExt::new(sp, now_mono, now_wall);
        self.entries.insert(i, SpanEntry { id: eid, name: ename, parent: eparent, ext: Some(ext) });
        proof {
            let s1 = self@;
            let rec = extract_model(default_visitor_cfg(), fields_v(fields@));
            assert(s1 =~= store_set_ext(s0, i as int, Some(fresh_ext_v(spv, now_mono, now_wall))));
            assert(ext_at(s1, i as int).span == spv);
            assert(find_idx(s1, id) == find_idx(s0, id)) by {
                lemma_set_ext_find_idx(s0, i as int, Some(fresh_ext_v(spv, now_mono, now_wall)), id);
            }
            assert(created_trace_id(s1, s0, id) == spv.trace_id);
            assert(created_span_id(s1, s0, id) == spv.span_id);
            assert(s1 == create_model(s0, id, rec, spv.trace_id, spv.span_id, now_mono, now_wall));
            lemma_set_ext_wf(s0, i as int, Some(fresh_ext_v(spv, now_mono, now_wall)));
        }
    }

    /// Folds the interval since the last transition into idle time and
    /// restamps the start timestamp: the span resumes executing. Untracked
    /// spans observe nothing.
    pub fn enter_span(&mut self, id: u64, now_mono: u64, now_wall: u64)
        requires
            store_wf(old(self)@),
            has_id(old(self)@, id),
            now_ok(old(self)@, id, now_mono),
        ensures
            store_wf(final(self)@),
            final(self)@ == enter_model(old(self)@, id, now_mono, now_wall),
    {
        let ghost s0 = self@;
        let i = match self.index_of(id) {
            Some(i) => i,
            None => unreached(),
        };
        let entry = self.entries.remove(i);
        let SpanEntry { id: eid, name: ename, parent: eparent, ext } = entry;
        match ext {
            None => {
                self.entries.insert(i, SpanEntry { id: eid, name: ename, parent: eparent, ext: None });
                proof {
                    assert(self@ =~= s0);
                }
            },
            Some(mut e) => {
                proof {
                    assert(ext_ok(s0, i as int));
                    assert(ext_of(s0, id) == Some(e@));
                }
                e.idle = e.idle + (now_mono - e.last);
                e.last = now_mono;
                e.span.start_timestamp = now_wall;
                self.entries.insert(
                    i,
                    SpanEntry { id: eid, name: ename, parent: eparent, ext: Some(e) },
                );
                proof {
                    assert(self@ =~= store_set_ext(s0, i as int, Some(enter_ext(ext_at(s0, i as int), now_mono, now_wall))));
                    crate::trace_ext::lemma_transitions_wf(ext_at(s0, i as int), now_mono, now_wall);
                    lemma_set_ext_wf(s0, i as int, Some(enter_ext(ext_at(s0, i as int), now_mono, now_wall)));
                }
            },
        }
    }

    /// Folds the interval since the last transition into busy time and
    /// stamps the end timestamps: the span suspends, possibly to resume
    /// later. Untracked spans observe nothing.
    pub fn exit_span(&mut self, id: u64, now_mono: u64, now_wall: u64)
        requires
            store_wf(old(self)@),
            has_id(old(self)@, id),
            now_ok(old(self)@, id, now_mono),
        ensures
            store_wf(final(self)@),
            final(self)@ == exit_model(old(self)@, id, now_mono, now_wall),
    {
        let ghost s0 = self@;
        let i = match self.index_of(id) {
            Some(i) => i,
            None => unreached(),
        };
        let entry = self.entries.remove(i);
        let SpanEntry { id: eid, name: ename, parent: eparent, ext } = entry;
        match ext {
            None => {
                self.entries.insert(i, SpanEntry { id: eid, name: ename, parent: eparent, ext: None });
                proof {
                    assert(self@ =~= s0);
                }
            },
            Some(mut e) => {
                proof {
                    assert(ext_ok(s0, i as int));
                    assert(ext_of(s0, id) == Some(e@));
                }
                e.busy = e.busy + (now_mono - e.last);
                e.last = now_mono;
                e.last_sys = now_wall;
                e.span.timestamp = Some(now_wall);
                self.entries.insert(
                    i,
                    SpanEntry { id: eid, name: ename, parent: eparent, ext: Some(e) },
                );
                proof {
                    assert(self@ =~= store_set_ext(s0, i as int, Some(exit_ext(ext_at(s0, i as int), now_mono, now_wall))));
                    crate::trace_ext::lemma_transitions_wf(ext_at(s0, i as int), now_mono, now_wall);
                    lemma_set_ext_wf(s0, i as int, Some(exit_ext(ext_at(s0, i as int), now_mono, now_wall)));
                }
            },
        }
    }

    /// Closes the span with this id. A span that never got a tracing
    /// extension is a no-op. Otherwise the final idle interval is folded
    /// in, the timing split is written onto the span, and the span either
    /// merges into its nearest tracked ancestor's child list or — when no
    /// tracked ancestor exists — is assembled into the returned
    /// transaction, exactly once.
    pub fn close_span(&mut self, id: u64, now_mono: u64) -> (r: Option<Transaction>)
        requires
            store_wf(old(self)@),
            has_id(old(self)@, id),
            now_ok(old(self)@, id, now_mono),
        ensures
            store_wf(final(self)@),
            final(self)@ == close_model(old(self)@, id, now_mono),
            (match r {
                Some(tx) => close_output_model(old(self)@, id, now_mono, tx@.event_id) == Some(
                    tx@,
                ),
                None => !close_is_root(old(self)@, id),
            }),
    {
        let ghost s0 = self@;
        let i = match self.index_of(id) {
            Some(i) => i,
            None => unreached(),
        };
        let untracked = match &self.entries[i].ext {
            Some(_) => false,
            None => true,
        };
        if untracked {
            return None;
        }
        let j_opt = self.find_nearest_tracked(i);
        proof {
            lemma_nearest_tracked(s0, i as int);
        }
        let entry = self.entries.remove(i);
        let SpanEntry { id: eid, name: ename, parent: eparent, ext } = entry;
        let e = match ext {
            Some(e) => e,
            None => unreached(),
        };
        let ghost ev = e@;
        let TraceExt { span, spans: mut children, idle, busy, last, first, last_sys, first_mono: _ } =
            e;
        proof {
            assert(ext_ok(s0, i as int));
            assert(ext_of(s0, id) == Some(ev));
        }
        let idle2 = idle + (now_mono - last);
        let timings = Timings { start_time: first, end_time: last_sys, busy, idle: idle2 };
        let mut closed = span;
        default_on_close(&mut closed, timings);
        let name_for_tx = ename.clone();
        self.entries.insert(i, SpanEntry { id: eid, name: ename, parent: eparent, ext: None });
        let ghost s_mid = self@;
        proof {
            assert(s_mid =~= store_set_ext(s0, i as int, None));
            assert(timings == close_timings(ev, now_mono));
        }
        match j_opt {
            Some(j) => {
                let pentry = self.entries.remove(j);
                let SpanEntry { id: pid, name: pname, parent: pparent, ext: pext } = pentry;
                let mut pe = match pext {
                    Some(pe) => pe,
                    None => unreached(),
                };
                let ghost pev = pe@;
                closed.parent_span_id = Some(pe.span.span_id);
                let ghost closed_v = closed@;
                pe.spans.append(&mut children);
                pe.spans.push(closed);
                let ghost new_spans = pe.spans@;
                self.entries.insert(
                    j,
                    SpanEntry { id: pid, name: pname, parent: pparent, ext: Some(pe) },
                );
                proof {
                    let sp = closed_span_v(ev, Some(pev.span.span_id), now_mono);
                    let pe2 = ExtV { spans: pev.spans + ev.spans + seq![sp], ..pev };
                    assert(s_mid[j as int].ext == Some(pev));
                    assert(closed_v == sp);
                    assert(crate::protocol::spans_v(new_spans) =~= pev.spans + ev.spans + seq![
                        sp,
                    ]);
                    assert(self@ =~= store_set_ext(s_mid, j as int, Some(pe2)));
                    assert(self@ == close_model(s0, id, now_mono));
                    assert(ext_ok(s0, j as int));
                    assert(ext_wf(pe2));
                    lemma_set_ext_wf(s0, i as int, None);
                    lemma_set_ext_wf(s_mid, j as int, Some(pe2));
                }
                None
            },
            None => {
                let tx = default_convert_transaction(closed, &name_for_tx, children, timings);
                proof {
                    lemma_set_ext_wf(s0, i as int, None);
                    assert(self@ == close_model(s0, id, now_mono));
                    assert(close_output_model(s0, id, now_mono, tx@.event_id) == Some(tx@));
                }
                Some(tx)
            },
        }
    }
}


/// Walks a span's strict ancestors, closest first.
pub struct ParentSpanIter {
    pub next_id: u64,
}

impl ParentSpanIter {
    pub fn new(id: u64) -> (r: ParentSpanIter)
        ensures
            r.next_id == id,
    {
        ParentSpanIter { next_id: id }
    }

    /// Steps outward to the parent of the current span, if there is one.
    pub fn next(&mut self, store: &SpanStore) -> (r: Option<u64>)
        requires
            store_wf(store@),
            has_id(store@, old(self).next_id),
        ensures
            (match store@[find_idx(store@, old(self).next_id)].parent {
                Some(p) => r == Some(p) && final(self).next_id == p,
                None => r == None::<u64> && final(self).next_id == old(self).next_id,
            }),
    {
        let i = match store.index_of(self.next_id) {
            Some(i) => i,
            None => unreached(),
        };
        match store.parent_at_idx(i) {
            Some(p) => {
                self.next_id = p;
                Some(p)
            },
            None => None,
        }
    }

    /// The absolute root of the chain the span with this id belongs to.
    pub fn root_span(store: &SpanStore, id: u64) -> (r: u64)
        requires
            store_wf(store@),
            has_id(store@, id),
        ensures
            ({
                let root = root_of(store@, find_idx(store@, id));
                0 <= root < store@.len() && r == store@[root].id
            }),
    {
        let start = match store.index_of(id) {
            Some(i) => i,
            None => unreached(),
        };
        let mut cur: usize = start;
        loop
            invariant
                store_wf(store@),
                cur < store@.len(),
                start as int == find_idx(store@, id),
                root_of(store@, start as int) == root_of(store@, cur as int),
            decreases cur,
        {
            match store.parent_at_idx(cur) {
                None => {
                    return store.id_at_idx(cur);
                },
                Some(p) => {
                    proof {
                        assert(parent_ok(store@, cur as int));
                    }
                    let j = match store.index_of(p) {
                        Some(j) => j,
                        None => unreached(),
                    };
                    cur = j;
                },
            }
        }
    }
}

} // verus!
