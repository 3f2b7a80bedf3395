//! The library's cross-cutting guarantees, stated and proved over the
//! lifecycle and extraction models.

use vstd::prelude::*;

use crate::field_visitor::{extract_model, visit_one, CfgV, FieldValueV, RecordV};
use crate::store::{
    close_is_root, close_model, close_output_model, closed_span_v, create_model, ext_at, ext_of,
    find_idx, has_id, lemma_find_idx, lemma_find_idx_same_ids, lemma_nearest_tracked,
    nearest_tracked_above, now_ok, store_set_ext, store_wf, StoreV,
};
use crate::trace_ext::{close_timings, lemma_close_accounts_all_time, ExtV};
use crate::values::{
    fm_contains, fm_lookup, lemma_fm_contains_iff, lemma_fm_insert_keeps_absent, ValueV,
};

verus! {

/// Closing a span that never got a tracing extension — disabled, filtered,
/// or simply never created — changes nothing and submits nothing.
pub proof fn lemma_close_untracked_is_noop(s: StoreV, id: u64, now: u64, event_id: u128)
    requires
        ext_of(s, id) is None,
    ensures
        close_model(s, id, now) == s,
        close_output_model(s, id, now, event_id) is None,
{
    lemma_find_idx(s, id);
}

/// Close is terminal: whatever a close did, the span's extension slot is
/// empty afterwards, so a second close of the same id changes nothing and
/// submits nothing — each id's terminal submission happens at most once.
pub proof fn lemma_close_is_terminal(s: StoreV, id: u64, now: u64, now2: u64, event_id: u128)
    requires
        store_wf(s),
        has_id(s, id),
    ensures
        ({
            let s2 = close_model(s, id, now);
            &&& ext_of(s2, id) is None
            &&& close_model(s2, id, now2) == s2
            &&& close_output_model(s2, id, now2, event_id) is None
        }),
{
    let i = find_idx(s, id);
    lemma_find_idx(s, id);
    let s2 = close_model(s, id, now);
    if s[i].ext is Some {
        match nearest_tracked_above(s, i) {
            Some(j) => {
                lemma_nearest_tracked(s, i);
                let s_mid = store_set_ext(s, i, None);
                lemma_find_idx_same_ids(s, s_mid, id);
                lemma_find_idx_same_ids(s_mid, s2, id);
                assert(s2[i].ext is None);
            },
            None => {
                lemma_find_idx_same_ids(s, s2, id);
                assert(s2[i].ext is None);
            },
        }
    } else {
        assert(s2 == s);
    }
    lemma_close_untracked_is_noop(s2, id, now2, event_id);
}

/// At close, the accumulated busy and idle nanoseconds sum exactly to the
/// monotonic interval between the span's creation and its close: no time
/// is counted twice and none is dropped, over any number of enter/exit
/// cycles.
pub proof fn lemma_close_timing_total(s: StoreV, id: u64, now: u64)
    requires
        store_wf(s),
        has_id(s, id),
        ext_of(s, id) is Some,
        now_ok(s, id, now),
    ensures
        ({
            let e = ext_at(s, find_idx(s, id));
            close_timings(e, now).busy + close_timings(e, now).idle == now - e.first_mono
        }),
{
    let i = find_idx(s, id);
    lemma_find_idx(s, id);
    assert(crate::store::ext_ok(s, i));
    lemma_close_accounts_all_time(ext_at(s, i), now);
}

/// A walk for the nearest tracked ancestor skips an untracked parent
/// transparently: it continues exactly where the parent's own walk would.
pub proof fn lemma_nearest_skips_untracked(s: StoreV, i: int, p: u64)
    requires
        0 <= i < s.len(),
        s[i].parent == Some(p),
        0 <= find_idx(s, p) < i,
        s[find_idx(s, p)].ext is None,
    ensures
        nearest_tracked_above(s, i) == nearest_tracked_above(s, find_idx(s, p)),
{
}

/// A tracked parent is itself the nearest tracked ancestor.
pub proof fn lemma_nearest_finds_tracked_parent(s: StoreV, i: int, p: u64)
    requires
        0 <= i < s.len(),
        s[i].parent == Some(p),
        0 <= find_idx(s, p) < i,
        s[find_idx(s, p)].ext is Some,
    ensures
        nearest_tracked_above(s, i) == Some(find_idx(s, p)),
{
}

/// A span whose parent is untracked but whose grandparent is a tracked
/// root attaches directly to that root when it closes: the closed span is
/// appended to the root's child list carrying the root's span id as its
/// parent — the untracked layer is skipped.
pub proof fn lemma_close_attaches_over_untracked(s: StoreV, id: u64, mid: u64, root: u64, now: u64)
    requires
        store_wf(s),
        has_id(s, id),
        ({
            let i = find_idx(s, id);
            &&& s[i].ext is Some
            &&& s[i].parent == Some(mid)
            &&& 0 <= find_idx(s, mid) < i
            &&& s[find_idx(s, mid)].ext is None
            &&& s[find_idx(s, mid)].parent == Some(root)
            &&& 0 <= find_idx(s, root) < find_idx(s, mid)
            &&& s[find_idx(s, root)].ext is Some
        }),
    ensures
        ({
            let i = find_idx(s, id);
            let rj = find_idx(s, root);
            let s2 = close_model(s, id, now);
            let appended = ext_at(s2, rj).spans.last();
            &&& nearest_tracked_above(s, i) == Some(rj)
            &&& ext_at(s2, rj).spans.len() == ext_at(s, rj).spans.len() + ext_at(
                s,
                i,
            ).spans.len() + 1
            &&& appended == closed_span_v(ext_at(s, i), Some(ext_at(s, rj).span.span_id), now)
            &&& appended.parent_span_id == Some(ext_at(s, rj).span.span_id)
        }),
{
    let i = find_idx(s, id);
    let mj = find_idx(s, mid);
    let rj = find_idx(s, root);
    lemma_find_idx(s, id);
    lemma_nearest_skips_untracked(s, i, mid);
    lemma_nearest_finds_tracked_parent(s, mj, root);
    assert(nearest_tracked_above(s, i) == Some(rj));
    let e = ext_at(s, i);
    let pe = ext_at(s, rj);
    let sp = closed_span_v(e, Some(pe.span.span_id), now);
    let pe2 = ExtV { spans: pe.spans + e.spans + seq![sp], ..pe };
    let s2 = store_set_ext(store_set_ext(s, i, None), rj, Some(pe2));
    assert(close_model(s, id, now) == s2);
    assert(ext_at(s2, rj) == pe2);
    assert(pe2.spans.last() == sp);
}

/// A child span that closes before its parent is appended to the parent's
/// child list, in completion order, as the last element; when the parent —
/// a tracked root — later closes, the resulting transaction carries that
/// child span unmodified, in the same position.
pub proof fn lemma_child_kept_in_transaction(
    s: StoreV,
    cid: u64,
    pid: u64,
    now1: u64,
    now2: u64,
    event_id: u128,
)
    requires
        store_wf(s),
        has_id(s, cid),
        has_id(s, pid),
        s[find_idx(s, cid)].ext is Some,
        nearest_tracked_above(s, find_idx(s, cid)) == Some(find_idx(s, pid)),
    ensures
        ({
            let ci = find_idx(s, cid);
            let pj = find_idx(s, pid);
            let s2 = close_model(s, cid, now1);
            let child_sp = closed_span_v(ext_at(s, ci), Some(ext_at(s, pj).span.span_id), now1);
            let spans2 = ext_at(s2, find_idx(s2, pid)).spans;
            &&& find_idx(s2, pid) == pj
            &&& spans2.len() == ext_at(s, pj).spans.len() + ext_at(s, ci).spans.len() + 1
            &&& spans2.last() == child_sp
            &&& (close_is_root(s2, pid) ==> (match close_output_model(s2, pid, now2, event_id) {
                Some(tx) => tx.spans == spans2 && tx.spans.last() == child_sp,
                None => false,
            }))
        }),
{
    let ci = find_idx(s, cid);
    let pj = find_idx(s, pid);
    lemma_find_idx(s, cid);
    lemma_find_idx(s, pid);
    lemma_nearest_tracked(s, ci);
    let e = ext_at(s, ci);
    let pe = ext_at(s, pj);
    let sp = closed_span_v(e, Some(pe.span.span_id), now1);
    let pe2 = ExtV { spans: pe.spans + e.spans + seq![sp], ..pe };
    let s_mid = store_set_ext(s, ci, None);
    let s2 = store_set_ext(s_mid, pj, Some(pe2));
    assert(close_model(s, cid, now1) == s2);
    lemma_find_idx_same_ids(s, s_mid, pid);
    lemma_find_idx_same_ids(s_mid, s2, pid);
    assert(ext_at(s2, pj) == pe2);
}

/// Trace-id propagation: a span created under a tracked ancestor inherits
/// that ancestor's trace id, unless its own attributes carry an explicit,
/// well-formed trace id, which takes precedence; a root with neither gets
/// the freshly generated one.
pub proof fn lemma_trace_id_inheritance(
    s: StoreV,
    id: u64,
    rec: RecordV,
    fresh_trace: u128,
    fresh_span: u64,
    now: u64,
    wall: u64,
)
    requires
        store_wf(s),
        has_id(s, id),
        s[find_idx(s, id)].ext is None,
    ensures
        ({
            let i = find_idx(s, id);
            let s2 = create_model(s, id, rec, fresh_trace, fresh_span, now, wall);
            let tid = ext_at(s2, i).span.trace_id;
            &&& (rec.trace_id matches Some(t) ==> tid == t)
            &&& (rec.trace_id is None ==> (nearest_tracked_above(s, i) matches Some(j) ==> tid
                == ext_at(s, j).span.trace_id))
            &&& ((rec.trace_id is None && nearest_tracked_above(s, i) is None) ==> tid
                == fresh_trace)
        }),
{
    let i = find_idx(s, id);
    lemma_find_idx(s, id);
    let s2 = create_model(s, id, rec, fresh_trace, fresh_span, now, wall);
    assert(s2[i].ext is Some);
}

/// Round-trip of the message field: a field named as the configured
/// message field never appears in the extracted data map — it is fully
/// consumed into the message — whatever fields arrive and in whatever
/// order.
pub proof fn lemma_message_field_not_in_data(
    cfg: CfgV,
    fields: Seq<(Seq<char>, FieldValueV)>,
    m: Seq<char>,
)
    requires
        cfg.event_message_field == Some(m),
    ensures
        !fm_contains(extract_model(cfg, fields).data, m),
        fm_lookup(extract_model(cfg, fields).data, m) is None,
    decreases fields.len(),
{
    if fields.len() == 0 {
        lemma_fm_contains_iff(extract_model(cfg, fields).data, m);
    } else {
        let prior = extract_model(cfg, fields.drop_last());
        lemma_message_field_not_in_data(cfg, fields.drop_last(), m);
        let name = fields.last().0;
        let v = fields.last().1;
        let r2 = visit_one(cfg, prior, fields.last().0, fields.last().1);
        assert(extract_model(cfg, fields) == r2);
        match v {
            FieldValueV::I64(x) => {
                if name != m {
                    lemma_fm_insert_keeps_absent(prior.data, name, ValueV::Int(x), m);
                }
            },
            FieldValueV::U64(x) => {
                if name != m {
                    lemma_fm_insert_keeps_absent(prior.data, name, ValueV::Uint(x), m);
                }
            },
            FieldValueV::Bool(b) => {
                if name != m {
                    lemma_fm_insert_keeps_absent(prior.data, name, ValueV::Bool(b), m);
                }
            },
            FieldValueV::Str(txt) => {
                if name != m && name != "trace_id"@ && name != "span_id"@ {
                    lemma_fm_insert_keeps_absent(
                        prior.data,
                        name,
                        ValueV::Str(crate::field_visitor::strip_if(cfg, txt)),
                        m,
                    );
                }
            },
            FieldValueV::Debug(txt) => {
                if name != m {
                    lemma_fm_insert_keeps_absent(
                        prior.data,
                        name,
                        ValueV::Str(crate::field_visitor::strip_if(cfg, txt)),
                        m,
                    );
                }
            },
            FieldValueV::Error(_) => {},
        }
    }
}

} // verus!
