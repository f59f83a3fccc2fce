use vstd::prelude::*;
use crate::draw_batches::{
    batch_indices, batch_is_nonempty, batch_pipelines, batch_views, batches_are_maximal_runs, group_runs,
    lemma_group_runs, pass_order_spec, BatchView, DrawBatch, DrawPipelineKey,
};
use crate::draw_order::{
    all_blended_entries, all_opaque_entries, blended_entries_of, considered, draw_state_spec, keyed_entry,
    lemma_order_code_is_lexicographic, opaque_entries_of, order_code, strip_keys, DrawOrderOptions,
    MeshDrawOrderInfo, OrderEntry, SceneMeshDrawState,
};
use crate::stable_sort::{is_stable_sort_of, stable_sorted_by};

verus! {

/// The draw indices of a queue in drawing order.
pub open spec fn queue_indices(bs: Seq<DrawBatch>) -> Seq<usize> {
    batch_indices(batch_views(bs))
}

/// The pipeline of each drawn index of a queue, in drawing order.
pub open spec fn queue_pipelines(bs: Seq<DrawBatch>) -> Seq<DrawPipelineKey> {
    batch_pipelines(batch_views(bs))
}

/// `(queue, index, pass)` of `a` does not come after that of `b`.
pub open spec fn render_order_le(qa: i32, ia: usize, pa: u8, qb: i32, ib: usize, pb: u8) -> bool {
    qa < qb || (qa == qb && (ia < ib || (ia == ib && pa <= pb)))
}

proof fn lemma_filter_keeps_all(bs: Seq<BatchView>)
    requires
        forall|k: int| 0 <= k < bs.len() ==> #[trigger] bs[k].1.len() > 0,
    ensures
        bs.filter(|b: BatchView| batch_is_nonempty(b)) == bs,
    decreases bs.len(),
{
    reveal(Seq::filter);
    if bs.len() > 0 {
        let pre = bs.drop_last();
        assert forall|k: int| 0 <= k < pre.len() implies #[trigger] pre[k].1.len() > 0 by {
            assert(pre[k] == bs[k]);
        }
        lemma_filter_keeps_all(pre);
        assert(bs.last().1.len() > 0);
        assert(pre.push(bs.last()) =~= bs);
    }
}

/// The entries of a sorted queue, grouped into batches, give the drawing order: the indices
/// and pipelines of the entries, in the sorted order.
proof fn lemma_batches_flatten(sorted: Seq<OrderEntry>)
    ensures
        batch_indices(group_runs(strip_keys(sorted)).filter(|b: BatchView| batch_is_nonempty(b))) == sorted.map_values(
            |e: OrderEntry| e.1.1,
        ),
        batch_pipelines(group_runs(strip_keys(sorted)).filter(|b: BatchView| batch_is_nonempty(b))) == sorted.map_values(
            |e: OrderEntry| e.1.0,
        ),
{
    let entries = strip_keys(sorted);
    lemma_group_runs(entries);
    let runs = group_runs(entries);
    assert(batches_are_maximal_runs(runs));
    lemma_filter_keeps_all(runs);
    assert(entries.map_values(|e: (DrawPipelineKey, usize)| e.1) =~= sorted.map_values(|e: OrderEntry| e.1.1));
    assert(entries.map_values(|e: (DrawPipelineKey, usize)| e.0) =~= sorted.map_values(|e: OrderEntry| e.1.0));
}

/// An entry of draw `i`: its index, pipeline and sort code.
pub open spec fn entry_of_draw(e: OrderEntry, d: MeshDrawOrderInfo, i: int) -> bool {
    &&& e.1.1 == i
    &&& e.0 == order_code(d.render_queue, i as usize, pass_order_spec(e.1.0.kind))
}

proof fn lemma_keyed_entries_of_draw(d: MeshDrawOrderInfo, i: int, opts: DrawOrderOptions)
    requires
        0 <= i <= usize::MAX,
    ensures
        forall|kind: crate::draw_batches::DrawPipelineKind| entry_of_draw(#[trigger] keyed_entry(kind, d, i, opts), d, i),
{
    assert forall|kind: crate::draw_batches::DrawPipelineKind| entry_of_draw(#[trigger] keyed_entry(kind, d, i, opts), d, i) by {
        lemma_order_code_is_lexicographic(
            d.render_queue,
            i as usize,
            pass_order_spec(kind),
            d.render_queue,
            i as usize,
            pass_order_spec(kind),
        );
    }
}

proof fn lemma_draw_entries_shape(d: MeshDrawOrderInfo, i: int, opts: DrawOrderOptions, inc: bool)
    requires
        0 <= i <= usize::MAX,
    ensures
        forall|k: int| 0 <= k < opaque_entries_of(d, i, opts, inc).len() ==> entry_of_draw(
            #[trigger] opaque_entries_of(d, i, opts, inc)[k],
            d,
            i,
        ),
        forall|k: int| 0 <= k < blended_entries_of(d, i, opts, inc).len() ==> entry_of_draw(
            #[trigger] blended_entries_of(d, i, opts, inc)[k],
            d,
            i,
        ),
        considered(d, inc) <==> (opaque_entries_of(d, i, opts, inc).len() > 0 || blended_entries_of(d, i, opts, inc).len()
            > 0),
        !(opaque_entries_of(d, i, opts, inc).len() > 0 && blended_entries_of(d, i, opts, inc).len() > 0),
{
    lemma_keyed_entries_of_draw(d, i, opts);
}

/// Some entry belongs to draw `i`.
pub open spec fn has_entry_for(es: Seq<OrderEntry>, i: int) -> bool {
    exists|k: int| 0 <= k < es.len() && (#[trigger] es[k]).1.1 == i
}

proof fn lemma_all_entries(ds: Seq<MeshDrawOrderInfo>, opts: DrawOrderOptions, inc: bool)
    requires
        ds.len() <= usize::MAX,
    ensures
        forall|k: int|
            0 <= k < all_opaque_entries(ds, opts, inc).len() ==> {
                let e = #[trigger] all_opaque_entries(ds, opts, inc)[k];
                e.1.1 < ds.len() && entry_of_draw(e, ds[e.1.1 as int], e.1.1 as int)
            },
        forall|k: int|
            0 <= k < all_blended_entries(ds, opts, inc).len() ==> {
                let e = #[trigger] all_blended_entries(ds, opts, inc)[k];
                e.1.1 < ds.len() && entry_of_draw(e, ds[e.1.1 as int], e.1.1 as int)
            },
        forall|i: int|
            0 <= i < ds.len() ==> (#[trigger] has_entry_for(all_opaque_entries(ds, opts, inc), i) <==> opaque_entries_of(
                ds[i],
                i,
                opts,
                inc,
            ).len() > 0),
        forall|i: int|
            0 <= i < ds.len() ==> (#[trigger] has_entry_for(all_blended_entries(ds, opts, inc), i)
                <==> blended_entries_of(ds[i], i, opts, inc).len() > 0),
    decreases ds.len(),
{
    if ds.len() > 0 {
        let pre = ds.drop_last();
        let n = ds.len() - 1;
        lemma_all_entries(pre, opts, inc);
        lemma_draw_entries_shape(ds[n], n, opts, inc);
        let ao = all_opaque_entries(ds, opts, inc);
        let po = all_opaque_entries(pre, opts, inc);
        let xo = opaque_entries_of(ds[n], n, opts, inc);
        let ab = all_blended_entries(ds, opts, inc);
        let pb = all_blended_entries(pre, opts, inc);
        let xb = blended_entries_of(ds[n], n, opts, inc);
        assert(ao == po + xo);
        assert(ab == pb + xb);
        assert forall|k: int| 0 <= k < ao.len() implies {
            let e = #[trigger] ao[k];
            e.1.1 < ds.len() && entry_of_draw(e, ds[e.1.1 as int], e.1.1 as int)
        } by {
            if k < po.len() {
                assert(ao[k] == po[k]);
                assert(pre[po[k].1.1 as int] == ds[po[k].1.1 as int]);
            } else {
                assert(ao[k] == xo[k - po.len()]);
            }
        }
        assert forall|k: int| 0 <= k < ab.len() implies {
            let e = #[trigger] ab[k];
            e.1.1 < ds.len() && entry_of_draw(e, ds[e.1.1 as int], e.1.1 as int)
        } by {
            if k < pb.len() {
                assert(ab[k] == pb[k]);
                assert(pre[pb[k].1.1 as int] == ds[pb[k].1.1 as int]);
            } else {
                assert(ab[k] == xb[k - pb.len()]);
            }
        }
        assert forall|i: int| 0 <= i < ds.len() implies (#[trigger] has_entry_for(ao, i) <==> opaque_entries_of(
            ds[i],
            i,
            opts,
            inc,
        ).len() > 0) by {
            if i < n {
                assert(pre[i] == ds[i]);
                if has_entry_for(ao, i) {
                    let k = choose|k: int| 0 <= k < ao.len() && (#[trigger] ao[k]).1.1 == i;
                    if k >= po.len() {
                        assert(ao[k] == xo[k - po.len()]);
                    } else {
                        assert(ao[k] == po[k]);
                        assert(has_entry_for(po, i));
                    }
                }
                if has_entry_for(po, i) {
                    let k = choose|k: int| 0 <= k < po.len() && (#[trigger] po[k]).1.1 == i;
                    assert(ao[k] == po[k]);
                }
            } else {
                if xo.len() > 0 {
                    assert(ao[po.len() as int] == xo[0]);
                }
                if has_entry_for(ao, i) {
                    let k = choose|k: int| 0 <= k < ao.len() && (#[trigger] ao[k]).1.1 == i;
                    if k < po.len() {
                        assert(ao[k] == po[k]);
                    }
                }
            }
        }
        assert forall|i: int| 0 <= i < ds.len() implies (#[trigger] has_entry_for(ab, i) <==> blended_entries_of(
            ds[i],
            i,
            opts,
            inc,
        ).len() > 0) by {
            if i < n {
                assert(pre[i] == ds[i]);
                if has_entry_for(ab, i) {
                    let k = choose|k: int| 0 <= k < ab.len() && (#[trigger] ab[k]).1.1 == i;
                    if k >= pb.len() {
                        assert(ab[k] == xb[k - pb.len()]);
                    } else {
                        assert(ab[k] == pb[k]);
                        assert(has_entry_for(pb, i));
                    }
                }
                if has_entry_for(pb, i) {
                    let k = choose|k: int| 0 <= k < pb.len() && (#[trigger] pb[k]).1.1 == i;
                    assert(ab[k] == pb[k]);
                }
            } else {
                if xb.len() > 0 {
                    assert(ab[pb.len() as int] == xb[0]);
                }
                if has_entry_for(ab, i) {
                    let k = choose|k: int| 0 <= k < ab.len() && (#[trigger] ab[k]).1.1 == i;
                    if k < pb.len() {
                        assert(ab[k] == pb[k]);
                    }
                }
            }
        }
    }
}

/// A queue drawn from `entries`: its drawing order lists the entries of a stable sort of them.
proof fn lemma_queue_of_entries(bs: Seq<DrawBatch>, entries: Seq<OrderEntry>) -> (sorted: Seq<OrderEntry>)
    requires
        crate::draw_order::batches_of_sorted(batch_views(bs), entries),
    ensures
        is_stable_sort_of(sorted, entries),
        queue_indices(bs) == sorted.map_values(|e: OrderEntry| e.1.1),
        queue_pipelines(bs) == sorted.map_values(|e: OrderEntry| e.1.0),
{
    let sorted = choose|sorted: Seq<OrderEntry>|
        is_stable_sort_of(sorted, entries) && batch_views(bs) == group_runs(strip_keys(sorted)).filter(
            |b: BatchView| batch_is_nonempty(b),
        );
    lemma_batches_flatten(sorted);
    sorted
}

proof fn lemma_queue_has_index(bs: Seq<DrawBatch>, entries: Seq<OrderEntry>, i: int)
    requires
        crate::draw_order::batches_of_sorted(batch_views(bs), entries),
    ensures
        queue_indices(bs).contains(i as usize) && 0 <= i <= usize::MAX <==> has_entry_for(entries, i),
{
    let sorted = lemma_queue_of_entries(bs, entries);
    crate::stable_sort::lemma_stable_sort_same_items(sorted, entries);
    let q = queue_indices(bs);
    if q.contains(i as usize) && 0 <= i <= usize::MAX {
        let k = choose|k: int| 0 <= k < q.len() && q[k] == i as usize;
        assert(entries.contains(sorted[k]));
        let j = choose|j: int| 0 <= j < entries.len() && entries[j] == sorted[k];
        assert(entries[j].1.1 == i);
    }
    if has_entry_for(entries, i) {
        let j = choose|j: int| 0 <= j < entries.len() && (#[trigger] entries[j]).1.1 == i;
        assert(sorted.contains(entries[j]));
        let k = choose|k: int| 0 <= k < sorted.len() && sorted[k] == entries[j];
        assert(q[k] == i as usize);
    }
}

/// Each considered draw (every draw with `include_inactive`, else the active ones) is drawn
/// in exactly one queue, opaque or blended; the others are in neither; and the queues hold
/// only indices of draws.
pub proof fn lemma_every_considered_draw_in_one_queue(
    s: SceneMeshDrawState,
    ds: Seq<MeshDrawOrderInfo>,
    opts: DrawOrderOptions,
    include_inactive: bool,
    i: int,
)
    requires
        draw_state_spec(s, ds, opts, include_inactive),
        ds.len() <= usize::MAX,
        0 <= i < ds.len(),
    ensures
        considered(ds[i], include_inactive) <==> (queue_indices(s.opaque_batches@).contains(i as usize) || queue_indices(
            s.blended_batches@,
        ).contains(i as usize)),
        !(queue_indices(s.opaque_batches@).contains(i as usize) && queue_indices(s.blended_batches@).contains(
            i as usize,
        )),
        forall|k: int| 0 <= k < queue_indices(s.opaque_batches@).len() ==> #[trigger] queue_indices(s.opaque_batches@)[k] < ds.len(),
        forall|k: int| 0 <= k < queue_indices(s.blended_batches@).len() ==> #[trigger] queue_indices(s.blended_batches@)[k] < ds.len(),
{
    let oe = all_opaque_entries(ds, opts, include_inactive);
    let be = all_blended_entries(ds, opts, include_inactive);
    lemma_all_entries(ds, opts, include_inactive);
    lemma_draw_entries_shape(ds[i], i, opts, include_inactive);
    lemma_queue_has_index(s.opaque_batches@, oe, i);
    lemma_queue_has_index(s.blended_batches@, be, i);
    assert(has_entry_for(oe, i) <==> opaque_entries_of(ds[i], i, opts, include_inactive).len() > 0);
    assert(has_entry_for(be, i) <==> blended_entries_of(ds[i], i, opts, include_inactive).len() > 0);
    let so = lemma_queue_of_entries(s.opaque_batches@, oe);
    let sb = lemma_queue_of_entries(s.blended_batches@, be);
    crate::stable_sort::lemma_stable_sort_same_items(so, oe);
    crate::stable_sort::lemma_stable_sort_same_items(sb, be);
    assert forall|k: int| 0 <= k < queue_indices(s.opaque_batches@).len() implies #[trigger] queue_indices(
        s.opaque_batches@,
    )[k] < ds.len() by {
        assert(oe.contains(so[k]));
        let j = choose|j: int| 0 <= j < oe.len() && oe[j] == so[k];
        assert(oe[j].1.1 < ds.len());
    }
    assert forall|k: int| 0 <= k < queue_indices(s.blended_batches@).len() implies #[trigger] queue_indices(
        s.blended_batches@,
    )[k] < ds.len() by {
        assert(be.contains(sb[k]));
        let j = choose|j: int| 0 <= j < be.len() && be[j] == sb[k];
        assert(be[j].1.1 < ds.len());
    }
}

/// A queue is drawn in render order: by render queue, then draw index, then pass (back faces,
/// then the gem pre-pass, then the forward pass).
pub proof fn lemma_queues_draw_in_render_order(
    s: SceneMeshDrawState,
    ds: Seq<MeshDrawOrderInfo>,
    opts: DrawOrderOptions,
    include_inactive: bool,
    blended: bool,
    j: int,
    k: int,
)
    requires
        draw_state_spec(s, ds, opts, include_inactive),
        ds.len() <= usize::MAX,
        0 <= j < k < queue_indices(if blended { s.blended_batches@ } else { s.opaque_batches@ }).len(),
    ensures
        ({
            let q = if blended { s.blended_batches@ } else { s.opaque_batches@ };
            let a = queue_indices(q)[j];
            let b = queue_indices(q)[k];
            &&& a < ds.len()
            &&& b < ds.len()
            &&& render_order_le(
                ds[a as int].render_queue,
                a,
                pass_order_spec(queue_pipelines(q)[j].kind),
                ds[b as int].render_queue,
                b,
                pass_order_spec(queue_pipelines(q)[k].kind),
            )
        }),
{
    let q = if blended { s.blended_batches@ } else { s.opaque_batches@ };
    let es = if blended { all_blended_entries(ds, opts, include_inactive) } else { all_opaque_entries(ds, opts, include_inactive) };
    lemma_all_entries(ds, opts, include_inactive);
    let sorted = lemma_queue_of_entries(q, es);
    crate::stable_sort::lemma_stable_sort_same_items(sorted, es);
    assert(es.contains(sorted[j]));
    assert(es.contains(sorted[k]));
    let jj = choose|jj: int| 0 <= jj < es.len() && es[jj] == sorted[j];
    let kk = choose|kk: int| 0 <= kk < es.len() && es[kk] == sorted[k];
    let ej = es[jj];
    let ek = es[kk];
    assert(ej.1.1 < ds.len() && entry_of_draw(ej, ds[ej.1.1 as int], ej.1.1 as int));
    assert(ek.1.1 < ds.len() && entry_of_draw(ek, ds[ek.1.1 as int], ek.1.1 as int));
    assert(sorted[j].0 <= sorted[k].0);
    let a = ej.1.1;
    let b = ek.1.1;
    let pa = pass_order_spec(ej.1.0.kind);
    let pb = pass_order_spec(ek.1.0.kind);
    lemma_order_code_is_lexicographic(ds[a as int].render_queue, a, pa, ds[b as int].render_queue, b, pb);
    lemma_order_code_is_lexicographic(ds[b as int].render_queue, b, pb, ds[a as int].render_queue, a, pa);
    assert(queue_indices(q)[j] == a);
    assert(queue_indices(q)[k] == b);
    assert(queue_pipelines(q)[j] == ej.1.0);
    assert(queue_pipelines(q)[k] == ek.1.0);
}

} // verus!
