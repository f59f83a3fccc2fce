use vstd::prelude::*;
use crate::draw_batches::{DrawBatch, DrawPipelineKey};
use crate::draw_order::{
    backpass_pipeline_spec, draw_pipeline_key, pipeline_key_spec, transparent_backpass_pipeline_for_draw,
    DrawOrderOptions, MeshDrawOrderInfo,
};
use crate::shader_features::{features_union, no_features, UntoonShaderFeatures};

verus! {

/// The (pipeline, draw) pairs of the batches, in order, leaving out indices past the draws.
pub open spec fn batch_entries(batches: Seq<DrawBatch>, n: nat) -> Seq<(DrawPipelineKey, usize)>
    decreases batches.len(),
{
    if batches.len() == 0 {
        Seq::empty()
    } else {
        let b = batches.last();
        batch_entries(batches.drop_last(), n) + b.draw_indices@.filter(|d: usize| (d as nat) < n).map_values(
            |d: usize| (b.pipeline, d),
        )
    }
}

/// The back-face pass of each listed draw, under the pipeline its pre-pass depth write picks.
pub open spec fn backpass_entries(draws: Seq<MeshDrawOrderInfo>, indices: Seq<usize>, opts: DrawOrderOptions) -> Seq<
    (DrawPipelineKey, usize),
> {
    indices.filter(|d: usize| (d as nat) < draws.len()).map_values(
        |d: usize|
            (pipeline_key_spec(backpass_pipeline_spec(draws[d as int].liltoon_backpass_enabled), draws[d as int], opts), d),
    )
}

/// The union of the features of the draws paired with `key`.
pub open spec fn features_of_key(
    entries: Seq<(DrawPipelineKey, usize)>,
    draw_features: Seq<UntoonShaderFeatures>,
    key: DrawPipelineKey,
) -> UntoonShaderFeatures
    decreases entries.len(),
{
    if entries.len() == 0 {
        no_features()
    } else {
        let earlier = features_of_key(entries.drop_last(), draw_features, key);
        if entries.last().0 == key {
            features_union(earlier, draw_features[entries.last().1 as int])
        } else {
            earlier
        }
    }
}

pub open spec fn has_key(entries: Seq<(DrawPipelineKey, usize)>, key: DrawPipelineKey) -> bool {
    exists|i: int| 0 <= i < entries.len() && (#[trigger] entries[i]).0 == key
}

/// The value stored under `key` (the last entry with that key), if any.
pub open spec fn lookup_features(table: Seq<(DrawPipelineKey, UntoonShaderFeatures)>, key: DrawPipelineKey) -> Option<
    UntoonShaderFeatures,
>
    decreases table.len(),
{
    if table.len() == 0 {
        None
    } else if table.last().0 == key {
        Some(table.last().1)
    } else {
        lookup_features(table.drop_last(), key)
    }
}

pub open spec fn keys_distinct(table: Seq<(DrawPipelineKey, UntoonShaderFeatures)>) -> bool {
    forall|i: int, j: int| 0 <= i < j < table.len() ==> (#[trigger] table[i]).0 != (#[trigger] table[j]).0
}

/// `table` maps each pipeline of `entries` to the union of its draws' features, once per pipeline.
pub open spec fn is_feature_table(
    table: Seq<(DrawPipelineKey, UntoonShaderFeatures)>,
    entries: Seq<(DrawPipelineKey, usize)>,
    draw_features: Seq<UntoonShaderFeatures>,
) -> bool {
    &&& keys_distinct(table)
    &&& forall|key: DrawPipelineKey|
        #[trigger] lookup_features(table, key) == if has_key(entries, key) {
            Some(features_of_key(entries, draw_features, key))
        } else {
            None
        }
}

proof fn lemma_lookup_update(table: Seq<(DrawPipelineKey, UntoonShaderFeatures)>, i: int, f: UntoonShaderFeatures, key: DrawPipelineKey)
    requires
        keys_distinct(table),
        0 <= i < table.len(),
    ensures
        lookup_features(table.update(i, (table[i].0, f)), key) == if key == table[i].0 {
            Some(f)
        } else {
            lookup_features(table, key)
        },
        keys_distinct(table.update(i, (table[i].0, f))),
    decreases table.len(),
{
    let t2 = table.update(i, (table[i].0, f));
    assert(t2.drop_last() =~= if i == table.len() - 1 {
        table.drop_last()
    } else {
        table.drop_last().update(i, (table[i].0, f))
    });
    if i == table.len() - 1 {
        if key == table[i].0 {
        } else {
        }
    } else {
        lemma_lookup_update(table.drop_last(), i, f, key);
        if key == table[i].0 {
            assert(table.last().0 != key);
        }
    }
}

proof fn lemma_lookup_absent(table: Seq<(DrawPipelineKey, UntoonShaderFeatures)>, key: DrawPipelineKey)
    requires
        forall|i: int| 0 <= i < table.len() ==> (#[trigger] table[i]).0 != key,
    ensures
        lookup_features(table, key) is None,
    decreases table.len(),
{
    if table.len() > 0 {
        lemma_lookup_absent(table.drop_last(), key);
    }
}

proof fn lemma_lookup_found(table: Seq<(DrawPipelineKey, UntoonShaderFeatures)>, i: int)
    requires
        keys_distinct(table),
        0 <= i < table.len(),
    ensures
        lookup_features(table, table[i].0) == Some(table[i].1),
    decreases table.len(),
{
    if i < table.len() - 1 {
        lemma_lookup_found(table.drop_last(), i);
    }
}

/// Merges one (pipeline, features) pair into the table.
fn include_features(
    table: &mut Vec<(DrawPipelineKey, UntoonShaderFeatures)>,
    key: DrawPipelineKey,
    features: UntoonShaderFeatures,
)
    requires
        keys_distinct(old(table)@),
    ensures
        keys_distinct(final(table)@),
        forall|k: DrawPipelineKey|
            #[trigger] lookup_features(final(table)@, k) == if k == key {
                Some(
                    features_union(
                        match lookup_features(old(table)@, key) {
                            Some(f) => f,
                            None => no_features(),
                        },
                        features,
                    ),
                )
            } else {
                lookup_features(old(table)@, k)
            },
{
    let mut i: usize = 0;
    while i < table.len()
        invariant
            i <= table@.len(),
            table@ == old(table)@,
            keys_distinct(table@),
            forall|q: int| 0 <= q < i ==> (#[trigger] table@[q]).0 != key,
        decreases table.len() - i,
    {
        if table[i].0 == key {
            let mut merged = table[i].1;
            merged.merge(features);
            proof {
                lemma_lookup_found(table@, i as int);
                assert forall|k: DrawPipelineKey| #[trigger] lookup_features(table@.update(i as int, (key, merged)), k) == if k == key {
                    Some(merged)
                } else {
                    lookup_features(table@, k)
                } by {
                    lemma_lookup_update(table@, i as int, merged, k);
                }
                lemma_lookup_update(table@, i as int, merged, key);
            }
            table.set(i, (key, merged));
            return;
        }
        i = i + 1;
    }
    proof {
        lemma_lookup_absent(table@, key);
    }
    let mut fresh = UntoonShaderFeatures::none();
    fresh.merge(features);
    let ghost before = table@;
    table.push((key, fresh));
    assert(table@.drop_last() =~= before);
}

proof fn lemma_features_step(
    entries: Seq<(DrawPipelineKey, usize)>,
    e: (DrawPipelineKey, usize),
    draw_features: Seq<UntoonShaderFeatures>,
    key: DrawPipelineKey,
)
    ensures
        has_key(entries.push(e), key) == (has_key(entries, key) || e.0 == key),
        features_of_key(entries.push(e), draw_features, key) == if e.0 == key {
            features_union(features_of_key(entries, draw_features, key), draw_features[e.1 as int])
        } else {
            features_of_key(entries, draw_features, key)
        },
{
    assert(entries.push(e).drop_last() =~= entries);
    if has_key(entries, key) {
        let i = choose|i: int| 0 <= i < entries.len() && (#[trigger] entries[i]).0 == key;
        assert(entries.push(e)[i] == entries[i]);
    }
    if e.0 == key {
        assert(entries.push(e)[entries.len() as int] == e);
    }
    if has_key(entries.push(e), key) && e.0 != key {
        let i = choose|i: int| 0 <= i < entries.push(e).len() && (#[trigger] entries.push(e)[i]).0 == key;
        assert(entries[i] == entries.push(e)[i]);
    }
}

proof fn lemma_no_key_no_features(entries: Seq<(DrawPipelineKey, usize)>, draw_features: Seq<UntoonShaderFeatures>, key: DrawPipelineKey)
    requires
        !has_key(entries, key),
    ensures
        features_of_key(entries, draw_features, key) == no_features(),
    decreases entries.len(),
{
    if entries.len() > 0 {
        assert(entries.drop_last().len() < entries.len());
        if has_key(entries.drop_last(), key) {
            let i = choose|i: int| 0 <= i < entries.drop_last().len() && (#[trigger] entries.drop_last()[i]).0 == key;
            assert(entries[i].0 == key);
        }
        assert(entries[entries.len() - 1].0 != key);
        lemma_no_key_no_features(entries.drop_last(), draw_features, key);
    }
}

fn include_entry(
    table: &mut Vec<(DrawPipelineKey, UntoonShaderFeatures)>,
    key: DrawPipelineKey,
    draw_index: usize,
    draw_features: &Vec<UntoonShaderFeatures>,
    Ghost(entries): Ghost<Seq<(DrawPipelineKey, usize)>>,
)
    requires
        (draw_index as int) < draw_features@.len(),
        is_feature_table(old(table)@, entries, draw_features@),
    ensures
        is_feature_table(final(table)@, entries.push((key, draw_index)), draw_features@),
{
    include_features(table, key, draw_features[draw_index]);
    proof {
        let e = (key, draw_index);
        assert forall|k: DrawPipelineKey| #[trigger] lookup_features(table@, k) == if has_key(entries.push(e), k) {
            Some(features_of_key(entries.push(e), draw_features@, k))
        } else {
            None
        } by {
            lemma_features_step(entries, e, draw_features@, k);
            if k == key && !has_key(entries, k) {
                lemma_no_key_no_features(entries, draw_features@, k);
            }
        }
    }
}

proof fn lemma_batch_entries_concat(a: Seq<DrawBatch>, b: Seq<DrawBatch>, n: nat)
    ensures
        batch_entries(a + b, n) == batch_entries(a, n) + batch_entries(b, n),
    decreases b.len(),
{
    if b.len() == 0 {
        assert(a + b =~= a);
        assert(batch_entries(a, n) + batch_entries(b, n) =~= batch_entries(a, n));
    } else {
        assert((a + b).drop_last() =~= a + b.drop_last());
        assert((a + b).last() == b.last());
        lemma_batch_entries_concat(a, b.drop_last(), n);
        let tail = b.last().draw_indices@.filter(|d: usize| (d as nat) < n).map_values(|d: usize| (b.last().pipeline, d));
        assert(batch_entries(a, n) + batch_entries(b.drop_last(), n) + tail =~= batch_entries(a, n) + (batch_entries(
            b.drop_last(),
            n,
        ) + tail));
    }
}

/// Merges the draws of the batches into the table, each under its batch's pipeline.
fn include_batches(
    table: &mut Vec<(DrawPipelineKey, UntoonShaderFeatures)>,
    batches: &Vec<DrawBatch>,
    draw_features: &Vec<UntoonShaderFeatures>,
    Ghost(entries0): Ghost<Seq<(DrawPipelineKey, usize)>>,
)
    requires
        is_feature_table(old(table)@, entries0, draw_features@),
    ensures
        is_feature_table(final(table)@, entries0 + batch_entries(batches@, draw_features@.len()), draw_features@),
{
    let n = draw_features.len();
    let ghost mut entries = entries0;
    let mut b: usize = 0;
    while b < batches.len()
        invariant
            b <= batches@.len(),
            n == draw_features@.len(),
            entries == entries0 + batch_entries(batches@.take(b as int), n as nat),
            is_feature_table(table@, entries, draw_features@),
        decreases batches.len() - b,
    {
        let batch = &batches[b];
        assert(batches@.take(b + 1).drop_last() =~= batches@.take(b as int));
        assert(batches@.take(b + 1).last() == *batch);
        let ghost start = entries;
        let ghost pred = |d: usize| (d as nat) < n;
        let ghost pk = batch.pipeline;
        let mut k: usize = 0;
        while k < batch.draw_indices.len()
            invariant
                k <= batch.draw_indices@.len(),
                n == draw_features@.len(),
                pred == (|d: usize| (d as nat) < n),
                pk == batch.pipeline,
                entries == start + batch.draw_indices@.take(k as int).filter(pred).map_values(|d: usize| (pk, d)),
                is_feature_table(table@, entries, draw_features@),
            decreases batch.draw_indices.len() - k,
        {
            let d = batch.draw_indices[k];
            proof {
                reveal(Seq::filter);
                assert(batch.draw_indices@.take(k + 1).drop_last() =~= batch.draw_indices@.take(k as int));
                assert(batch.draw_indices@.take(k + 1).last() == d);
            }
            if d < n {
                include_entry(table, batch.pipeline, d, draw_features, Ghost(entries));
                proof {
                    let old_part = batch.draw_indices@.take(k as int).filter(pred).map_values(|x: usize| (pk, x));
                    assert(batch.draw_indices@.take(k + 1).filter(pred) =~= batch.draw_indices@.take(k as int).filter(pred).push(d));
                    assert(batch.draw_indices@.take(k + 1).filter(pred).map_values(|x: usize| (pk, x)) =~= old_part.push((pk, d)));
                    assert(start + old_part.push((pk, d)) =~= (start + old_part).push((pk, d)));
                    entries = entries.push((pk, d));
                }
            } else {
                proof {
                    assert(batch.draw_indices@.take(k + 1).filter(pred) =~= batch.draw_indices@.take(k as int).filter(pred));
                }
            }
            k = k + 1;
        }
        assert(batch.draw_indices@.take(batch.draw_indices@.len() as int) =~= batch.draw_indices@);
        proof {
            let part = batch.draw_indices@.filter(pred).map_values(|d: usize| (pk, d));
            assert(entries0 + batch_entries(batches@.take(b as int), n as nat) + part =~= entries0 + (batch_entries(
                batches@.take(b as int),
                n as nat,
            ) + part));
        }
        b = b + 1;
    }
    assert(batches@.take(batches@.len() as int) =~= batches@);
}

/// Each pipeline a frame uses and the shader features its draws need: the draws of the opaque
/// and blended batches under their batch's pipeline, and each back-face draw under its
/// back-face pipeline; a pipeline's features are the union of its draws' features
/// (`draw_features` holds each draw's features). One entry per pipeline.
pub fn draw_pipeline_shader_features(
    draws: &Vec<MeshDrawOrderInfo>,
    draw_features: &Vec<UntoonShaderFeatures>,
    opaque_batches: &Vec<DrawBatch>,
    blended_batches: &Vec<DrawBatch>,
    transparent_backpass_draw_indices: &Vec<usize>,
    opts: DrawOrderOptions,
) -> (table: Vec<(DrawPipelineKey, UntoonShaderFeatures)>)
    requires
        draw_features@.len() == draws@.len(),
    ensures
        is_feature_table(
            table@,
            batch_entries(opaque_batches@ + blended_batches@, draws@.len())
                + backpass_entries(draws@, transparent_backpass_draw_indices@, opts),
            draw_features@,
        ),
{
    let n = draws.len();
    let mut table: Vec<(DrawPipelineKey, UntoonShaderFeatures)> = Vec::new();
    let ghost mut entries: Seq<(DrawPipelineKey, usize)> = Seq::empty();
    proof {
        assert forall|k: DrawPipelineKey| #[trigger] lookup_features(table@, k) == if has_key(entries, k) {
            Some(features_of_key(entries, draw_features@, k))
        } else {
            None
        } by {}
    }
    include_batches(&mut table, opaque_batches, draw_features, Ghost(entries));
    proof {
        entries = entries + batch_entries(opaque_batches@, n as nat);
    }
    include_batches(&mut table, blended_batches, draw_features, Ghost(entries));
    proof {
        lemma_batch_entries_concat(opaque_batches@, blended_batches@, n as nat);
        assert(entries + batch_entries(blended_batches@, n as nat) =~= batch_entries(
            opaque_batches@ + blended_batches@,
            n as nat,
        ));
        entries = batch_entries(opaque_batches@ + blended_batches@, n as nat);
    }
    let ghost front = entries;
    let ghost bpred = |d: usize| (d as nat) < draws@.len();
    let ghost bmap = |d: usize|
        (pipeline_key_spec(backpass_pipeline_spec(draws@[d as int].liltoon_backpass_enabled), draws@[d as int], opts), d);
    let mut j: usize = 0;
    while j < transparent_backpass_draw_indices.len()
        invariant
            j <= transparent_backpass_draw_indices@.len(),
            n == draws@.len() == draw_features@.len(),
            bpred == (|d: usize| (d as nat) < draws@.len()),
            bmap == (|d: usize|
                (pipeline_key_spec(backpass_pipeline_spec(draws@[d as int].liltoon_backpass_enabled), draws@[d as int], opts), d)),
            entries == front + transparent_backpass_draw_indices@.take(j as int).filter(bpred).map_values(bmap),
            is_feature_table(table@, entries, draw_features@),
        decreases transparent_backpass_draw_indices.len() - j,
    {
        let d = transparent_backpass_draw_indices[j];
        proof {
            reveal(Seq::filter);
            assert(transparent_backpass_draw_indices@.take(j + 1).drop_last() =~= transparent_backpass_draw_indices@.take(j as int));
            assert(transparent_backpass_draw_indices@.take(j + 1).last() == d);
        }
        if d < n {
            let kind = transparent_backpass_pipeline_for_draw(draws[d].liltoon_backpass_enabled);
            let key = draw_pipeline_key(kind, &draws[d], opts);
            include_entry(&mut table, key, d, draw_features, Ghost(entries));
            proof {
                let old_part = transparent_backpass_draw_indices@.take(j as int).filter(bpred).map_values(bmap);
                assert(transparent_backpass_draw_indices@.take(j + 1).filter(bpred) =~= transparent_backpass_draw_indices@.take(j as int).filter(bpred).push(d));
                assert(transparent_backpass_draw_indices@.take(j + 1).filter(bpred).map_values(bmap) =~= old_part.push(bmap(d)));
                assert(front + old_part.push(bmap(d)) =~= (front + old_part).push(bmap(d)));
                entries = entries.push((key, d));
            }
        } else {
            proof {
                assert(transparent_backpass_draw_indices@.take(j + 1).filter(bpred) =~= transparent_backpass_draw_indices@.take(j as int).filter(bpred));
            }
        }
        j = j + 1;
    }
    assert(transparent_backpass_draw_indices@.take(transparent_backpass_draw_indices@.len() as int) =~= transparent_backpass_draw_indices@);
    table
}

/// The features of a pipeline in the table, none when it has no entry.
pub fn pipeline_features_for(table: &Vec<(DrawPipelineKey, UntoonShaderFeatures)>, key: DrawPipelineKey) -> (f: UntoonShaderFeatures)
    requires
        keys_distinct(table@),
    ensures
        f == match lookup_features(table@, key) {
            Some(v) => v,
            None => no_features(),
        },
{
    let mut i: usize = 0;
    while i < table.len()
        invariant
            i <= table@.len(),
            keys_distinct(table@),
            forall|q: int| 0 <= q < i ==> (#[trigger] table@[q]).0 != key,
        decreases table.len() - i,
    {
        if table[i].0 == key {
            proof {
                lemma_lookup_found(table@, i as int);
            }
            return table[i].1;
        }
        i = i + 1;
    }
    proof {
        lemma_lookup_absent(table@, key);
    }
    UntoonShaderFeatures::none()
}

} // verus!
