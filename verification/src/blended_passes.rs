use vstd::prelude::*;
use crate::draw_batches::{DrawBatch, DrawPipelineKey};

verus! {

/// The first draw of the blended batches that reads the screen grab, as (batch, position).
pub open spec fn is_first_refraction_draw(batches: Seq<DrawBatch>, uses_grab: Seq<bool>, b: int, p: int) -> bool {
    &&& 0 <= b < batches.len()
    &&& 0 <= p < batches[b].draw_indices@.len()
    &&& uses_grab[batches[b].draw_indices@[p] as int]
    &&& forall|c: int, q: int|
        0 <= c < batches.len() && 0 <= q < batches[c].draw_indices@.len() && (c < b || (c == b && q < p))
            ==> !uses_grab[#[trigger] batches[c].draw_indices@[q] as int]
}

pub open spec fn batch_indices_in_range(batches: Seq<DrawBatch>, n: nat) -> bool {
    forall|c: int, q: int|
        0 <= c < batches.len() && 0 <= q < batches[c].draw_indices@.len() ==> (#[trigger] batches[c].draw_indices@[q] as int) < n
}

/// Where the blended batches are split around the screen grab: the first draw that reads it.
pub fn first_screen_refraction_blended_draw(blended_batches: &Vec<DrawBatch>, draw_uses_grab: &Vec<bool>) -> (r: Option<(usize, usize)>)
    requires
        batch_indices_in_range(blended_batches@, draw_uses_grab@.len()),
    ensures
        match r {
            Some((b, p)) => is_first_refraction_draw(blended_batches@, draw_uses_grab@, b as int, p as int),
            None => forall|c: int, q: int|
                0 <= c < blended_batches@.len() && 0 <= q < blended_batches@[c].draw_indices@.len() ==> !draw_uses_grab@[
                #[trigger] blended_batches@[c].draw_indices@[q] as int],
        },
{
    let mut b: usize = 0;
    while b < blended_batches.len()
        invariant
            b <= blended_batches@.len(),
            batch_indices_in_range(blended_batches@, draw_uses_grab@.len()),
            forall|c: int, q: int|
                0 <= c < b && 0 <= q < blended_batches@[c].draw_indices@.len() ==> !draw_uses_grab@[
                #[trigger] blended_batches@[c].draw_indices@[q] as int],
        decreases blended_batches.len() - b,
    {
        let batch = &blended_batches[b];
        let mut p: usize = 0;
        while p < batch.draw_indices.len()
            invariant
                b < blended_batches@.len(),
                *batch == blended_batches@[b as int],
                p <= batch.draw_indices@.len(),
                batch_indices_in_range(blended_batches@, draw_uses_grab@.len()),
                forall|c: int, q: int|
                    0 <= c < b && 0 <= q < blended_batches@[c].draw_indices@.len() ==> !draw_uses_grab@[
                    #[trigger] blended_batches@[c].draw_indices@[q] as int],
                forall|q: int| 0 <= q < p ==> !draw_uses_grab@[#[trigger] batch.draw_indices@[q] as int],
            decreases batch.draw_indices.len() - p,
        {
            let d = batch.draw_indices[p];
            assert((d as int) < draw_uses_grab@.len()) by {
                assert(blended_batches@[b as int].draw_indices@[p as int] == d);
            }
            if draw_uses_grab[d] {
                return Some((b, p));
            }
            p = p + 1;
        }
        b = b + 1;
    }
    None
}

/// The draws of batch `i` issued before the split at (`sb`, `sp`).
pub open spec fn until_part(batches: Seq<DrawBatch>, i: int, sb: int, sp: int) -> Seq<usize> {
    let all = batches[i].draw_indices@;
    if i < sb {
        all
    } else if i == sb {
        all.take(if sp < all.len() { sp } else { all.len() as int })
    } else {
        Seq::empty()
    }
}

/// The draws of batch `i` issued from the split at (`sb`, `sp`) on.
pub open spec fn from_part(batches: Seq<DrawBatch>, i: int, sb: int, sp: int) -> Seq<usize> {
    let all = batches[i].draw_indices@;
    if i < sb {
        Seq::empty()
    } else if i == sb {
        all.skip(if sp < all.len() { sp } else { all.len() as int })
    } else {
        all
    }
}

/// One render-pass segment: set the pipeline, then issue the draws.
pub struct BlendedSegment {
    pub pipeline: DrawPipelineKey,
    pub draw_indices: Vec<usize>,
}

pub open spec fn segment_view(s: BlendedSegment) -> (DrawPipelineKey, Seq<usize>) {
    (s.pipeline, s.draw_indices@)
}

/// The segments before the split: batches up to the split batch, that one cut before the
/// split position (every batch in full without a split).
pub open spec fn until_segments(batches: Seq<DrawBatch>, split: Option<(usize, usize)>) -> Seq<(DrawPipelineKey, Seq<usize>)> {
    match split {
        None => Seq::new(batches.len(), |i: int| (batches[i].pipeline, batches[i].draw_indices@)),
        Some((sb, sp)) => {
            let n: int = if (sb as int) < batches.len() { sb + 1 } else { batches.len() as int };
            Seq::new(n as nat, |i: int| (batches[i].pipeline, until_part(batches, i, sb as int, sp as int)))
        },
    }
}

/// The segments from the split on: the split batch from the split position, then the later
/// batches (every batch in full without a split).
pub open spec fn from_segments(batches: Seq<DrawBatch>, split: Option<(usize, usize)>) -> Seq<(DrawPipelineKey, Seq<usize>)> {
    match split {
        None => Seq::new(batches.len(), |i: int| (batches[i].pipeline, batches[i].draw_indices@)),
        Some((sb, sp)) => {
            let start: int = if (sb as int) < batches.len() { sb as int } else { batches.len() as int };
            Seq::new((batches.len() - start) as nat, |k: int| (batches[start + k].pipeline, from_part(batches, start + k, sb as int, sp as int)))
        },
    }
}

fn cut_batch(batch: &DrawBatch, from: usize, to: usize) -> (s: BlendedSegment)
    requires
        from <= to <= batch.draw_indices@.len(),
    ensures
        s.pipeline == batch.pipeline,
        s.draw_indices@ == batch.draw_indices@.subrange(from as int, to as int),
{
    let mut out: Vec<usize> = Vec::new();
    let mut k: usize = from;
    while k < to
        invariant
            from <= k <= to <= batch.draw_indices@.len(),
            out@ == batch.draw_indices@.subrange(from as int, k as int),
        decreases to - k,
    {
        out.push(batch.draw_indices[k]);
        assert(batch.draw_indices@.subrange(from as int, k + 1) =~= batch.draw_indices@.subrange(from as int, k as int).push(
            batch.draw_indices@[k as int],
        ));
        k = k + 1;
    }
    BlendedSegment { pipeline: batch.pipeline, draw_indices: out }
}

/// The blended segments drawn before the screen is grabbed.
pub fn blended_segments_until(blended_batches: &Vec<DrawBatch>, end: Option<(usize, usize)>) -> (segments: Vec<BlendedSegment>)
    ensures
        segments@.map_values(|s: BlendedSegment| segment_view(s)) == until_segments(blended_batches@, end),
{
    let ghost target = until_segments(blended_batches@, end);
    let n = blended_batches.len();
    let count: usize = match end {
        None => n,
        Some((eb, _)) => if eb < n { eb + 1 } else { n },
    };
    let mut out: Vec<BlendedSegment> = Vec::new();
    let mut i: usize = 0;
    while i < count
        invariant
            i <= count <= n == blended_batches@.len(),
            target == until_segments(blended_batches@, end),
            target.len() == count,
            out@.map_values(|s: BlendedSegment| segment_view(s)) == target.take(i as int),
        decreases count - i,
    {
        let batch = &blended_batches[i];
        let len = batch.draw_indices.len();
        let take: usize = match end {
            Some((eb, ep)) => if i == eb {
                if ep < len { ep } else { len }
            } else {
                len
            },
            None => len,
        };
        let seg = cut_batch(batch, 0, take);
        proof {
            assert(batch.draw_indices@.subrange(0, take as int) =~= batch.draw_indices@.take(take as int));
            assert(batch.draw_indices@.take(len as int) =~= batch.draw_indices@);
        }
        let ghost before = out@.map_values(|s: BlendedSegment| segment_view(s));
        out.push(seg);
        assert(out@.map_values(|s: BlendedSegment| segment_view(s)) =~= before.push(target[i as int]));
        assert(target.take(i + 1) =~= target.take(i as int).push(target[i as int]));
        i = i + 1;
    }
    assert(target.take(count as int) =~= target);
    out
}

/// The blended segments drawn after the screen is grabbed.
pub fn blended_segments_from(blended_batches: &Vec<DrawBatch>, start: Option<(usize, usize)>) -> (segments: Vec<BlendedSegment>)
    ensures
        segments@.map_values(|s: BlendedSegment| segment_view(s)) == from_segments(blended_batches@, start),
{
    let ghost target = from_segments(blended_batches@, start);
    let n = blended_batches.len();
    let first: usize = match start {
        None => 0,
        Some((sb, _)) => if sb < n { sb } else { n },
    };
    let mut out: Vec<BlendedSegment> = Vec::new();
    let mut i: usize = first;
    while i < n
        invariant
            first <= i <= n == blended_batches@.len(),
            target == from_segments(blended_batches@, start),
            target.len() == n - first,
            out@.map_values(|s: BlendedSegment| segment_view(s)) == target.take(i - first),
        decreases n - i,
    {
        let batch = &blended_batches[i];
        let len = batch.draw_indices.len();
        let skip: usize = match start {
            Some((sb, sp)) => if i == sb {
                if sp < len { sp } else { len }
            } else {
                0
            },
            None => 0,
        };
        let seg = cut_batch(batch, skip, len);
        proof {
            assert(batch.draw_indices@.subrange(skip as int, len as int) =~= batch.draw_indices@.skip(skip as int));
            assert(batch.draw_indices@.skip(0) =~= batch.draw_indices@);
        }
        let ghost before = out@.map_values(|s: BlendedSegment| segment_view(s));
        out.push(seg);
        assert(out@.map_values(|s: BlendedSegment| segment_view(s)) =~= before.push(target[i - first]));
        assert(target.take(i - first + 1) =~= target.take(i - first).push(target[i - first]));
        i = i + 1;
    }
    assert(target.take(n - first) =~= target);
    out
}

/// The draws of the segments, in order.
pub open spec fn segment_draws(segments: Seq<(DrawPipelineKey, Seq<usize>)>) -> Seq<usize>
    decreases segments.len(),
{
    if segments.len() == 0 {
        Seq::empty()
    } else {
        segment_draws(segments.drop_last()) + segments.last().1
    }
}

proof fn lemma_segment_draws_concat(a: Seq<(DrawPipelineKey, Seq<usize>)>, b: Seq<(DrawPipelineKey, Seq<usize>)>)
    ensures
        segment_draws(a + b) == segment_draws(a) + segment_draws(b),
    decreases b.len(),
{
    if b.len() == 0 {
        assert(a + b =~= a);
        assert(segment_draws(a) + segment_draws(b) =~= segment_draws(a));
    } else {
        assert((a + b).drop_last() =~= a + b.drop_last());
        lemma_segment_draws_concat(a, b.drop_last());
        assert(segment_draws(a) + segment_draws(b.drop_last()) + b.last().1 =~= segment_draws(a) + (segment_draws(
            b.drop_last(),
        ) + b.last().1));
    }
}

proof fn lemma_single_segment(key: DrawPipelineKey, draws: Seq<usize>)
    ensures
        segment_draws(seq![(key, draws)]) == draws,
{
    let one = seq![(key, draws)];
    assert(one.drop_last() =~= Seq::<(DrawPipelineKey, Seq<usize>)>::empty());
    assert(segment_draws(one.drop_last()) == Seq::<usize>::empty());
    assert(Seq::<usize>::empty() + draws =~= draws);
}

/// Law: splitting the blended batches at any point draws every blended draw exactly once and
/// in order: the draws before the split followed by the draws from it are the draws of the
/// unsplit batches.
pub proof fn lemma_split_draws_every_blended_draw_once(batches: Seq<DrawBatch>, split: (usize, usize))
    ensures
        segment_draws(until_segments(batches, Some(split))) + segment_draws(from_segments(batches, Some(split)))
            == segment_draws(until_segments(batches, None)),
{
    let (sb, sp) = split;
    let n = batches.len() as int;
    let all = until_segments(batches, None);
    let until = until_segments(batches, Some(split));
    let from = from_segments(batches, Some(split));
    if (sb as int) >= n {
        assert(until =~= all);
        assert(from =~= Seq::<(DrawPipelineKey, Seq<usize>)>::empty());
        assert(segment_draws(until) + segment_draws(from) =~= segment_draws(all));
    } else {
        let b = sb as int;
        let full = batches[b].draw_indices@;
        let cut: int = if (sp as int) < full.len() { sp as int } else { full.len() as int };
        let front = all.take(b);
        let back = all.skip(b + 1);
        assert(all =~= front + seq![(batches[b].pipeline, full)] + back);
        assert(until =~= front + seq![(batches[b].pipeline, full.take(cut))]);
        assert(from =~= seq![(batches[b].pipeline, full.skip(cut))] + back);
        lemma_segment_draws_concat(front + seq![(batches[b].pipeline, full)], back);
        lemma_segment_draws_concat(front, seq![(batches[b].pipeline, full)]);
        lemma_segment_draws_concat(front, seq![(batches[b].pipeline, full.take(cut))]);
        lemma_segment_draws_concat(seq![(batches[b].pipeline, full.skip(cut))], back);
        lemma_single_segment(batches[b].pipeline, full);
        lemma_single_segment(batches[b].pipeline, full.take(cut));
        lemma_single_segment(batches[b].pipeline, full.skip(cut));
        assert(full.take(cut) + full.skip(cut) =~= full);
        assert(segment_draws(front) + full.take(cut) + (full.skip(cut) + segment_draws(back)) =~= segment_draws(front)
            + full + segment_draws(back));
    }
}

} // verus!
