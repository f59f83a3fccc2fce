use vstd::prelude::*;

verus! {

/// The render pipeline a draw is issued with.
#[derive(Clone, Copy, Debug, PartialEq, Eq, PartialOrd, Ord, Structural)]
pub enum DrawPipelineKind {
    OpaqueLit,
    OpaqueUnlit,
    OpaqueToon,
    BlendLit,
    BlendUnlit,
    BlendToon,
    BlendToonZWrite,
    BlendToonAdd,
    BlendToonAddZWrite,
    TransparentToonBackpass,
    TransparentToonBackpassNoZWrite,
    LilToonGemPre,
}

pub open spec fn pipeline_kind_label(kind: DrawPipelineKind) -> Seq<char> {
    match kind {
        DrawPipelineKind::OpaqueLit => "mesh_opaque_lit"@,
        DrawPipelineKind::OpaqueUnlit => "mesh_opaque_unlit"@,
        DrawPipelineKind::OpaqueToon => "mesh_opaque_toon"@,
        DrawPipelineKind::BlendLit => "mesh_blend_lit"@,
        DrawPipelineKind::BlendUnlit => "mesh_blend_unlit"@,
        DrawPipelineKind::BlendToon => "mesh_blend_toon"@,
        DrawPipelineKind::BlendToonZWrite => "mesh_blend_toon_zwrite"@,
        DrawPipelineKind::BlendToonAdd => "mesh_blend_toon_add"@,
        DrawPipelineKind::BlendToonAddZWrite => "mesh_blend_toon_add_zwrite"@,
        DrawPipelineKind::TransparentToonBackpass => "mesh_transparent_toon_backpass"@,
        DrawPipelineKind::TransparentToonBackpassNoZWrite => "mesh_transparent_toon_backpass_no_zwrite"@,
        DrawPipelineKind::LilToonGemPre => "mesh_liltoon_gem_pre_toon"@,
    }
}

impl DrawPipelineKind {
    /// The debug label of the pipeline.
    pub fn label(self) -> (label: &'static str)
        ensures
            label@ == pipeline_kind_label(self),
    {
        match self {
            DrawPipelineKind::OpaqueLit => "mesh_opaque_lit",
            DrawPipelineKind::OpaqueUnlit => "mesh_opaque_unlit",
            DrawPipelineKind::OpaqueToon => "mesh_opaque_toon",
            DrawPipelineKind::BlendLit => "mesh_blend_lit",
            DrawPipelineKind::BlendUnlit => "mesh_blend_unlit",
            DrawPipelineKind::BlendToon => "mesh_blend_toon",
            DrawPipelineKind::BlendToonZWrite => "mesh_blend_toon_zwrite",
            DrawPipelineKind::BlendToonAdd => "mesh_blend_toon_add",
            DrawPipelineKind::BlendToonAddZWrite => "mesh_blend_toon_add_zwrite",
            DrawPipelineKind::TransparentToonBackpass => "mesh_transparent_toon_backpass",
            DrawPipelineKind::TransparentToonBackpassNoZWrite => "mesh_transparent_toon_backpass_no_zwrite",
            DrawPipelineKind::LilToonGemPre => "mesh_liltoon_gem_pre_toon",
        }
    }
}

/// Unity-style stencil settings of a material (compare and operations as Unity enum numbers).
#[derive(Clone, Copy, Debug, PartialEq, Eq, PartialOrd, Ord, Structural)]
pub struct MaterialStencilState {
    pub reference: u8,
    pub read_mask: u8,
    pub write_mask: u8,
    pub compare: u8,
    pub pass_op: u8,
    pub fail_op: u8,
    pub depth_fail_op: u8,
}

/// The stencil state of a material that does not author one: always pass, keep, full masks.
pub open spec fn default_stencil_state() -> MaterialStencilState {
    MaterialStencilState {
        reference: 0,
        read_mask: 255,
        write_mask: 255,
        compare: 8,
        pass_op: 0,
        fail_op: 0,
        depth_fail_op: 0,
    }
}

impl Default for MaterialStencilState {
    fn default() -> (state: Self)
        ensures
            state == default_stencil_state(),
    {
        MaterialStencilState {
            reference: 0,
            read_mask: 255,
            write_mask: 255,
            compare: 8,
            pass_op: 0,
            fail_op: 0,
            depth_fail_op: 0,
        }
    }
}

/// Identifies a render pipeline: its kind plus the material render state baked into it.
#[derive(Clone, Copy, Debug, PartialEq, Eq, PartialOrd, Ord, Structural)]
pub struct DrawPipelineKey {
    pub kind: DrawPipelineKind,
    pub stencil: MaterialStencilState,
    pub color_mask: u8,
}

impl DrawPipelineKey {
    /// A key from its parts; only the low four bits (RGBA) of the color mask are kept.
    pub fn from_parts(kind: DrawPipelineKind, stencil: MaterialStencilState, color_mask: u8) -> (key: Self)
        ensures
            key.kind == kind,
            key.stencil == stencil,
            key.color_mask == color_mask & 0x0f,
    {
        DrawPipelineKey { kind, stencil, color_mask: color_mask & 0x0f }
    }

    /// The debug label of the key's pipeline.
    pub fn label(self) -> (label: &'static str)
        ensures
            label@ == pipeline_kind_label(self.kind),
    {
        self.kind.label()
    }
}

/// The material render state (stencil and color mask) of an outline or fur pass.
#[derive(Clone, Copy, Debug, PartialEq, Eq, PartialOrd, Ord, Structural)]
pub struct MaterialRenderStateKey {
    pub stencil: MaterialStencilState,
    pub color_mask: u8,
}

impl MaterialRenderStateKey {
    pub fn new(stencil: MaterialStencilState, color_mask: u8) -> (key: Self)
        ensures
            key.stencil == stencil,
            key.color_mask == color_mask & 0x0f,
    {
        MaterialRenderStateKey { stencil, color_mask: color_mask & 0x0f }
    }
}

/// Consecutive draws that share one pipeline.
#[derive(Debug)]
pub struct DrawBatch {
    pub pipeline: DrawPipelineKey,
    pub draw_indices: Vec<usize>,
}

/// A batch as the pipeline key and the sequence of draw indices.
pub type BatchView = (DrawPipelineKey, Seq<usize>);

pub open spec fn batch_view(b: DrawBatch) -> BatchView {
    (b.pipeline, b.draw_indices@)
}

pub open spec fn batch_views(bs: Seq<DrawBatch>) -> Seq<BatchView> {
    bs.map_values(|b: DrawBatch| batch_view(b))
}

/// An empty batch for `pipeline`; the capacity is only an allocation hint.
pub fn draw_batch(pipeline: DrawPipelineKey, capacity: usize) -> (batch: DrawBatch)
    ensures
        batch.pipeline == pipeline,
        batch.draw_indices@.len() == 0,
{
    DrawBatch { pipeline, draw_indices: Vec::with_capacity(capacity) }
}

/// Appending one draw to a batch list: it joins the last batch when that batch has the
/// same pipeline, and starts a new batch otherwise.
pub open spec fn append_run(bs: Seq<BatchView>, pipeline: DrawPipelineKey, draw_index: usize) -> Seq<BatchView> {
    if bs.len() > 0 && bs.last().0 == pipeline {
        bs.update(bs.len() - 1, (pipeline, bs.last().1.push(draw_index)))
    } else {
        bs.push((pipeline, seq![draw_index]))
    }
}

/// The batches obtained by appending `entries` in order to an empty list.
pub open spec fn group_runs(entries: Seq<(DrawPipelineKey, usize)>) -> Seq<BatchView>
    decreases entries.len(),
{
    if entries.len() == 0 {
        Seq::empty()
    } else {
        append_run(group_runs(entries.drop_last()), entries.last().0, entries.last().1)
    }
}

/// The draw indices of all batches, in order.
pub open spec fn batch_indices(bs: Seq<BatchView>) -> Seq<usize>
    decreases bs.len(),
{
    if bs.len() == 0 {
        Seq::empty()
    } else {
        batch_indices(bs.drop_last()) + bs.last().1
    }
}

/// The pipeline of every drawn index, in order.
pub open spec fn batch_pipelines(bs: Seq<BatchView>) -> Seq<DrawPipelineKey>
    decreases bs.len(),
{
    if bs.len() == 0 {
        Seq::empty()
    } else {
        batch_pipelines(bs.drop_last()) + Seq::new(bs.last().1.len(), |k: int| bs.last().0)
    }
}

/// No batch is empty and no two neighbouring batches share a pipeline.
pub open spec fn batches_are_maximal_runs(bs: Seq<BatchView>) -> bool {
    &&& forall|k: int| 0 <= k < bs.len() ==> #[trigger] bs[k].1.len() > 0
    &&& forall|k: int| 0 < k < bs.len() ==> #[trigger] bs[k].0 != bs[k - 1].0
}

/// Adds `draw_index` to the batch list in drawing order (see `append_run`).
pub fn append_ordered_draw_batch(
    batches: &mut Vec<DrawBatch>,
    pipeline: DrawPipelineKey,
    draw_index: usize,
    batch_capacity: usize,
)
    ensures
        batch_views(final(batches)@) == append_run(batch_views(old(batches)@), pipeline, draw_index),
{
    let n = batches.len();
    if n > 0 && batches[n - 1].pipeline == pipeline {
        let mut last = batches.pop().unwrap();
        last.draw_indices.push(draw_index);
        batches.push(last);
        proof {
            assert(batch_views(batches@) =~= append_run(batch_views(old(batches)@), pipeline, draw_index));
        }
        return;
    }
    let mut batch = draw_batch(pipeline, batch_capacity);
    batch.draw_indices.push(draw_index);
    batches.push(batch);
    proof {
        assert(batch.draw_indices@ =~= seq![draw_index]);
        assert(batch_views(batches@) =~= append_run(batch_views(old(batches)@), pipeline, draw_index));
    }
}

pub open spec fn batch_is_nonempty(b: BatchView) -> bool {
    b.1.len() > 0
}

/// Drops the empty batches, keeping the order of the others.
pub fn finalize_draw_batches(batches: &mut Vec<DrawBatch>)
    ensures
        batch_views(final(batches)@) == batch_views(old(batches)@).filter(|b: BatchView| batch_is_nonempty(b)),
{
    let ghost orig = batch_views(batches@);
    let mut rest: Vec<DrawBatch> = Vec::new();
    std::mem::swap(&mut rest, batches);
    let ghost all = rest@;
    let ghost pred = |b: BatchView| batch_is_nonempty(b);
    while rest.len() > 0
        invariant
            orig == batch_views(all),
            pred == (|b: BatchView| batch_is_nonempty(b)),
            rest@.len() <= all.len(),
            rest@ == all.skip(all.len() - rest@.len()),
            batch_views(batches@) == batch_views(all.take(all.len() - rest@.len())).filter(pred),
        decreases rest@.len(),
    {
        let ghost k = all.len() - rest@.len();
        let ghost r0 = rest@;
        let b = rest.remove(0);
        proof {
            assert(r0[0] == all[k]);
            assert(b == all[k]);
            assert(all.take(k + 1) =~= all.take(k).push(b));
            assert(batch_views(all.take(k + 1)) =~= batch_views(all.take(k)).push(batch_view(b)));
            batch_views(all.take(k)).lemma_filter_push(batch_view(b), pred);
            assert(rest@ =~= all.skip(k + 1));
        }
        let ghost before = batches@;
        if b.draw_indices.len() > 0 {
            batches.push(b);
            proof {
                assert(batch_views(batches@) =~= batch_views(before).push(batch_view(b)));
            }
        }
        proof {
            assert(pred(batch_view(b)) == (b.draw_indices@.len() > 0));
            assert(batch_views(all.take(k + 1)).filter(pred) == batch_views(batches@));
        }
    }
    proof {
        assert(all.take(all.len() as int) =~= all);
    }
}

/// The ordering of the passes of one draw in the blended queue: back faces first,
/// then the gem pre-pass, then the forward pass.
pub open spec fn pass_order_spec(pipeline: DrawPipelineKind) -> u8 {
    match pipeline {
        DrawPipelineKind::TransparentToonBackpass | DrawPipelineKind::TransparentToonBackpassNoZWrite => 0,
        DrawPipelineKind::LilToonGemPre => 1,
        _ => 2,
    }
}

pub fn blended_pipeline_pass_order(pipeline: DrawPipelineKind) -> (order: u8)
    ensures
        order == pass_order_spec(pipeline),
{
    match pipeline {
        DrawPipelineKind::TransparentToonBackpass | DrawPipelineKind::TransparentToonBackpassNoZWrite => 0,
        DrawPipelineKind::LilToonGemPre => 1,
        _ => 2,
    }
}

/// Law: appending entries one by one groups them into maximal runs. The runs hold the
/// entries' draw indices in order, each index under its own pipeline, no run is empty
/// and neighbouring runs differ in pipeline.
pub proof fn lemma_group_runs(entries: Seq<(DrawPipelineKey, usize)>)
    ensures
        batch_indices(group_runs(entries)) == entries.map_values(|e: (DrawPipelineKey, usize)| e.1),
        batch_pipelines(group_runs(entries)) == entries.map_values(|e: (DrawPipelineKey, usize)| e.0),
        batches_are_maximal_runs(group_runs(entries)),
    decreases entries.len(),
{
    if entries.len() == 0 {
        assert(entries.map_values(|e: (DrawPipelineKey, usize)| e.1) =~= Seq::empty());
        assert(entries.map_values(|e: (DrawPipelineKey, usize)| e.0) =~= Seq::empty());
    } else {
        let prefix = entries.drop_last();
        lemma_group_runs(prefix);
        let bs = group_runs(prefix);
        let (p, d) = entries.last();
        let out = group_runs(entries);
        assert(entries.map_values(|e: (DrawPipelineKey, usize)| e.1) =~= prefix.map_values(
            |e: (DrawPipelineKey, usize)| e.1,
        ).push(d));
        assert(entries.map_values(|e: (DrawPipelineKey, usize)| e.0) =~= prefix.map_values(
            |e: (DrawPipelineKey, usize)| e.0,
        ).push(p));
        if bs.len() > 0 && bs.last().0 == p {
            assert(out.drop_last() =~= bs.drop_last());
            assert(batch_indices(bs) == batch_indices(bs.drop_last()) + bs.last().1);
            assert(batch_indices(out) =~= batch_indices(bs).push(d));
            assert(batch_pipelines(bs) == batch_pipelines(bs.drop_last()) + Seq::new(
                bs.last().1.len(),
                |k: int| bs.last().0,
            ));
            assert(batch_pipelines(out) =~= batch_pipelines(bs).push(p));
        } else {
            assert(out.drop_last() =~= bs);
            assert(batch_indices(out) =~= batch_indices(bs).push(d));
            assert(batch_pipelines(out) =~= batch_pipelines(bs).push(p));
        }
    }
}

} // verus!
