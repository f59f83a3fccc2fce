use vstd::prelude::*;

use crate::draw_batches::{
    append_ordered_draw_batch, append_run, batch_is_nonempty, batch_views, finalize_draw_batches, group_runs,
    pass_order_spec, BatchView, DrawBatch, DrawPipelineKey, DrawPipelineKind, MaterialRenderStateKey,
    MaterialStencilState,
};
use crate::draw_batches::blended_pipeline_pass_order;
use crate::residency::{sorted_unique_indices, strictly_increasing};
use crate::shader_features::{no_requirements, requirements_union, SceneMeshRuntimeRequirements};
use crate::stable_sort::{is_stable_sort_of, stable_sort_by_key};
use crate::AvatarOutlinePolicy;

verus! {

/// How a material's alpha is used.
#[derive(Clone, Copy, Debug, PartialEq, Eq, Structural)]
pub enum AlphaMode {
    Opaque,
    Mask,
    Blend,
}

/// The shading family of a material.
#[derive(Clone, Copy, Debug, PartialEq, Eq, Structural)]
pub enum ShadingModel {
    LitLambert,
    Unlit,
    MToonLike,
    LilToonLike,
}

impl ShadingModel {
    pub open spec fn toon_like(self) -> bool {
        self == ShadingModel::MToonLike || self == ShadingModel::LilToonLike
    }

    pub fn is_toon_like(self) -> (r: bool)
        ensures
            r == self.toon_like(),
    {
        match self {
            ShadingModel::MToonLike | ShadingModel::LilToonLike => true,
            _ => false,
        }
    }

    pub fn is_liltoon_like(self) -> (r: bool)
        ensures
            r == (self == ShadingModel::LilToonLike),
    {
        match self {
            ShadingModel::LilToonLike => true,
            _ => false,
        }
    }

    pub fn is_mtoon_like(self) -> (r: bool)
        ensures
            r == (self == ShadingModel::MToonLike),
    {
        match self {
            ShadingModel::MToonLike => true,
            _ => false,
        }
    }
}

/// The load options that change how draws are ordered.
#[derive(Clone, Copy, Debug, PartialEq, Eq, Structural)]
pub struct DrawOrderOptions {
    pub force_simple_basecolor: bool,
    pub debug_primitive_colors: bool,
    pub disable_mtoon_outlines: bool,
}

/// What ordering needs to know of one mesh draw.
#[derive(Clone, Copy, Debug, PartialEq, Eq, Structural)]
pub struct MeshDrawOrderInfo {
    /// Visible and its assets resident.
    pub active: bool,
    pub morph_target_count: usize,
    pub skin_palette_static_identity: bool,
    pub skin_palette_index: usize,
    pub requirements: SceneMeshRuntimeRequirements,
    /// The draw has an outline pass (see `draw_has_outline`).
    pub has_outline: bool,
    pub alpha_mode: AlphaMode,
    pub shading: ShadingModel,
    pub render_queue: i32,
    pub transparent_with_z_write: bool,
    /// lilToon's pre-pass depth write is on (or the material is not lilToon).
    pub liltoon_backpass_enabled: bool,
    pub liltoon_gem_prepass: bool,
    pub liltoon_additive_color_blend: bool,
    pub stencil_state: MaterialStencilState,
    pub color_mask: u8,
}

/// Debug overrides render with plain shading.
pub open spec fn effective_shading_spec(shading: ShadingModel, opts: DrawOrderOptions) -> ShadingModel {
    if opts.force_simple_basecolor {
        ShadingModel::LitLambert
    } else {
        shading
    }
}

pub fn effective_mesh_shading(shading: ShadingModel, opts: DrawOrderOptions) -> (r: ShadingModel)
    ensures
        r == effective_shading_spec(shading, opts),
{
    if opts.force_simple_basecolor {
        ShadingModel::LitLambert
    } else {
        shading
    }
}

pub open spec fn opaque_pipeline_spec(shading: ShadingModel) -> DrawPipelineKind {
    match shading {
        ShadingModel::LitLambert => DrawPipelineKind::OpaqueLit,
        ShadingModel::Unlit => DrawPipelineKind::OpaqueUnlit,
        _ => DrawPipelineKind::OpaqueToon,
    }
}

pub fn opaque_pipeline_for_shading(shading: ShadingModel) -> (kind: DrawPipelineKind)
    ensures
        kind == opaque_pipeline_spec(shading),
        (kind == DrawPipelineKind::OpaqueLit) == (shading == ShadingModel::LitLambert),
        (kind == DrawPipelineKind::OpaqueUnlit) == (shading == ShadingModel::Unlit),
        (kind == DrawPipelineKind::OpaqueToon) == shading.toon_like(),
{
    match shading {
        ShadingModel::LitLambert => DrawPipelineKind::OpaqueLit,
        ShadingModel::Unlit => DrawPipelineKind::OpaqueUnlit,
        ShadingModel::MToonLike | ShadingModel::LilToonLike => DrawPipelineKind::OpaqueToon,
    }
}

pub open spec fn blend_pipeline_spec(shading: ShadingModel) -> DrawPipelineKind {
    match shading {
        ShadingModel::LitLambert => DrawPipelineKind::BlendLit,
        ShadingModel::Unlit => DrawPipelineKind::BlendUnlit,
        _ => DrawPipelineKind::BlendToon,
    }
}

pub fn blend_pipeline_for_shading(shading: ShadingModel) -> (kind: DrawPipelineKind)
    ensures
        kind == blend_pipeline_spec(shading),
        (kind == DrawPipelineKind::BlendLit) == (shading == ShadingModel::LitLambert),
        (kind == DrawPipelineKind::BlendUnlit) == (shading == ShadingModel::Unlit),
        (kind == DrawPipelineKind::BlendToon) == shading.toon_like(),
{
    match shading {
        ShadingModel::LitLambert => DrawPipelineKind::BlendLit,
        ShadingModel::Unlit => DrawPipelineKind::BlendUnlit,
        ShadingModel::MToonLike | ShadingModel::LilToonLike => DrawPipelineKind::BlendToon,
    }
}

/// An opaque or blended draw's pipeline follows its shading: lit shading gets the lit
/// pipeline, unlit shading the unlit one, and both toon shadings the toon one; no two of
/// these shadings share a pipeline, and an opaque pipeline is never a blended one.
pub proof fn lemma_pipeline_matches_shading(shading: ShadingModel)
    ensures
        (opaque_pipeline_spec(shading) == DrawPipelineKind::OpaqueLit) == (shading == ShadingModel::LitLambert),
        (opaque_pipeline_spec(shading) == DrawPipelineKind::OpaqueUnlit) == (shading == ShadingModel::Unlit),
        (opaque_pipeline_spec(shading) == DrawPipelineKind::OpaqueToon) == shading.toon_like(),
        (blend_pipeline_spec(shading) == DrawPipelineKind::BlendLit) == (shading == ShadingModel::LitLambert),
        (blend_pipeline_spec(shading) == DrawPipelineKind::BlendUnlit) == (shading == ShadingModel::Unlit),
        (blend_pipeline_spec(shading) == DrawPipelineKind::BlendToon) == shading.toon_like(),
{
}

/// A blended draw with lilToon additive colour blending uses an additive pipeline exactly when
/// it is toon shaded, a depth-writing one exactly when depth is written, and otherwise the
/// plain blend pipeline of its shading.
pub proof fn lemma_blend_pipeline_for_draw(shading: ShadingModel, additive: bool, zwrite: bool)
    ensures
        (blend_pipeline_for_draw_spec(shading, additive, zwrite) == DrawPipelineKind::BlendToonAdd
            || blend_pipeline_for_draw_spec(shading, additive, zwrite) == DrawPipelineKind::BlendToonAddZWrite) == (
        shading.toon_like() && additive),
        shading.toon_like() ==> ((blend_pipeline_for_draw_spec(shading, additive, zwrite)
            == DrawPipelineKind::BlendToonAddZWrite || blend_pipeline_for_draw_spec(shading, additive, zwrite)
            == DrawPipelineKind::BlendToonZWrite) == zwrite),
        !shading.toon_like() ==> blend_pipeline_for_draw_spec(shading, additive, zwrite) == blend_pipeline_spec(shading),
        !(shading.toon_like() && (additive || zwrite)) ==> blend_pipeline_for_draw_spec(shading, additive, zwrite)
            == blend_pipeline_spec(shading),
{
}

/// The forward pipeline of a blended draw: additive lilToon blending, then depth-writing
/// toon blending, then the plain blend pipeline of the shading.
pub open spec fn blend_pipeline_for_draw_spec(shading: ShadingModel, additive: bool, zwrite: bool) -> DrawPipelineKind {
    if shading.toon_like() && additive {
        if zwrite {
            DrawPipelineKind::BlendToonAddZWrite
        } else {
            DrawPipelineKind::BlendToonAdd
        }
    } else if zwrite && shading.toon_like() {
        DrawPipelineKind::BlendToonZWrite
    } else {
        blend_pipeline_spec(shading)
    }
}

pub fn blend_pipeline_for_draw(shading: ShadingModel, additive_color_blend: bool, zwrite: bool) -> (kind: DrawPipelineKind)
    ensures
        kind == blend_pipeline_for_draw_spec(shading, additive_color_blend, zwrite),
{
    if shading.is_toon_like() && additive_color_blend {
        if zwrite {
            DrawPipelineKind::BlendToonAddZWrite
        } else {
            DrawPipelineKind::BlendToonAdd
        }
    } else if zwrite && shading.is_toon_like() {
        DrawPipelineKind::BlendToonZWrite
    } else {
        blend_pipeline_for_shading(shading)
    }
}

pub open spec fn backpass_pipeline_spec(zwrite: bool) -> DrawPipelineKind {
    if zwrite {
        DrawPipelineKind::TransparentToonBackpass
    } else {
        DrawPipelineKind::TransparentToonBackpassNoZWrite
    }
}

/// The back-face pipeline of a transparent draw, by whether its pre-pass writes depth.
pub fn transparent_backpass_pipeline_for_draw(liltoon_backpass_enabled: bool) -> (kind: DrawPipelineKind)
    ensures
        kind == backpass_pipeline_spec(liltoon_backpass_enabled),
{
    if liltoon_backpass_enabled {
        DrawPipelineKind::TransparentToonBackpass
    } else {
        DrawPipelineKind::TransparentToonBackpassNoZWrite
    }
}

pub open spec fn backpass_enabled_spec(
    alpha_mode: AlphaMode,
    transparent_with_z_write: bool,
    shading: ShadingModel,
    liltoon_backpass_enabled: bool,
) -> bool {
    alpha_mode == AlphaMode::Blend && transparent_with_z_write && liltoon_backpass_enabled && shading.toon_like()
}

/// A blended toon draw that writes depth draws its back faces first.
pub fn transparent_backpass_enabled(
    alpha_mode: AlphaMode,
    transparent_with_z_write: bool,
    shading: ShadingModel,
    liltoon_backpass_enabled: bool,
) -> (r: bool)
    ensures
        r == backpass_enabled_spec(alpha_mode, transparent_with_z_write, shading, liltoon_backpass_enabled),
{
    alpha_mode == AlphaMode::Blend && transparent_with_z_write && liltoon_backpass_enabled && shading.is_toon_like()
}

pub open spec fn forward_zwrite_spec(alpha_mode: AlphaMode, transparent_with_z_write: bool, shading: ShadingModel) -> bool {
    alpha_mode == AlphaMode::Blend && transparent_with_z_write && shading.toon_like()
}

pub fn transparent_forward_zwrite_enabled(alpha_mode: AlphaMode, transparent_with_z_write: bool, shading: ShadingModel) -> (r: bool)
    ensures
        r == forward_zwrite_spec(alpha_mode, transparent_with_z_write, shading),
{
    alpha_mode == AlphaMode::Blend && transparent_with_z_write && shading.is_toon_like()
}

pub open spec fn late_non_blend_spec(alpha_mode: AlphaMode, render_queue: i32) -> bool {
    alpha_mode != AlphaMode::Blend && render_queue >= 3000
}

/// A non-blended draw in the transparent queue range is drawn with the blended draws.
pub fn draw_uses_late_non_blend_queue(alpha_mode: AlphaMode, render_queue: i32) -> (r: bool)
    ensures
        r == late_non_blend_spec(alpha_mode, render_queue),
{
    alpha_mode != AlphaMode::Blend && render_queue >= 3000
}

/// The render queue of a material: lilToon's authored queue, else Unity's default for the alpha mode.
pub fn material_render_queue_number(liltoon_render_queue: Option<i32>, alpha_mode: AlphaMode) -> (queue: i32)
    ensures
        queue == match liltoon_render_queue {
            Some(q) => q,
            None => match alpha_mode {
                AlphaMode::Opaque => 2000i32,
                AlphaMode::Mask => 2450i32,
                AlphaMode::Blend => 3000i32,
            },
        },
{
    if let Some(render_queue) = liltoon_render_queue {
        return render_queue;
    }
    match alpha_mode {
        AlphaMode::Opaque => 2000,
        AlphaMode::Mask => 2450,
        AlphaMode::Blend => 3000,
    }
}

/// Whether a draw gets an outline pass under the avatar outline policy. The lilToon and
/// MToon facts say whether the material authors a visible outline of that kind.
pub fn draw_has_outline(
    policy: AvatarOutlinePolicy,
    alpha_mode: AlphaMode,
    shading: ShadingModel,
    liltoon_outline_enabled: bool,
    mtoon_outline_effective: bool,
) -> (r: bool)
    ensures
        r == (policy == AvatarOutlinePolicy::Authored && alpha_mode != AlphaMode::Blend && (if shading
            == ShadingModel::LilToonLike {
            liltoon_outline_enabled
        } else {
            shading == ShadingModel::MToonLike && mtoon_outline_effective
        })),
{
    match policy {
        AvatarOutlinePolicy::Override => false,
        AvatarOutlinePolicy::Authored => {
            if alpha_mode == AlphaMode::Blend {
                return false;
            }
            if shading.is_liltoon_like() {
                return liltoon_outline_enabled;
            }
            shading.is_mtoon_like() && mtoon_outline_effective
        },
        AvatarOutlinePolicy::Off => false,
    }
}

/// The color mask a pipeline uses: debug overrides write all channels.
pub open spec fn key_color_mask(color_mask: u8, opts: DrawOrderOptions) -> u8 {
    if opts.force_simple_basecolor || opts.debug_primitive_colors {
        15
    } else {
        color_mask
    }
}

pub open spec fn pipeline_key_spec(kind: DrawPipelineKind, d: MeshDrawOrderInfo, opts: DrawOrderOptions) -> DrawPipelineKey {
    DrawPipelineKey { kind, stencil: d.stencil_state, color_mask: key_color_mask(d.color_mask, opts) }
}

/// The pipeline key of a draw under the load options.
pub fn draw_pipeline_key(kind: DrawPipelineKind, draw: &MeshDrawOrderInfo, opts: DrawOrderOptions) -> (key: DrawPipelineKey)
    ensures
        key == pipeline_key_spec(kind, *draw, opts),
{
    DrawPipelineKey {
        kind,
        stencil: draw.stencil_state,
        color_mask: if opts.force_simple_basecolor || opts.debug_primitive_colors {
            15
        } else {
            draw.color_mask
        },
    }
}

/// The render state of a draw's outline or fur pass under the load options.
pub fn pass_render_state_key(stencil: MaterialStencilState, color_mask: u8, opts: DrawOrderOptions) -> (key: MaterialRenderStateKey)
    ensures
        key.stencil == stencil,
        key.color_mask == key_color_mask(color_mask, opts) & 0x0f,
{
    MaterialRenderStateKey::new(
        stencil,
        if opts.force_simple_basecolor || opts.debug_primitive_colors {
            15
        } else {
            color_mask
        },
    )
}

/// The sort code of a draw entry: render queue, then draw index, then pass order.
pub open spec fn order_code(render_queue: i32, draw_index: usize, pass: u8) -> int {
    (render_queue + 0x8000_0000) * 0x1_0000_0000_0000_0000_00 + draw_index * 0x100 + pass
}

/// Law: comparing sort codes compares (render queue, draw index, pass order) lexicographically.
pub proof fn lemma_order_code_is_lexicographic(q1: i32, d1: usize, p1: u8, q2: i32, d2: usize, p2: u8)
    ensures
        0 <= order_code(q1, d1, p1) <= u128::MAX,
        (order_code(q1, d1, p1) < order_code(q2, d2, p2)) == (q1 < q2 || (q1 == q2 && (d1 < d2 || (d1 == d2 && p1 < p2)))),
{
    assert(d1 < 0x1_0000_0000_0000_0000);
    assert(d2 < 0x1_0000_0000_0000_0000);
}

pub fn draw_order_code(render_queue: i32, draw_index: usize, pass: u8) -> (code: u128)
    ensures
        code == order_code(render_queue, draw_index, pass),
{
    proof {
        lemma_order_code_is_lexicographic(render_queue, draw_index, pass, render_queue, draw_index, pass);
    }
    let biased = (render_queue as i64 + 0x8000_0000i64) as u128;
    biased * 0x1_0000_0000_0000_0000_00u128 + (draw_index as u128) * 0x100u128 + pass as u128
}

pub type OrderEntry = (u128, (DrawPipelineKey, usize));

pub open spec fn keyed_entry(kind: DrawPipelineKind, d: MeshDrawOrderInfo, i: int, opts: DrawOrderOptions) -> OrderEntry {
    (
        order_code(d.render_queue, i as usize, pass_order_spec(kind)) as u128,
        (pipeline_key_spec(kind, d, opts), i as usize),
    )
}

pub open spec fn considered(d: MeshDrawOrderInfo, include_inactive: bool) -> bool {
    include_inactive || d.active
}

/// The draw goes with the blended draws although it is not blended.
pub open spec fn non_blend_drawn_late(d: MeshDrawOrderInfo) -> bool {
    d.alpha_mode != AlphaMode::Blend && (d.requirements.screen_refraction || late_non_blend_spec(
        d.alpha_mode,
        d.render_queue,
    ))
}

/// The opaque-queue entries of draw `i`.
pub open spec fn opaque_entries_of(d: MeshDrawOrderInfo, i: int, opts: DrawOrderOptions, include_inactive: bool) -> Seq<OrderEntry> {
    if considered(d, include_inactive) && d.alpha_mode != AlphaMode::Blend && !non_blend_drawn_late(d) {
        seq![keyed_entry(opaque_pipeline_spec(effective_shading_spec(d.shading, opts)), d, i, opts)]
    } else {
        Seq::empty()
    }
}

/// An active opaque draw in the opaque range is queued once, with the pipeline of its
/// shading: unlit for unlit materials, lit for lit ones (and for every material when the debug
/// override forces simple base colour), toon for the toon shadings; it keeps its own stencil
/// state and is queued under its own index.
pub proof fn lemma_opaque_draw_pipeline(d: MeshDrawOrderInfo, i: int, opts: DrawOrderOptions)
    requires
        d.active,
        d.alpha_mode != AlphaMode::Blend,
        !d.requirements.screen_refraction,
        d.render_queue < 3000,
        0 <= i <= usize::MAX,
    ensures
        opaque_entries_of(d, i, opts, false).len() == 1,
        ({
            let key = opaque_entries_of(d, i, opts, false)[0].1.0;
            &&& opaque_entries_of(d, i, opts, false)[0].1.1 == i
            &&& key.stencil == d.stencil_state
            &&& (key.kind == DrawPipelineKind::OpaqueUnlit) == (!opts.force_simple_basecolor && d.shading == ShadingModel::Unlit)
            &&& (key.kind == DrawPipelineKind::OpaqueLit) == (opts.force_simple_basecolor || d.shading == ShadingModel::LitLambert)
            &&& (key.kind == DrawPipelineKind::OpaqueToon) == (!opts.force_simple_basecolor && d.shading.toon_like())
        }),
{
}

/// The blended-queue entries of draw `i`, in the order they are pushed.
pub open spec fn blended_entries_of(d: MeshDrawOrderInfo, i: int, opts: DrawOrderOptions, include_inactive: bool) -> Seq<OrderEntry> {
    let shading = effective_shading_spec(d.shading, opts);
    let gem = if d.liltoon_gem_prepass {
        seq![keyed_entry(DrawPipelineKind::LilToonGemPre, d, i, opts)]
    } else {
        Seq::empty()
    };
    if !considered(d, include_inactive) {
        Seq::empty()
    } else if d.alpha_mode != AlphaMode::Blend {
        if non_blend_drawn_late(d) {
            seq![keyed_entry(opaque_pipeline_spec(shading), d, i, opts)]
        } else {
            Seq::empty()
        }
    } else if backpass_enabled_spec(d.alpha_mode, d.transparent_with_z_write, shading, d.liltoon_backpass_enabled) {
        seq![keyed_entry(backpass_pipeline_spec(d.liltoon_backpass_enabled), d, i, opts)] + gem + seq![
            keyed_entry(blend_pipeline_for_draw_spec(shading, d.liltoon_additive_color_blend, true), d, i, opts),
        ]
    } else {
        gem + seq![
            keyed_entry(
                blend_pipeline_for_draw_spec(
                    shading,
                    d.liltoon_additive_color_blend,
                    forward_zwrite_spec(d.alpha_mode, d.transparent_with_z_write, shading),
                ),
                d,
                i,
                opts,
            ),
        ]
    }
}

/// An active blended draw is queued as: its back faces first when it is toon shaded and
/// writes depth with lilToon's pre-pass on, then its gem pre-pass when it has one, then its
/// forward pass, whose pipeline writes depth exactly when a toon draw asks for it (see
/// `lemma_blend_pipeline_for_draw`); every entry is the draw's own.
pub proof fn lemma_blended_draw_passes(d: MeshDrawOrderInfo, i: int, opts: DrawOrderOptions)
    requires
        d.active,
        d.alpha_mode == AlphaMode::Blend,
        0 <= i <= usize::MAX,
    ensures
        ({
            let e = blended_entries_of(d, i, opts, false);
            let sh = effective_shading_spec(d.shading, opts);
            let back = d.transparent_with_z_write && d.liltoon_backpass_enabled && sh.toon_like();
            let nb: int = if back { 1 } else { 0 };
            let ng: int = if d.liltoon_gem_prepass { 1 } else { 0 };
            &&& e.len() == 1 + nb + ng
            &&& back ==> e[0].1.0.kind == DrawPipelineKind::TransparentToonBackpass
            &&& d.liltoon_gem_prepass ==> e[nb].1.0.kind == DrawPipelineKind::LilToonGemPre
            &&& e[e.len() - 1].1.0.kind == blend_pipeline_for_draw_spec(
                sh,
                d.liltoon_additive_color_blend,
                d.transparent_with_z_write && sh.toon_like(),
            )
            &&& forall|k: int| 0 <= k < e.len() ==> (#[trigger] e[k]).1.1 == i
        }),
{
    let e = blended_entries_of(d, i, opts, false);
    assert forall|k: int| 0 <= k < e.len() implies (#[trigger] e[k]).1.1 == i by {}
}

pub open spec fn all_opaque_entries(ds: Seq<MeshDrawOrderInfo>, opts: DrawOrderOptions, include_inactive: bool) -> Seq<OrderEntry>
    decreases ds.len(),
{
    if ds.len() == 0 {
        Seq::empty()
    } else {
        all_opaque_entries(ds.drop_last(), opts, include_inactive) + opaque_entries_of(
            ds.last(),
            ds.len() - 1,
            opts,
            include_inactive,
        )
    }
}

pub open spec fn all_blended_entries(ds: Seq<MeshDrawOrderInfo>, opts: DrawOrderOptions, include_inactive: bool) -> Seq<OrderEntry>
    decreases ds.len(),
{
    if ds.len() == 0 {
        Seq::empty()
    } else {
        all_blended_entries(ds.drop_last(), opts, include_inactive) + blended_entries_of(
            ds.last(),
            ds.len() - 1,
            opts,
            include_inactive,
        )
    }
}

/// The indices of the draws that satisfy `pred`, ascending.
pub open spec fn draw_indices_where(ds: Seq<MeshDrawOrderInfo>, pred: spec_fn(MeshDrawOrderInfo) -> bool) -> Seq<usize>
    decreases ds.len(),
{
    if ds.len() == 0 {
        Seq::empty()
    } else if pred(ds.last()) {
        draw_indices_where(ds.drop_last(), pred).push((ds.len() - 1) as usize)
    } else {
        draw_indices_where(ds.drop_last(), pred)
    }
}

/// The draw indices satisfying `pred`, keyed by their skin palette for grouping.
pub open spec fn skin_keyed_where(ds: Seq<MeshDrawOrderInfo>, pred: spec_fn(MeshDrawOrderInfo) -> bool) -> Seq<(u128, usize)>
    decreases ds.len(),
{
    if ds.len() == 0 {
        Seq::empty()
    } else if pred(ds.last()) {
        skin_keyed_where(ds.drop_last(), pred).push((ds.last().skin_palette_index as u128, (ds.len() - 1) as usize))
    } else {
        skin_keyed_where(ds.drop_last(), pred)
    }
}

/// The skin palettes of the draws that satisfy `pred`, in draw order.
pub open spec fn skin_values_where(ds: Seq<MeshDrawOrderInfo>, pred: spec_fn(MeshDrawOrderInfo) -> bool) -> Seq<usize>
    decreases ds.len(),
{
    if ds.len() == 0 {
        Seq::empty()
    } else if pred(ds.last()) {
        skin_values_where(ds.drop_last(), pred).push(ds.last().skin_palette_index)
    } else {
        skin_values_where(ds.drop_last(), pred)
    }
}

/// The combined runtime requirements of the draws that satisfy `pred`.
pub open spec fn requirements_where(ds: Seq<MeshDrawOrderInfo>, pred: spec_fn(MeshDrawOrderInfo) -> bool) -> SceneMeshRuntimeRequirements
    decreases ds.len(),
{
    if ds.len() == 0 {
        no_requirements()
    } else if pred(ds.last()) {
        requirements_union(requirements_where(ds.drop_last(), pred), ds.last().requirements)
    } else {
        requirements_where(ds.drop_last(), pred)
    }
}

pub open spec fn outline_pred(opts: DrawOrderOptions, include_inactive: bool) -> spec_fn(MeshDrawOrderInfo) -> bool {
    |d: MeshDrawOrderInfo|
        considered(d, include_inactive) && !opts.disable_mtoon_outlines && d.has_outline && d.alpha_mode
            != AlphaMode::Blend
}

pub open spec fn fur_pred(include_inactive: bool) -> spec_fn(MeshDrawOrderInfo) -> bool {
    |d: MeshDrawOrderInfo| considered(d, include_inactive) && d.requirements.fur
}

pub open spec fn considered_pred(include_inactive: bool) -> spec_fn(MeshDrawOrderInfo) -> bool {
    |d: MeshDrawOrderInfo| considered(d, include_inactive)
}

pub open spec fn active_pred() -> spec_fn(MeshDrawOrderInfo) -> bool {
    |d: MeshDrawOrderInfo| d.active
}

pub open spec fn active_morph_pred() -> spec_fn(MeshDrawOrderInfo) -> bool {
    |d: MeshDrawOrderInfo| d.active && d.morph_target_count > 0
}

pub open spec fn skinned_active_pred() -> spec_fn(MeshDrawOrderInfo) -> bool {
    |d: MeshDrawOrderInfo| d.active && !d.skin_palette_static_identity
}

pub open spec fn strip_keys<T>(s: Seq<(u128, T)>) -> Seq<T> {
    s.map_values(|e: (u128, T)| e.1)
}

/// The draw lists of one frame.
#[derive(Debug)]
pub struct SceneMeshDrawState {
    pub outline_draw_indices: Vec<usize>,
    pub fur_draw_indices: Vec<usize>,
    pub opaque_batches: Vec<DrawBatch>,
    pub transparent_backpass_draw_indices: Vec<usize>,
    pub blended_batches: Vec<DrawBatch>,
    pub active_draw_indices: Vec<usize>,
    pub active_morph_draw_indices: Vec<usize>,
    pub needs_screen_refraction: bool,
    pub active_skin_palette_indices: Vec<usize>,
    pub runtime_requirements: SceneMeshRuntimeRequirements,
}

/// `out` is the grouping into batches of the stable sort of `entries` by their codes.
pub open spec fn batches_of_sorted(out: Seq<BatchView>, entries: Seq<OrderEntry>) -> bool {
    exists|sorted: Seq<OrderEntry>|
        is_stable_sort_of(sorted, entries) && out == group_runs(strip_keys(sorted)).filter(
            |b: BatchView| batch_is_nonempty(b),
        )
}

/// `out` holds the draw indices of `keyed` stably sorted by skin palette.
pub open spec fn grouped_by_skin(out: Seq<usize>, keyed: Seq<(u128, usize)>) -> bool {
    exists|sorted: Seq<(u128, usize)>| is_stable_sort_of(sorted, keyed) && out == strip_keys(sorted)
}

/// The full specification of the draw lists built from `ds`.
pub open spec fn draw_state_spec(
    s: SceneMeshDrawState,
    ds: Seq<MeshDrawOrderInfo>,
    opts: DrawOrderOptions,
    include_inactive: bool,
) -> bool {
    &&& s.active_draw_indices@ == draw_indices_where(ds, active_pred())
    &&& s.active_morph_draw_indices@ == draw_indices_where(ds, active_morph_pred())
    &&& strictly_increasing(s.active_skin_palette_indices@)
    &&& s.active_skin_palette_indices@.to_set() == skin_values_where(ds, skinned_active_pred()).to_set()
    &&& s.runtime_requirements == requirements_where(ds, considered_pred(include_inactive))
    &&& s.needs_screen_refraction == requirements_where(ds, considered_pred(include_inactive)).screen_refraction
    &&& grouped_by_skin(s.outline_draw_indices@, skin_keyed_where(ds, outline_pred(opts, include_inactive)))
    &&& grouped_by_skin(s.fur_draw_indices@, skin_keyed_where(ds, fur_pred(include_inactive)))
    &&& s.transparent_backpass_draw_indices@.len() == 0
    &&& batches_of_sorted(batch_views(s.opaque_batches@), all_opaque_entries(ds, opts, include_inactive))
    &&& batches_of_sorted(batch_views(s.blended_batches@), all_blended_entries(ds, opts, include_inactive))
}

/// Pushes the opaque-queue and blended-queue entries of draw `i`.
fn push_draw_entries(
    d: &MeshDrawOrderInfo,
    i: usize,
    opts: DrawOrderOptions,
    include_inactive: bool,
    opaque: &mut Vec<OrderEntry>,
    blended: &mut Vec<OrderEntry>,
)
    ensures
        final(opaque)@ == old(opaque)@ + opaque_entries_of(*d, i as int, opts, include_inactive),
        final(blended)@ == old(blended)@ + blended_entries_of(*d, i as int, opts, include_inactive),
{
    let ghost o0 = opaque@;
    let ghost b0 = blended@;
    if !(include_inactive || d.active) {
        assert(opaque@ =~= o0 + opaque_entries_of(*d, i as int, opts, include_inactive));
        assert(blended@ =~= b0 + blended_entries_of(*d, i as int, opts, include_inactive));
        return;
    }
    let shading = effective_mesh_shading(d.shading, opts);
    match d.alpha_mode {
        AlphaMode::Opaque | AlphaMode::Mask => {
            let kind = opaque_pipeline_for_shading(shading);
            let entry = (
                draw_order_code(d.render_queue, i, blended_pipeline_pass_order(kind)),
                (draw_pipeline_key(kind, d, opts), i),
            );
            if d.requirements.screen_refraction || draw_uses_late_non_blend_queue(d.alpha_mode, d.render_queue) {
                blended.push(entry);
            } else {
                opaque.push(entry);
            }
        },
        AlphaMode::Blend => {
            if transparent_backpass_enabled(
                d.alpha_mode,
                d.transparent_with_z_write,
                shading,
                d.liltoon_backpass_enabled,
            ) {
                let kind = transparent_backpass_pipeline_for_draw(d.liltoon_backpass_enabled);
                blended.push(
                    (
                        draw_order_code(d.render_queue, i, blended_pipeline_pass_order(kind)),
                        (draw_pipeline_key(kind, d, opts), i),
                    ),
                );
                if d.liltoon_gem_prepass {
                    let gem = DrawPipelineKind::LilToonGemPre;
                    blended.push(
                        (
                            draw_order_code(d.render_queue, i, blended_pipeline_pass_order(gem)),
                            (draw_pipeline_key(gem, d, opts), i),
                        ),
                    );
                }
                let forward = blend_pipeline_for_draw(shading, d.liltoon_additive_color_blend, true);
                blended.push(
                    (
                        draw_order_code(d.render_queue, i, blended_pipeline_pass_order(forward)),
                        (draw_pipeline_key(forward, d, opts), i),
                    ),
                );
            } else {
                if d.liltoon_gem_prepass {
                    let gem = DrawPipelineKind::LilToonGemPre;
                    blended.push(
                        (
                            draw_order_code(d.render_queue, i, blended_pipeline_pass_order(gem)),
                            (draw_pipeline_key(gem, d, opts), i),
                        ),
                    );
                }
                let forward = blend_pipeline_for_draw(
                    shading,
                    d.liltoon_additive_color_blend,
                    transparent_forward_zwrite_enabled(d.alpha_mode, d.transparent_with_z_write, shading),
                );
                blended.push(
                    (
                        draw_order_code(d.render_queue, i, blended_pipeline_pass_order(forward)),
                        (draw_pipeline_key(forward, d, opts), i),
                    ),
                );
            }
        },
    }
    assert(opaque@ =~= o0 + opaque_entries_of(*d, i as int, opts, include_inactive));
    assert(blended@ =~= b0 + blended_entries_of(*d, i as int, opts, include_inactive));
}

/// Groups sorted entries into batches of consecutive equal pipelines.
fn batches_from_sorted(sorted: &Vec<OrderEntry>, batch_capacity: usize) -> (batches: Vec<DrawBatch>)
    ensures
        batch_views(batches@) == group_runs(strip_keys(sorted@)),
{
    let mut batches: Vec<DrawBatch> = Vec::new();
    let mut k: usize = 0;
    while k < sorted.len()
        invariant
            k <= sorted.len(),
            batch_views(batches@) == group_runs(strip_keys(sorted@.take(k as int))),
        decreases sorted.len() - k,
    {
        let entry = sorted[k];
        append_ordered_draw_batch(&mut batches, entry.1.0, entry.1.1, batch_capacity);
        proof {
            let pre = strip_keys(sorted@.take(k as int));
            let post = strip_keys(sorted@.take(k + 1));
            assert(post =~= pre.push(entry.1));
            assert(post.drop_last() =~= pre);
        }
        k = k + 1;
    }
    assert(sorted@.take(sorted@.len() as int) =~= sorted@);
    batches
}

/// The draw indices of skin-keyed entries.
fn strip_skin_keys(keyed: &Vec<(u128, usize)>) -> (out: Vec<usize>)
    ensures
        out@ == strip_keys(keyed@),
{
    let mut out: Vec<usize> = Vec::new();
    let mut k: usize = 0;
    while k < keyed.len()
        invariant
            k <= keyed.len(),
            out@ == strip_keys(keyed@.take(k as int)),
        decreases keyed.len() - k,
    {
        out.push(keyed[k].1);
        assert(strip_keys(keyed@.take(k + 1)) =~= strip_keys(keyed@.take(k as int)).push(keyed@[k as int].1));
        k = k + 1;
    }
    assert(keyed@.take(keyed@.len() as int) =~= keyed@);
    out
}

/// Builds the frame's draw lists: which draws are active, what the draws require, the
/// outline and fur passes grouped by skin palette, and the opaque and blended batches in
/// render-queue order. With `include_inactive`, inactive draws are planned as well.
pub fn build_draw_order_for_scope(
    draws: &Vec<MeshDrawOrderInfo>,
    opts: DrawOrderOptions,
    include_inactive: bool,
) -> (state: SceneMeshDrawState)
    ensures
        draw_state_spec(state, draws@, opts, include_inactive),
{
    let n = draws.len();
    let mut active_draw_indices: Vec<usize> = Vec::new();
    let mut active_morph_draw_indices: Vec<usize> = Vec::new();
    let mut skin_palettes: Vec<usize> = Vec::new();
    let mut runtime_requirements = SceneMeshRuntimeRequirements::none();
    let mut outline_keyed: Vec<(u128, usize)> = Vec::new();
    let mut fur_keyed: Vec<(u128, usize)> = Vec::new();
    let mut opaque: Vec<OrderEntry> = Vec::new();
    let mut blended: Vec<OrderEntry> = Vec::new();
    let mut i: usize = 0;
    while i < n
        invariant
            i <= n,
            n == draws@.len(),
            active_draw_indices@ == draw_indices_where(draws@.take(i as int), active_pred()),
            active_morph_draw_indices@ == draw_indices_where(draws@.take(i as int), active_morph_pred()),
            skin_palettes@ == skin_values_where(draws@.take(i as int), skinned_active_pred()),
            runtime_requirements == requirements_where(draws@.take(i as int), considered_pred(include_inactive)),
            outline_keyed@ == skin_keyed_where(draws@.take(i as int), outline_pred(opts, include_inactive)),
            fur_keyed@ == skin_keyed_where(draws@.take(i as int), fur_pred(include_inactive)),
            opaque@ == all_opaque_entries(draws@.take(i as int), opts, include_inactive),
            blended@ == all_blended_entries(draws@.take(i as int), opts, include_inactive),
        decreases n - i,
    {
        let d = draws[i];
        proof {
            let next = draws@.take(i + 1);
            assert(next.drop_last() =~= draws@.take(i as int));
            assert(next.last() == d);
        }
        if d.active {
            active_draw_indices.push(i);
            if d.morph_target_count > 0 {
                active_morph_draw_indices.push(i);
            }
            if !d.skin_palette_static_identity {
                skin_palettes.push(d.skin_palette_index);
            }
        }
        if include_inactive || d.active {
            runtime_requirements.merge(d.requirements);
            if !opts.disable_mtoon_outlines && d.has_outline && d.alpha_mode != AlphaMode::Blend {
                outline_keyed.push((d.skin_palette_index as u128, i));
            }
            if d.requirements.fur {
                fur_keyed.push((d.skin_palette_index as u128, i));
            }
        }
        push_draw_entries(&d, i, opts, include_inactive, &mut opaque, &mut blended);
        i = i + 1;
    }
    proof {
        assert(draws@.take(n as int) =~= draws@);
    }
    let batch_capacity = if n / 10 > 1 {
        n / 10
    } else {
        1
    };

    let ghost blended_entries = blended@;
    stable_sort_by_key(&mut blended);
    let mut blended_batches = batches_from_sorted(&blended, batch_capacity);
    finalize_draw_batches(&mut blended_batches);
    assert(is_stable_sort_of(blended@, blended_entries) && batch_views(blended_batches@) == group_runs(
        strip_keys(blended@),
    ).filter(|b: BatchView| batch_is_nonempty(b)));

    let ghost opaque_entries = opaque@;
    stable_sort_by_key(&mut opaque);
    let mut opaque_batches = batches_from_sorted(&opaque, batch_capacity);
    finalize_draw_batches(&mut opaque_batches);
    assert(is_stable_sort_of(opaque@, opaque_entries) && batch_views(opaque_batches@) == group_runs(
        strip_keys(opaque@),
    ).filter(|b: BatchView| batch_is_nonempty(b)));

    let ghost outline_entries = outline_keyed@;
    stable_sort_by_key(&mut outline_keyed);
    let outline_draw_indices = strip_skin_keys(&outline_keyed);
    assert(is_stable_sort_of(outline_keyed@, outline_entries) && outline_draw_indices@ == strip_keys(outline_keyed@));

    let ghost fur_entries = fur_keyed@;
    stable_sort_by_key(&mut fur_keyed);
    let fur_draw_indices = strip_skin_keys(&fur_keyed);
    assert(is_stable_sort_of(fur_keyed@, fur_entries) && fur_draw_indices@ == strip_keys(fur_keyed@));

    let active_skin_palette_indices = sorted_unique_indices(skin_palettes);
    let needs_screen_refraction = runtime_requirements.screen_refraction;
    SceneMeshDrawState {
        outline_draw_indices,
        fur_draw_indices,
        opaque_batches,
        transparent_backpass_draw_indices: Vec::new(),
        blended_batches,
        active_draw_indices,
        active_morph_draw_indices,
        needs_screen_refraction,
        active_skin_palette_indices,
        runtime_requirements,
    }
}

/// The frame's draw lists over the active draws.
pub fn build_draw_order(draws: &Vec<MeshDrawOrderInfo>, opts: DrawOrderOptions) -> (state: SceneMeshDrawState)
    ensures
        draw_state_spec(state, draws@, opts, false),
{
    build_draw_order_for_scope(draws, opts, false)
}

/// The draw lists every draw would get were it active (used to prewarm pipelines).
pub fn build_potential_draw_order(draws: &Vec<MeshDrawOrderInfo>, opts: DrawOrderOptions) -> (state: SceneMeshDrawState)
    ensures
        draw_state_spec(state, draws@, opts, true),
{
    build_draw_order_for_scope(draws, opts, true)
}

/// The key draws are ordered by within a queue: render queue, then draw index.
pub fn draw_render_order_key(draws: &Vec<MeshDrawOrderInfo>, draw_index: usize) -> (key: (i32, usize))
    requires
        draw_index < draws@.len(),
    ensures
        key == (draws@[draw_index as int].render_queue, draw_index),
{
    (draws[draw_index].render_queue, draw_index)
}

} // verus!
