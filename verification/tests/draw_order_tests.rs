use un_avatar_render::draw_batches::{
    append_ordered_draw_batch, blended_pipeline_pass_order, finalize_draw_batches, draw_batch, DrawBatch,
    DrawPipelineKey, DrawPipelineKind, MaterialRenderStateKey, MaterialStencilState,
};
use un_avatar_render::draw_order::{
    blend_pipeline_for_draw, build_draw_order_for_scope, draw_has_outline, draw_order_code,
    draw_uses_late_non_blend_queue, effective_mesh_shading, material_render_queue_number,
    opaque_pipeline_for_shading, transparent_backpass_enabled, transparent_forward_zwrite_enabled, AlphaMode,
    DrawOrderOptions, MeshDrawOrderInfo, ShadingModel,
};
use un_avatar_render::shader_features::SceneMeshRuntimeRequirements;
use un_avatar_render::stable_sort::stable_sort_by_key;
use un_avatar_render::AvatarOutlinePolicy;

fn key(kind: DrawPipelineKind) -> DrawPipelineKey {
    DrawPipelineKey::from_parts(kind, MaterialStencilState::default(), 15)
}

#[test]
fn ordered_draw_batches_preserve_transparent_sequence() {
    let mut batches: Vec<DrawBatch> = Vec::new();
    append_ordered_draw_batch(&mut batches, key(DrawPipelineKind::BlendToon), 0, 1);
    append_ordered_draw_batch(&mut batches, key(DrawPipelineKind::BlendToonZWrite), 1, 1);
    append_ordered_draw_batch(&mut batches, key(DrawPipelineKind::BlendLit), 2, 1);
    append_ordered_draw_batch(&mut batches, key(DrawPipelineKind::BlendToon), 3, 1);
    append_ordered_draw_batch(&mut batches, key(DrawPipelineKind::BlendToon), 4, 1);

    assert_eq!(batches.len(), 4);
    assert_eq!(batches[0].pipeline, key(DrawPipelineKind::BlendToon));
    assert_eq!(batches[0].draw_indices, vec![0]);
    assert_eq!(batches[1].pipeline, key(DrawPipelineKind::BlendToonZWrite));
    assert_eq!(batches[1].draw_indices, vec![1]);
    assert_eq!(batches[2].pipeline, key(DrawPipelineKind::BlendLit));
    assert_eq!(batches[2].draw_indices, vec![2]);
    assert_eq!(batches[3].pipeline, key(DrawPipelineKind::BlendToon));
    assert_eq!(batches[3].draw_indices, vec![3, 4]);
}

#[test]
fn ordered_draw_batches_keep_gem_prepass_adjacent_to_forward() {
    let mut batches: Vec<DrawBatch> = Vec::new();
    append_ordered_draw_batch(&mut batches, key(DrawPipelineKind::BlendToon), 0, 4);
    append_ordered_draw_batch(&mut batches, key(DrawPipelineKind::LilToonGemPre), 1, 4);
    append_ordered_draw_batch(&mut batches, key(DrawPipelineKind::BlendToonAdd), 1, 4);
    append_ordered_draw_batch(&mut batches, key(DrawPipelineKind::BlendToon), 2, 4);

    assert_eq!(
        batches.iter().map(|batch| batch.pipeline).collect::<Vec<_>>(),
        vec![
            key(DrawPipelineKind::BlendToon),
            key(DrawPipelineKind::LilToonGemPre),
            key(DrawPipelineKind::BlendToonAdd),
            key(DrawPipelineKind::BlendToon)
        ]
    );
    assert_eq!(batches[1].draw_indices, vec![1]);
    assert_eq!(batches[2].draw_indices, vec![1]);
}

#[test]
fn transparent_backpass_orders_with_its_source_draw() {
    let draws = vec![
        (DrawPipelineKind::LilToonGemPre, 0usize),
        (DrawPipelineKind::BlendToonAdd, 0usize),
        (DrawPipelineKind::TransparentToonBackpass, 1usize),
        (DrawPipelineKind::BlendToonZWrite, 1usize),
    ];
    let mut keyed: Vec<(u128, (DrawPipelineKind, usize))> = draws
        .iter()
        .map(|&(pipeline, draw_index)| {
            (draw_order_code(3000, draw_index, blended_pipeline_pass_order(pipeline)), (pipeline, draw_index))
        })
        .collect();

    stable_sort_by_key(&mut keyed);
    let sorted: Vec<(DrawPipelineKind, usize)> = keyed.iter().map(|entry| entry.1).collect();

    assert_eq!(
        sorted,
        vec![
            (DrawPipelineKind::LilToonGemPre, 0),
            (DrawPipelineKind::BlendToonAdd, 0),
            (DrawPipelineKind::TransparentToonBackpass, 1),
            (DrawPipelineKind::BlendToonZWrite, 1),
        ]
    );
    assert!(
        blended_pipeline_pass_order(DrawPipelineKind::TransparentToonBackpass)
            < blended_pipeline_pass_order(DrawPipelineKind::BlendToonZWrite)
    );
}

#[test]
fn transparent_zwrite_toon_uses_backpass_before_forward_pass() {
    assert!(transparent_backpass_enabled(AlphaMode::Blend, true, ShadingModel::LilToonLike, true));
    assert!(transparent_backpass_enabled(AlphaMode::Blend, true, ShadingModel::MToonLike, true));
    assert!(!transparent_backpass_enabled(AlphaMode::Blend, true, ShadingModel::LitLambert, true));
    assert!(!transparent_backpass_enabled(AlphaMode::Opaque, true, ShadingModel::LilToonLike, true));
    assert!(!transparent_backpass_enabled(AlphaMode::Blend, false, ShadingModel::LilToonLike, true));
    assert!(!transparent_backpass_enabled(AlphaMode::Blend, true, ShadingModel::LilToonLike, false));
    assert!(transparent_forward_zwrite_enabled(AlphaMode::Blend, true, ShadingModel::LilToonLike));
    assert!(transparent_forward_zwrite_enabled(AlphaMode::Blend, true, ShadingModel::MToonLike));
    assert!(!transparent_forward_zwrite_enabled(AlphaMode::Blend, true, ShadingModel::LitLambert));
    assert!(!transparent_forward_zwrite_enabled(AlphaMode::Blend, false, ShadingModel::LilToonLike));
}

#[test]
fn high_render_queue_cutout_uses_late_non_blend_pass() {
    assert!(draw_uses_late_non_blend_queue(AlphaMode::Mask, 3001));
    assert!(draw_uses_late_non_blend_queue(AlphaMode::Opaque, 3000));
    assert!(!draw_uses_late_non_blend_queue(AlphaMode::Mask, 2450));
    assert!(!draw_uses_late_non_blend_queue(AlphaMode::Blend, 3000));
    assert_eq!(opaque_pipeline_for_shading(ShadingModel::LilToonLike), DrawPipelineKind::OpaqueToon);
}

#[test]
fn material_render_queue_prefers_liltoon_source_queue() {
    assert_eq!(material_render_queue_number(Some(2461), AlphaMode::Blend), 2461);
    assert_eq!(material_render_queue_number(None, AlphaMode::Opaque), 2000);
    assert_eq!(material_render_queue_number(None, AlphaMode::Mask), 2450);
    assert_eq!(material_render_queue_number(None, AlphaMode::Blend), 3000);
}

#[test]
fn blend_pipeline_for_draw_picks_additive_then_zwrite() {
    assert_eq!(blend_pipeline_for_draw(ShadingModel::LilToonLike, true, true), DrawPipelineKind::BlendToonAddZWrite);
    assert_eq!(blend_pipeline_for_draw(ShadingModel::MToonLike, true, false), DrawPipelineKind::BlendToonAdd);
    assert_eq!(blend_pipeline_for_draw(ShadingModel::MToonLike, false, true), DrawPipelineKind::BlendToonZWrite);
    assert_eq!(blend_pipeline_for_draw(ShadingModel::LitLambert, true, true), DrawPipelineKind::BlendLit);
    assert_eq!(blend_pipeline_for_draw(ShadingModel::Unlit, false, false), DrawPipelineKind::BlendUnlit);
}

#[test]
fn outline_follows_policy_and_alpha() {
    assert!(draw_has_outline(AvatarOutlinePolicy::Authored, AlphaMode::Opaque, ShadingModel::LilToonLike, true, false));
    assert!(!draw_has_outline(AvatarOutlinePolicy::Authored, AlphaMode::Blend, ShadingModel::LilToonLike, true, true));
    assert!(draw_has_outline(AvatarOutlinePolicy::Authored, AlphaMode::Mask, ShadingModel::MToonLike, false, true));
    assert!(!draw_has_outline(AvatarOutlinePolicy::Authored, AlphaMode::Mask, ShadingModel::LitLambert, true, true));
    assert!(!draw_has_outline(AvatarOutlinePolicy::Off, AlphaMode::Opaque, ShadingModel::MToonLike, true, true));
    assert!(!draw_has_outline(AvatarOutlinePolicy::Override, AlphaMode::Opaque, ShadingModel::MToonLike, true, true));
}

#[test]
fn debug_options_force_plain_shading_and_full_color_mask() {
    let opts = DrawOrderOptions { force_simple_basecolor: true, debug_primitive_colors: false, disable_mtoon_outlines: false };
    assert_eq!(effective_mesh_shading(ShadingModel::LilToonLike, opts), ShadingModel::LitLambert);
    let plain = DrawOrderOptions { force_simple_basecolor: false, debug_primitive_colors: false, disable_mtoon_outlines: false };
    assert_eq!(effective_mesh_shading(ShadingModel::LilToonLike, plain), ShadingModel::LilToonLike);
    let key = MaterialRenderStateKey::new(MaterialStencilState::default(), 0xf3);
    assert_eq!(key.color_mask, 3);
}

fn draw(alpha_mode: AlphaMode, shading: ShadingModel, render_queue: i32, active: bool) -> MeshDrawOrderInfo {
    MeshDrawOrderInfo {
        active,
        morph_target_count: 0,
        skin_palette_static_identity: true,
        skin_palette_index: 0,
        requirements: SceneMeshRuntimeRequirements::none(),
        has_outline: false,
        alpha_mode,
        shading,
        render_queue,
        transparent_with_z_write: false,
        liltoon_backpass_enabled: true,
        liltoon_gem_prepass: false,
        liltoon_additive_color_blend: false,
        stencil_state: MaterialStencilState::default(),
        color_mask: 15,
    }
}

#[test]
fn draw_order_sorts_blended_draws_by_queue_and_groups_runs() {
    let opts = DrawOrderOptions { force_simple_basecolor: false, debug_primitive_colors: false, disable_mtoon_outlines: false };
    let mut zwrite_toon = draw(AlphaMode::Blend, ShadingModel::LilToonLike, 3000, true);
    zwrite_toon.transparent_with_z_write = true;
    zwrite_toon.morph_target_count = 2;
    let mut outlined = draw(AlphaMode::Opaque, ShadingModel::MToonLike, 2000, true);
    outlined.has_outline = true;
    outlined.skin_palette_static_identity = false;
    outlined.skin_palette_index = 7;
    let draws = vec![
        draw(AlphaMode::Blend, ShadingModel::LitLambert, 3100, true),
        zwrite_toon,
        outlined,
        draw(AlphaMode::Opaque, ShadingModel::MToonLike, 2000, false),
        draw(AlphaMode::Mask, ShadingModel::LitLambert, 3000, true),
    ];

    let state = build_draw_order_for_scope(&draws, opts, false);

    assert_eq!(state.active_draw_indices, vec![0, 1, 2, 4]);
    assert_eq!(state.active_morph_draw_indices, vec![1]);
    assert_eq!(state.active_skin_palette_indices, vec![7]);
    assert_eq!(state.outline_draw_indices, vec![2]);
    assert_eq!(state.opaque_batches.len(), 1);
    assert_eq!(state.opaque_batches[0].pipeline.kind, DrawPipelineKind::OpaqueToon);
    assert_eq!(state.opaque_batches[0].draw_indices, vec![2]);
    let blended: Vec<(DrawPipelineKind, Vec<usize>)> =
        state.blended_batches.iter().map(|b| (b.pipeline.kind, b.draw_indices.clone())).collect();
    assert_eq!(
        blended,
        vec![
            (DrawPipelineKind::TransparentToonBackpass, vec![1]),
            (DrawPipelineKind::BlendToonZWrite, vec![1]),
            (DrawPipelineKind::OpaqueLit, vec![4]),
            (DrawPipelineKind::BlendLit, vec![0]),
        ]
    );

    let with_inactive = build_draw_order_for_scope(&draws, opts, true);
    assert_eq!(with_inactive.opaque_batches[0].draw_indices, vec![2, 3]);
    assert_eq!(with_inactive.active_draw_indices, vec![0, 1, 2, 4]);
}

#[test]
fn finalize_draw_batches_drops_empty_batches() {
    let mut batches = vec![draw_batch(key(DrawPipelineKind::OpaqueLit), 4), draw_batch(key(DrawPipelineKind::OpaqueToon), 1)];
    batches[1].draw_indices.push(3);
    finalize_draw_batches(&mut batches);
    assert_eq!(batches.len(), 1);
    assert_eq!(batches[0].draw_indices, vec![3]);
}

#[test]
fn stable_sort_keeps_equal_keys_in_input_order() {
    let mut items: Vec<(u128, char)> = vec![(2, 'a'), (1, 'b'), (2, 'c'), (1, 'd'), (0, 'e')];
    stable_sort_by_key(&mut items);
    assert_eq!(items, vec![(0, 'e'), (1, 'b'), (1, 'd'), (2, 'a'), (2, 'c')]);
}
