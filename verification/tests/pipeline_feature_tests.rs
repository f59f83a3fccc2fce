use un_avatar_render::draw_batches::{DrawBatch, DrawPipelineKey, DrawPipelineKind, MaterialStencilState};
use un_avatar_render::draw_order::{
    build_draw_order, build_potential_draw_order, draw_render_order_key, AlphaMode, DrawOrderOptions,
    MeshDrawOrderInfo, ShadingModel,
};
use un_avatar_render::pipeline_features::{draw_pipeline_shader_features, pipeline_features_for};
use un_avatar_render::shader_features::{SceneMeshRuntimeRequirements, UntoonShaderFeatures};

fn draw(alpha_mode: AlphaMode, shading: ShadingModel, render_queue: i32, active: bool) -> MeshDrawOrderInfo {
    MeshDrawOrderInfo {
        active,
        morph_target_count: 0,
        skin_palette_static_identity: true,
        skin_palette_index: 0,
        requirements: SceneMeshRuntimeRequirements::none(),
        has_outline: false,
        alpha_mode,
        shading,
        render_queue,
        transparent_with_z_write: false,
        liltoon_backpass_enabled: true,
        liltoon_gem_prepass: false,
        liltoon_additive_color_blend: false,
        stencil_state: MaterialStencilState::default(),
        color_mask: 15,
    }
}

fn opts() -> DrawOrderOptions {
    DrawOrderOptions { force_simple_basecolor: false, debug_primitive_colors: false, disable_mtoon_outlines: false }
}

fn key(kind: DrawPipelineKind) -> DrawPipelineKey {
    DrawPipelineKey::from_parts(kind, MaterialStencilState::default(), 15)
}

fn features(rim: bool, matcap: bool, fur: bool) -> UntoonShaderFeatures {
    let mut f = UntoonShaderFeatures::none();
    f.rim = rim;
    f.matcap = matcap;
    f.fur = fur;
    f
}

#[test]
fn pipeline_features_union_the_draws_of_each_pipeline() {
    let draws = vec![
        draw(AlphaMode::Opaque, ShadingModel::MToonLike, 2000, true),
        draw(AlphaMode::Opaque, ShadingModel::MToonLike, 2000, true),
        draw(AlphaMode::Blend, ShadingModel::LilToonLike, 3000, true),
    ];
    let mut no_zwrite = draws[2];
    no_zwrite.liltoon_backpass_enabled = false;
    let draws = vec![draws[0], draws[1], no_zwrite];
    let per_draw = vec![features(true, false, false), features(false, true, false), features(false, false, true)];
    let opaque = vec![DrawBatch { pipeline: key(DrawPipelineKind::OpaqueToon), draw_indices: vec![0, 1, 7] }];
    let blended = vec![DrawBatch { pipeline: key(DrawPipelineKind::BlendToon), draw_indices: vec![2] }];
    let table = draw_pipeline_shader_features(&draws, &per_draw, &opaque, &blended, &vec![2, 9], opts());
    assert_eq!(table.len(), 3);
    assert_eq!(pipeline_features_for(&table, key(DrawPipelineKind::OpaqueToon)), features(true, true, false));
    assert_eq!(pipeline_features_for(&table, key(DrawPipelineKind::BlendToon)), features(false, false, true));
    assert_eq!(
        pipeline_features_for(&table, key(DrawPipelineKind::TransparentToonBackpassNoZWrite)),
        features(false, false, true)
    );
    assert_eq!(pipeline_features_for(&table, key(DrawPipelineKind::OpaqueLit)), UntoonShaderFeatures::none());
}

#[test]
fn draw_order_scopes_differ_only_in_inactive_draws() {
    let draws = vec![
        draw(AlphaMode::Opaque, ShadingModel::LitLambert, 2000, true),
        draw(AlphaMode::Opaque, ShadingModel::LitLambert, 2000, false),
    ];
    let active = build_draw_order(&draws, opts());
    let potential = build_potential_draw_order(&draws, opts());
    assert_eq!(active.opaque_batches.len(), 1);
    assert_eq!(active.opaque_batches[0].draw_indices, vec![0]);
    assert_eq!(potential.opaque_batches[0].draw_indices, vec![0, 1]);
    assert_eq!(draw_render_order_key(&draws, 1), (2000, 1));
}
