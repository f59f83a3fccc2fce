use un_avatar_render::shader_features::{
    full_liltoon_prewarm_features, mtoon_prewarm_features, MeshPipelineAlphaCoverage, MeshShaderVariantTier,
    SceneMeshRuntimeRequirements, UntoonFeaturePlan, UntoonShaderFeatures,
};
use un_avatar_render::shader_source::{
    baseline_fallback_mesh_shader_source, mesh_shader_source_for_features, mesh_shader_source_for_tier,
};

const SAMPLE_SHADER: &str = "@group(1) @binding(24) var shadow_border_mask_tex: texture_2d<f32>;\n\
@group(1) @binding(3) var base_tex: texture_2d<f32>;\n\
override UNTOON_FEATURE_FUR: f32 = 1.0;\n\
override UNTOON_FEATURE_GEM: f32 = 1.0;\n\
fn f() {\n\
let dissolve_mask_val = textureSample(dissolve_mask_tex, base_samp, dissolve_mask_uv).r;\n\
let x = textureSample(main2nd_blend_mask_tex, base_samp, uv).r + textureSample(main2nd_blend_mask_tex, base_samp, uv).r;\n\
}\n";

#[test]
fn baseline_fallback_strips_extended_bindings_and_samples() {
    let baseline = baseline_fallback_mesh_shader_source(SAMPLE_SHADER);
    assert!(!baseline.contains("shadow_border_mask_tex"));
    assert!(baseline.contains("@group(1) @binding(3) var base_tex"));
    assert!(baseline.contains("let dissolve_mask_val = 1.0;"));
    assert!(baseline.contains("let x = 1.0 + 1.0;"));
    assert_eq!(baseline_fallback_mesh_shader_source(""), "");
}

#[test]
fn high_capability_tier_keeps_the_shader() {
    assert_eq!(mesh_shader_source_for_tier(SAMPLE_SHADER, MeshShaderVariantTier::HighCapability), SAMPLE_SHADER);
    assert_eq!(
        mesh_shader_source_for_tier(SAMPLE_SHADER, MeshShaderVariantTier::BaselineFallback),
        baseline_fallback_mesh_shader_source(SAMPLE_SHADER)
    );
}

#[test]
fn feature_overrides_become_constants() {
    let mut features = UntoonShaderFeatures::none();
    features.fur = true;
    let shader = mesh_shader_source_for_features(SAMPLE_SHADER, MeshShaderVariantTier::HighCapability, features);
    assert!(shader.contains("const UNTOON_FEATURE_FUR: f32 = 1.0;"));
    assert!(shader.contains("const UNTOON_FEATURE_GEM: f32 = 0.0;"));
    assert!(!shader.contains("override "));
}

#[test]
fn shader_feature_values_list_every_flag_in_order() {
    let values = full_liltoon_prewarm_features().shader_feature_values();
    assert_eq!(values.len(), 26);
    assert_eq!(values[0].0, "UNTOON_FEATURE_PROFILE_EXTENSIONS");
    assert_eq!(values[25].0, "UNTOON_FEATURE_NORMAL_SECOND");
    let none = UntoonShaderFeatures::none().shader_feature_values();
    assert!(none.iter().all(|(_, enabled)| !enabled));
}

#[test]
fn merging_features_is_a_union() {
    let mut merged = UntoonShaderFeatures::none();
    merged.merge(mtoon_prewarm_features());
    assert_eq!(merged, mtoon_prewarm_features());
    merged.merge(full_liltoon_prewarm_features());
    assert_eq!(merged, full_liltoon_prewarm_features());
    let mut twice = mtoon_prewarm_features();
    twice.merge(mtoon_prewarm_features());
    assert_eq!(twice, mtoon_prewarm_features());
}

#[test]
fn runtime_requirements_merge_flags() {
    let mut req = SceneMeshRuntimeRequirements::none();
    let mut fur = SceneMeshRuntimeRequirements::none();
    fur.fur = true;
    fur.toon_shader_features.fur = true;
    req.merge(fur);
    assert!(req.fur);
    assert!(!req.screen_refraction);
    assert!(req.toon_shader_features.fur);
    assert_eq!(UntoonFeaturePlan::none().shader_features, UntoonShaderFeatures::none());
}

#[test]
fn variant_tiers_and_alpha_coverage() {
    assert!(MeshShaderVariantTier::HighCapability.is_high_capability());
    assert!(!MeshShaderVariantTier::HighCapability.is_baseline_fallback());
    assert!(MeshShaderVariantTier::BaselineFallback.is_baseline_fallback());
    assert_ne!(
        MeshShaderVariantTier::HighCapability.material_layout_label(),
        MeshShaderVariantTier::BaselineFallback.material_layout_label()
    );
    assert!(MeshPipelineAlphaCoverage::On.enabled());
    assert!(!MeshPipelineAlphaCoverage::Off.enabled());
}

#[test]
fn shader_feature_values_name_each_flag_once() {
    let values = UntoonShaderFeatures::none().shader_feature_values();
    assert_eq!(values.len(), 26);
    for (i, (name, _)) in values.iter().enumerate() {
        assert!(name.starts_with("UNTOON_FEATURE_"));
        for (other, _) in values.iter().skip(i + 1) {
            assert_ne!(name, other);
        }
    }
    // Switching on one flag changes exactly its own entry.
    let mut one = UntoonShaderFeatures::none();
    one.fur = true;
    let changed: Vec<_> = one
        .shader_feature_values()
        .iter()
        .zip(values.iter())
        .filter(|(a, b)| a != b)
        .map(|(a, _)| *a)
        .collect();
    assert_eq!(changed, vec![("UNTOON_FEATURE_FUR", true)]);
    assert_ne!(one.shader_feature_values(), values);
}
