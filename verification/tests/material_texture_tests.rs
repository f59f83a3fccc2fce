use un_avatar_render::material_flags::{
    material_alpha_kind, material_gpu_flags, MaterialAlphaMode, MaterialCullMode, MaterialFlagInputs,
};
use un_avatar_render::material_slots::{
    material_cube_slots, material_texture_slot_groups, LiltoonTextureSlots, MaterialTextureSlots, MtoonTextureSlots,
};
use un_avatar_render::material_textures::{
    initial_active_texture_indices_for_scene, material_cube_texture_indices, material_resident_texture_indices,
    material_texture_indices, texture_residency_for_active_draws, DrawTextureUse, MaterialTextureSlotGroup,
    PrimitiveTextureUse,
};
use un_avatar_render::residency::{residency_load_indices, AssetGroupOwnership, DrawResidencyUse, SceneAssetResidencySets, ScopedAssetSelection};
use un_avatar_render::residency_counts::{asset_residency_counts, DrawAssetFootprint};

fn group(enabled: bool, slots: Vec<Option<usize>>) -> MaterialTextureSlotGroup {
    MaterialTextureSlotGroup { enabled, texture_indices: slots }
}

#[test]
fn material_texture_indices_collects_unique_pbr_slots() {
    let mat = MaterialTextureSlots {
        base_color: Some(3),
        normal: Some(4),
        occlusion: Some(3),
        emissive: Some(7),
        ..Default::default()
    };
    assert_eq!(material_texture_indices(&material_texture_slot_groups(&mat)), vec![3, 4, 7]);
}

#[test]
fn material_texture_indices_keep_reflection_cube_separate() {
    let mat = MaterialTextureSlots {
        base_color: Some(3),
        mtoon: Some(MtoonTextureSlots { reflection_cube: Some(9), ..Default::default() }),
        ..Default::default()
    };
    let groups = material_texture_slot_groups(&mat);
    let cubes = material_cube_slots(&mat);
    assert_eq!(material_texture_indices(&groups), vec![3]);
    assert_eq!(material_cube_texture_indices(&cubes), vec![9]);
    assert_eq!(material_resident_texture_indices(&groups, &cubes), vec![3, 9]);
}

#[test]
fn material_texture_indices_skip_disabled_liltoon_feature_slots() {
    let mut liltoon = LiltoonTextureSlots::default();
    liltoon.second_main = Some(10);
    liltoon.matcap = Some(11);
    liltoon.emission = Some(12);
    liltoon.fur_mask = Some(13);
    liltoon.reflection_cube = Some(14);
    liltoon.parallax = Some(15);
    liltoon.main_color_adjust_mask = Some(16);
    let mut mat = MaterialTextureSlots { base_color: Some(3), liltoon: Some(liltoon), ..Default::default() };

    assert_eq!(material_texture_indices(&material_texture_slot_groups(&mat)), vec![3]);

    let liltoon = mat.liltoon.as_mut().unwrap();
    liltoon.second_main_enabled = true;
    liltoon.matcap_enabled = true;
    liltoon.emission_enabled = true;
    liltoon.fur_enabled = true;
    liltoon.reflection_enabled = true;
    liltoon.reflection_cube_used = true;
    liltoon.parallax_enabled = true;
    liltoon.main_color_adjust_enabled = true;

    assert_eq!(material_texture_indices(&material_texture_slot_groups(&mat)), vec![3, 10, 11, 12, 13, 15, 16]);
    assert_eq!(material_cube_texture_indices(&material_cube_slots(&mat)), vec![14]);
}

#[test]
fn material_slot_groups_follow_shading_and_features() {
    let plain = MaterialTextureSlots { base_color: Some(1), ..Default::default() };
    let groups = material_texture_slot_groups(&plain);
    assert_eq!(groups.len(), 1);
    assert!(groups[0].enabled);
    assert_eq!(groups[0].texture_indices, vec![Some(1), None, None, None]);
    assert_eq!(material_cube_slots(&plain), vec![None, None]);

    let mtoon = MaterialTextureSlots {
        mtoon: Some(MtoonTextureSlots { shade_multiply: Some(5), uv_animation_mask: Some(6), ..Default::default() }),
        ..Default::default()
    };
    let groups = material_texture_slot_groups(&mtoon);
    assert_eq!(groups.len(), 2);
    assert_eq!(groups[1].texture_indices, vec![Some(5), None, None, None, None, Some(6)]);
    assert_eq!(material_texture_indices(&groups), vec![5, 6]);

    let mut lil = LiltoonTextureSlots::default();
    lil.emission_gradation = Some(20);
    lil.emission_gradation_enabled = true;
    lil.reflection_cube = Some(21);
    let mat = MaterialTextureSlots { liltoon: Some(lil), ..Default::default() };
    let groups = material_texture_slot_groups(&mat);
    assert_eq!(groups.len(), 25);
    // The gradation needs its emission too, and an unused reflection cube is not sampled.
    assert_eq!(material_texture_indices(&groups), Vec::<usize>::new());
    assert_eq!(material_cube_slots(&mat), vec![None, None]);
    lil.emission_enabled = true;
    let mat = MaterialTextureSlots { liltoon: Some(lil), ..Default::default() };
    assert_eq!(material_texture_indices(&material_texture_slot_groups(&mat)), vec![20]);
}

#[test]
fn slot_groups_collect_unique_slots() {
    let groups = vec![group(true, vec![Some(3), Some(4), Some(3), Some(7)])];
    assert_eq!(material_texture_indices(&groups), vec![3, 4, 7]);
}

#[test]
fn slot_groups_keep_cube_slots_separate() {
    let groups = vec![group(true, vec![Some(3), None, None, None]), group(true, vec![None, None, None, None, None, None])];
    let cubes = vec![Some(9), None];
    assert_eq!(material_texture_indices(&groups), vec![3]);
    assert_eq!(material_cube_texture_indices(&cubes), vec![9]);
    assert_eq!(material_resident_texture_indices(&groups, &cubes), vec![3, 9]);
}

#[test]
fn slot_groups_skip_disabled_groups() {
    let disabled = vec![
        group(true, vec![Some(3), None, None, None]),
        group(false, vec![Some(16)]),
        group(false, vec![Some(10), None, None, None]),
        group(false, vec![Some(11), None, None]),
        group(false, vec![Some(12), None]),
        group(false, vec![Some(15)]),
        group(false, vec![None, None, None, Some(13)]),
    ];
    assert_eq!(material_texture_indices(&disabled), vec![3]);
    let enabled = vec![
        group(true, vec![Some(3), None, None, None]),
        group(true, vec![Some(16)]),
        group(true, vec![Some(10), None, None, None]),
        group(true, vec![Some(11), None, None]),
        group(true, vec![Some(12), None]),
        group(true, vec![Some(15)]),
        group(true, vec![None, None, None, Some(13)]),
    ];
    assert_eq!(material_texture_indices(&enabled), vec![3, 10, 11, 12, 13, 15, 16]);
    assert_eq!(material_cube_texture_indices(&vec![None, Some(14)]), vec![14]);
}

#[test]
fn initial_active_textures_follow_visible_resident_primitives() {
    let primitives = vec![
        PrimitiveTextureUse { node_visible: true, asset_resident: true, material_invisible: false, texture_indices: vec![0] },
        PrimitiveTextureUse { node_visible: false, asset_resident: true, material_invisible: false, texture_indices: vec![1] },
        PrimitiveTextureUse { node_visible: true, asset_resident: false, material_invisible: false, texture_indices: vec![2] },
    ];
    assert_eq!(initial_active_texture_indices_for_scene(&primitives), vec![0]);
}

#[test]
fn initial_active_textures_skip_invisible_materials_and_merge() {
    let primitives = vec![
        PrimitiveTextureUse { node_visible: true, asset_resident: true, material_invisible: true, texture_indices: vec![9] },
        PrimitiveTextureUse { node_visible: true, asset_resident: true, material_invisible: false, texture_indices: vec![5, 2] },
        PrimitiveTextureUse { node_visible: true, asset_resident: true, material_invisible: false, texture_indices: vec![2, 4] },
    ];
    assert_eq!(initial_active_texture_indices_for_scene(&primitives), vec![2, 4, 5]);
}

#[test]
fn hot_switch_texture_residency_tracks_active_draw_texture_slots() {
    let groups = vec![AssetGroupOwnership { mesh_primitives: vec![], materials: vec![], images: vec![0, 1, 2] }];
    let selection = ScopedAssetSelection { mesh_primitives: vec![], materials: vec![], images: vec![0, 1, 2] };
    let asset_residency = SceneAssetResidencySets::for_scene(&groups, true, selection);
    let draws = vec![DrawTextureUse { texture_indices: vec![0], cube_texture_indices: vec![2] }];

    let (image_residency, cube_residency) =
        texture_residency_for_active_draws(3, &asset_residency, &draws, &vec![false, false, true]);

    assert_eq!(image_residency, vec![true, false, false]);
    assert_eq!(cube_residency, vec![false, false, true]);
    assert_eq!(residency_load_indices(&vec![false, false, false], &image_residency), vec![0]);
}

#[test]
fn texture_residency_drops_non_cube_and_non_resident_images() {
    let groups = vec![AssetGroupOwnership { mesh_primitives: vec![], materials: vec![], images: vec![1] }];
    let selection = ScopedAssetSelection { mesh_primitives: vec![], materials: vec![], images: vec![] };
    let asset_residency = SceneAssetResidencySets::for_scene(&groups, true, selection);
    let draws = vec![DrawTextureUse { texture_indices: vec![0, 1, 7], cube_texture_indices: vec![0] }];
    let (image_residency, cube_residency) =
        texture_residency_for_active_draws(2, &asset_residency, &draws, &vec![false]);
    assert_eq!(image_residency, vec![true, false]);
    assert_eq!(cube_residency, vec![false, false]);
}

#[test]
fn asset_residency_counts_summarize_draws_textures_and_slots() {
    let footprints = vec![
        DrawAssetFootprint { asset_resident: true, vertex_buffer_bytes: 100, index_buffer_bytes: 20 },
        DrawAssetFootprint { asset_resident: false, vertex_buffer_bytes: 50, index_buffer_bytes: 10 },
    ];
    let draws = vec![
        DrawResidencyUse { active: true, texture_indices: vec![1], cube_texture_indices: vec![], material_slot_index: Some(0) },
        DrawResidencyUse { active: false, texture_indices: vec![1, 2], cube_texture_indices: vec![0], material_slot_index: Some(1) },
    ];
    let counts = asset_residency_counts(&footprints, &draws, &vec![true, false, false], &vec![false], &vec![true, false]);
    assert_eq!(counts.total_draw_mesh_primitive_count, 2);
    assert_eq!(counts.resident_draw_mesh_primitive_count, 1);
    assert_eq!(counts.inactive_draw_mesh_primitive_count, 1);
    assert_eq!(counts.total_draw_mesh_buffer_bytes, 180);
    assert_eq!(counts.resident_draw_mesh_buffer_bytes, 120);
    assert_eq!(counts.inactive_draw_mesh_buffer_bytes, 60);
    assert_eq!(counts.total_image_texture_count, 3);
    assert_eq!(counts.resident_image_texture_count, 1);
    assert_eq!(counts.inactive_image_texture_count, 2);
    assert_eq!(counts.draws_using_inactive_image_texture_count, 2);
    assert_eq!(counts.active_draws_using_inactive_image_texture_count, 1);
    assert_eq!(counts.inactive_image_textures_used_by_active_draw, vec![1]);
    assert_eq!(counts.inactive_image_textures_used_by_active_draw_count, 1);
    assert_eq!(counts.active_draws_using_inactive_cube_texture_count, 0);
    assert_eq!(counts.inactive_cube_textures_used_by_active_draw_count, 0);
    assert_eq!(counts.total_material_slot_count, 2);
    assert_eq!(counts.resident_material_slot_count, 1);
    assert_eq!(counts.inactive_material_slot_count, 1);
    assert_eq!(counts.active_draws_using_inactive_material_slot_count, 0);
    assert!(counts.inactive_material_slots_used_by_active_draw.is_empty());
}

fn no_flags() -> MaterialFlagInputs {
    MaterialFlagInputs {
        debug_bind_pose: false,
        debug_primitive_colors: false,
        debug_disable_rim_lighting: false,
        debug_force_shading_shift_zero: false,
        debug_disable_matcap: false,
        debug_disable_emissive: false,
        debug_disable_shade_color: false,
        skin_tone_matched: false,
        debug_base_texture_only: false,
        debug_disable_normal_map: false,
        cull_mode: MaterialCullMode::Back,
        has_occlusion_texture: false,
        liltoon_source: false,
        gem_profile: false,
        refraction_profile: false,
        additive_blend: false,
    }
}

#[test]
fn material_gpu_flags_pack_each_switch_into_its_bit() {
    assert_eq!(material_gpu_flags(no_flags()), 0);
    let f = MaterialFlagInputs { debug_bind_pose: true, cull_mode: MaterialCullMode::Off, has_occlusion_texture: true, ..no_flags() };
    assert_eq!(material_gpu_flags(f), 1 + 512 + 1024);
    let f = MaterialFlagInputs { cull_mode: MaterialCullMode::Front, gem_profile: true, additive_blend: true, ..no_flags() };
    assert_eq!(material_gpu_flags(f), 2048 + 8192 + 32768);
    // Skin-tone matching and the shade-colour switch share one bit.
    let f = MaterialFlagInputs { debug_disable_shade_color: true, skin_tone_matched: true, ..no_flags() };
    assert_eq!(material_gpu_flags(f), 64);
    let f = MaterialFlagInputs { skin_tone_matched: true, refraction_profile: true, debug_disable_normal_map: true, ..no_flags() };
    assert_eq!(material_gpu_flags(f), 64 + 16384 + 256);
    let all = MaterialFlagInputs {
        debug_bind_pose: true,
        debug_primitive_colors: true,
        debug_disable_rim_lighting: true,
        debug_force_shading_shift_zero: true,
        debug_disable_matcap: true,
        debug_disable_emissive: true,
        debug_disable_shade_color: true,
        skin_tone_matched: true,
        debug_base_texture_only: true,
        debug_disable_normal_map: true,
        cull_mode: MaterialCullMode::Off,
        has_occlusion_texture: true,
        liltoon_source: true,
        gem_profile: true,
        refraction_profile: true,
        additive_blend: true,
    };
    assert_eq!(material_gpu_flags(all), 1023 + 1024 + 4096 + 8192 + 16384 + 32768);
    // A lilToon-like source material is marked by bit 12.
    let f = MaterialFlagInputs { liltoon_source: true, ..no_flags() };
    assert_eq!(material_gpu_flags(f), 4096);
    let f = MaterialFlagInputs { liltoon_source: true, gem_profile: true, cull_mode: MaterialCullMode::Front, ..no_flags() };
    assert_eq!(material_gpu_flags(f), 4096 + 8192 + 2048);
}

#[test]
fn material_alpha_kind_follows_mode_unless_forced_opaque() {
    assert_eq!(material_alpha_kind(MaterialAlphaMode::Opaque, false), 0);
    assert_eq!(material_alpha_kind(MaterialAlphaMode::Mask, false), 1);
    assert_eq!(material_alpha_kind(MaterialAlphaMode::Blend, false), 2);
    assert_eq!(material_alpha_kind(MaterialAlphaMode::Blend, true), 0);
    assert_eq!(material_alpha_kind(MaterialAlphaMode::Mask, true), 0);
}
