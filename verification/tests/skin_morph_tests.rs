use un_avatar_render::skin_morph::morph_source_indices;
use un_avatar_render::skin_morph::{
    matrix_raw_capacity, morph_override_key, morph_override_path_suffix_key, prefixed_material_name,
    remap_expression_bindings, search_sorted, skin_palette_key_for_node, skin_palette_matrix_capacity,
    ExpressionBinding, SkinJointCounts, MAX_BONES, STATIC_IDENTITY_SKIN_PALETTE_NODE,
};
use un_avatar_render::skin_morph::{
    group_draw_indices_by_skin_palette, morph_override_value, normalize_skinning_joints, SkinningNormalization,
};

#[test]
fn skinless_palette_key_is_shared_identity() {
    assert_eq!(skin_palette_key_for_node(1, None), skin_palette_key_for_node(42, None));
    assert_ne!(skin_palette_key_for_node(1, Some(0)), skin_palette_key_for_node(42, Some(0)));
}

#[test]
fn skinless_palette_key_uses_the_static_identity_node() {
    assert_eq!(skin_palette_key_for_node(5, None).world_node_index, STATIC_IDENTITY_SKIN_PALETTE_NODE);
    assert_eq!(skin_palette_key_for_node(5, Some(2)).world_node_index, 5);
    assert_eq!(skin_palette_key_for_node(5, Some(2)).skin_index, Some(2));
}

#[test]
fn skin_palette_capacity_uses_inverse_bind_count_as_bound() {
    let skin = SkinJointCounts { joint_nodes: 3, inverse_bind_matrices: 1 };
    assert_eq!(skin_palette_matrix_capacity(Some(skin)), 1);
}

#[test]
fn skin_palette_capacity_is_between_one_and_max_bones() {
    assert_eq!(skin_palette_matrix_capacity(None), 1);
    assert_eq!(skin_palette_matrix_capacity(Some(SkinJointCounts { joint_nodes: 0, inverse_bind_matrices: 4 })), 1);
    assert_eq!(skin_palette_matrix_capacity(Some(SkinJointCounts { joint_nodes: 2, inverse_bind_matrices: 2 })), 2);
    assert_eq!(
        skin_palette_matrix_capacity(Some(SkinJointCounts { joint_nodes: 9000, inverse_bind_matrices: 9000 })),
        MAX_BONES
    );
}

#[test]
fn matrix_raw_capacity_saturates_and_keeps_one_matrix() {
    assert_eq!(matrix_raw_capacity(0), 16);
    assert_eq!(matrix_raw_capacity(1), 16);
    assert_eq!(matrix_raw_capacity(3), 48);
    assert_eq!(matrix_raw_capacity(usize::MAX), usize::MAX);
}

#[test]
fn remap_expression_bindings_uses_compact_morph_indices() {
    let bindings = [
        ExpressionBinding { preset_index: 0, morph_target_index: 4, weight_scale_bits: 0.25f32.to_bits() },
        ExpressionBinding { preset_index: 1, morph_target_index: 99, weight_scale_bits: 1.0f32.to_bits() },
        ExpressionBinding { preset_index: 2, morph_target_index: 42, weight_scale_bits: 0.5f32.to_bits() },
    ];

    let remapped = remap_expression_bindings(&bindings, &[4, 42]);

    assert_eq!(remapped.len(), 2);
    assert_eq!(remapped[0].preset_index, 0);
    assert_eq!(remapped[0].morph_target_index, 0);
    assert_eq!(f32::from_bits(remapped[0].weight_scale_bits), 0.25);
    assert_eq!(remapped[1].preset_index, 2);
    assert_eq!(remapped[1].morph_target_index, 1);
    assert_eq!(f32::from_bits(remapped[1].weight_scale_bits), 0.5);
}

#[test]
fn remap_expression_bindings_is_empty_without_sources() {
    let bindings = [ExpressionBinding { preset_index: 0, morph_target_index: 0, weight_scale_bits: 0 }];
    assert!(remap_expression_bindings(&bindings, &[]).is_empty());
    assert!(remap_expression_bindings(&[], &[0, 1]).is_empty());
}

#[test]
fn search_sorted_finds_positions() {
    let sorted = [1usize, 4, 9, 16, 25];
    assert_eq!(search_sorted(&sorted, 16), Some(3));
    assert_eq!(search_sorted(&sorted, 1), Some(0));
    assert_eq!(search_sorted(&sorted, 5), None);
    assert_eq!(search_sorted(&[], 5), None);
}

#[test]
fn morph_override_keys_join_path_and_name() {
    assert_eq!(morph_override_key("", "Blink"), "Blink");
    assert_eq!(morph_override_key("Avatar/Body", "Blink"), "Avatar/Body\0Blink");
    assert_eq!(morph_override_path_suffix_key("Avatar/Body\0Blink"), Some("Body\0Blink".to_string()));
    assert_eq!(morph_override_path_suffix_key("Avatar/Body/Face\0Smile"), Some("Body/Face\0Smile".to_string()));
    assert_eq!(morph_override_path_suffix_key("Body\0Blink"), None);
    assert_eq!(morph_override_path_suffix_key("Avatar/Body"), None);
    assert_eq!(morph_override_path_suffix_key("Blink"), None);
}

#[test]
fn prefixed_material_names_follow_unity_naming() {
    assert_eq!(prefixed_material_name("", "StencilRef"), "_StencilRef");
    assert_eq!(prefixed_material_name("Outline", "StencilRef"), "_OutlineStencilRef");
    assert_eq!(prefixed_material_name("Fur", "ColorMask"), "_FurColorMask");
}

#[test]
fn normalize_skinning_vertices_resets_joint_attributes_without_skin() {
    let mut joints = vec![[3u16, 2, 1, 0]];
    assert_eq!(normalize_skinning_joints(&mut joints, true, None), SkinningNormalization::ResetToFirstJoint);
    assert_eq!(joints[0], [0, 0, 0, 0]);
}

#[test]
fn normalize_skinning_vertices_clamps_to_valid_palette_range() {
    let skin = SkinJointCounts { joint_nodes: 2, inverse_bind_matrices: 2 };
    let mut joints = vec![[0u16, 1, 2, 9]];
    assert_eq!(normalize_skinning_joints(&mut joints, true, Some(skin)), SkinningNormalization::Clamped);
    assert_eq!(joints[0], [0, 1, 1, 1]);
    assert_eq!(skin_palette_matrix_capacity(Some(skin)), 2);
}

#[test]
fn normalize_skinning_joints_leaves_unskinned_primitives_and_resets_empty_skins() {
    let mut joints = vec![[7u16, 8, 9, 10]];
    assert_eq!(normalize_skinning_joints(&mut joints, false, None), SkinningNormalization::Untouched);
    assert_eq!(joints[0], [7, 8, 9, 10]);
    let empty = SkinJointCounts { joint_nodes: 0, inverse_bind_matrices: 3 };
    assert_eq!(normalize_skinning_joints(&mut joints, true, Some(empty)), SkinningNormalization::ResetToFirstJoint);
    assert_eq!(joints[0], [0, 0, 0, 0]);
    let big = SkinJointCounts { joint_nodes: 5000, inverse_bind_matrices: 5000 };
    let mut joints = vec![[600u16, 511, 512, 65535]];
    normalize_skinning_joints(&mut joints, true, Some(big));
    assert_eq!(joints[0], [511, 511, 511, 511]);
}

#[test]
fn draw_indices_group_by_skin_palette_keeping_order() {
    let palettes = vec![2usize, 0, 2, 1, 0];
    let mut indices = vec![0usize, 1, 2, 3, 4];
    group_draw_indices_by_skin_palette(&palettes, &mut indices);
    assert_eq!(indices, vec![1, 4, 3, 0, 2]);
    let mut some = vec![4usize, 2, 1];
    group_draw_indices_by_skin_palette(&palettes, &mut some);
    assert_eq!(some, vec![4, 1, 2]);
}

#[test]
fn morph_override_prefers_the_target_specific_key() {
    let name = "(Do not Modify)ArmPit_Fix_L".to_string();
    let key = morph_override_key("AvatarRoot/Cloth_Panel_Mesh", &name);
    let overrides = vec![(name.clone(), 0.25f32), (key.clone(), 0.8f32)];
    assert_eq!(morph_override_value(&overrides, Some(&key), None, &name), Some(0.8));
    assert_eq!(morph_override_value(&overrides, None, None, &name), Some(0.25));
}

#[test]
fn morph_override_matches_the_avatar_root_relative_key() {
    let name = "(Do not Modify)ArmPit_Fix_L".to_string();
    let overrides = vec![(morph_override_key("AvatarRoot/Cloth_Panel_Mesh", &name), 0.9f32)];
    let draw_key = morph_override_key("GenericAvatar (UNAvatar Export)/AvatarRoot/Cloth_Panel_Mesh", &name);
    let suffix = morph_override_path_suffix_key(&draw_key);
    assert_eq!(morph_override_value(&overrides, Some(&draw_key), suffix.as_ref(), &name), Some(0.9));
    assert_eq!(morph_override_value(&overrides, Some(&draw_key), None, &name), None);
}

#[test]
fn morph_sources_prefer_a_valid_cache_then_the_dynamic_selection() {
    let cached = vec![2, 0];
    let dynamic = vec![5, 1, 3, 9];
    assert_eq!(morph_source_indices(4, Some(&cached), Some(&dynamic)), (vec![2, 0], true));
    // A cache naming a missing target is ignored.
    let stale = vec![1, 4];
    assert_eq!(morph_source_indices(4, Some(&stale), Some(&dynamic)), (vec![1, 3], false));
    assert_eq!(morph_source_indices(3, Some(&stale), None), (vec![0, 1, 2], false));
    assert_eq!(morph_source_indices(0, None, None), (vec![], false));
    assert_eq!(morph_source_indices(2, Some(&vec![]), None), (vec![], true));
}
