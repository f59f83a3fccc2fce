use un_avatar_render::fur_cards::MeshIndexFormat;
use un_avatar_render::scene_counts::{
    compact_index_format, dynamic_morph_target_indices, mesh_draw_capacity, primitive_indices,
    scene_has_morph_targets, scene_primitive_count, skin_palette_capacity,
};
use un_avatar_render::skin_morph::ExpressionBinding;

fn binding(preset_index: usize, morph_target_index: usize) -> ExpressionBinding {
    ExpressionBinding { preset_index, morph_target_index, weight_scale_bits: 1.0f32.to_bits() }
}

fn nonzero(weights: &[f32]) -> Vec<bool> {
    weights.iter().map(|w| w.abs() > 0.000001).collect()
}

#[test]
fn dynamic_morph_targets_use_normalized_binds_and_nonzero_defaults() {
    let names = vec![
        "eyeBlinkLeft".to_string(),
        "Chest1_____胸_首元".to_string(),
        "WardrobeOnlyZero".to_string(),
    ];
    let bindings = [binding(0, 0), binding(1, 2)];
    let indices = dynamic_morph_target_indices(3, &nonzero(&[0.0, 1.0, 0.0]), &bindings, &names, &Vec::new(), false);
    assert_eq!(indices, vec![0, 1, 2]);
}

#[test]
fn dynamic_morph_targets_include_animator_morph_names() {
    let target_names = vec!["Unused".to_string(), "(Do not Modify)ArmPit_Fix_L".to_string()];
    let names = vec!["(Do not Modify)ArmPit_Fix_L".to_string()];
    let indices = dynamic_morph_target_indices(2, &nonzero(&[0.0, 0.0]), &[], &target_names, &names, false);
    assert_eq!(indices, vec![1]);
}

#[test]
fn dynamic_morph_targets_return_empty_without_morph_payload() {
    let bindings = [binding(0, 0)];
    let names = vec!["Ignored".to_string()];
    let indices = dynamic_morph_target_indices(0, &nonzero(&[1.0]), &bindings, &names, &names, true);
    assert!(indices.is_empty());
}

#[test]
fn dynamic_morph_targets_take_every_target_when_asked() {
    let indices = dynamic_morph_target_indices(4, &nonzero(&[0.0]), &[], &Vec::new(), &Vec::new(), true);
    assert_eq!(indices, vec![0, 1, 2, 3]);
}

#[test]
fn dynamic_morph_targets_sort_and_dedup_and_skip_out_of_range_binds() {
    let bindings = [binding(0, 3), binding(1, 1), binding(2, 3), binding(3, 9)];
    let target_names = vec!["a".to_string(), "b".to_string(), "c".to_string(), "d".to_string()];
    let dynamic = vec!["a".to_string(), "c".to_string()];
    let indices = dynamic_morph_target_indices(4, &nonzero(&[0.0, 0.5, 0.0, 0.0, 1.0]), &bindings, &target_names, &dynamic, false);
    assert_eq!(indices, vec![0, 1, 2, 3]);
    let indices = dynamic_morph_target_indices(4, &nonzero(&[0.0, 0.0]), &bindings[3..], &target_names, &Vec::new(), false);
    assert!(indices.is_empty());
}

#[test]
fn scene_primitive_count_sums_mesh_primitives_per_node() {
    let nodes = vec![Some(0), None, Some(1), Some(0), Some(7)];
    let counts = vec![2usize, 3];
    assert_eq!(scene_primitive_count(&nodes, &counts), 7);
    assert_eq!(mesh_draw_capacity(&nodes, &counts), 7);
    assert_eq!(skin_palette_capacity(&nodes), 4);
}

#[test]
fn scene_primitive_count_saturates() {
    let nodes = vec![Some(0), Some(0)];
    let counts = vec![u32::MAX as usize];
    assert_eq!(scene_primitive_count(&nodes, &counts), u32::MAX);
}

#[test]
fn scene_has_morph_targets_looks_at_every_primitive() {
    assert!(!scene_has_morph_targets(&vec![vec![0, 0], vec![]]));
    assert!(scene_has_morph_targets(&vec![vec![0], vec![0, 2]]));
    assert!(!scene_has_morph_targets(&Vec::new()));
}

#[test]
fn compact_index_format_uses_u16_when_every_index_fits() {
    assert_eq!(compact_index_format(&[0, 1, 65535]), MeshIndexFormat::Uint16);
    assert_eq!(compact_index_format(&[0, 65536]), MeshIndexFormat::Uint32);
    assert_eq!(compact_index_format(&[]), MeshIndexFormat::Uint16);
}

#[test]
fn primitive_indices_drop_out_of_range_entries_or_count_vertices() {
    let idx = vec![0u32, 5, 2, 3, 9];
    assert_eq!(primitive_indices(4, Some(&idx)), vec![0, 2, 3]);
    assert_eq!(primitive_indices(3, None), vec![0, 1, 2]);
    assert!(primitive_indices(0, None).is_empty());
}
