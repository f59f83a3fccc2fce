use un_avatar_render::expression_index::{expression_binding_index, ExpressionBind};
use un_avatar_render::skin_morph::ExpressionBinding;

fn bind(mesh_index: usize, primitive_index: usize, morph_target_index: usize, weight: f32) -> ExpressionBind {
    ExpressionBind { mesh_index, primitive_index, morph_target_index, weight_scale_bits: weight.to_bits() }
}

#[test]
fn expression_binds_are_indexed_by_mesh_primitive_in_preset_order() {
    let presets = vec![
        vec![bind(0, 0, 3, 1.0), bind(1, 0, 2, 0.5)],
        vec![],
        vec![bind(0, 0, 1, 0.25)],
    ];
    let index = expression_binding_index(Some(&presets));
    assert_eq!(
        index.bindings_for(0, 0),
        vec![
            ExpressionBinding { preset_index: 0, morph_target_index: 3, weight_scale_bits: 1.0f32.to_bits() },
            ExpressionBinding { preset_index: 2, morph_target_index: 1, weight_scale_bits: 0.25f32.to_bits() },
        ]
    );
    assert_eq!(
        index.bindings_for(1, 0),
        vec![ExpressionBinding { preset_index: 0, morph_target_index: 2, weight_scale_bits: 0.5f32.to_bits() }]
    );
    assert!(index.bindings_for(0, 1).is_empty());
    assert_eq!(index.keys.len(), 2);
}

#[test]
fn no_catalog_gives_an_empty_index() {
    let index = expression_binding_index(None);
    assert!(index.keys.is_empty());
    assert!(index.bindings_for(0, 0).is_empty());
}
