use un_avatar_render::draw_batches::{DrawPipelineKey, DrawPipelineKind, MaterialRenderStateKey, MaterialStencilState};
use un_avatar_render::shader_features::MeshPipelineAlphaCoverage;
use un_avatar_render::stencil::{
    color_writes_from_unity_mask, material_color_mask, material_fur_color_mask, material_fur_stencil_state,
    material_outline_color_mask, material_outline_stencil_state, material_source_u8_param, material_stencil_state,
    unity_compare_function, unity_stencil_operation, ColorWrites, CompareFunction, CullFace, MeshPipelineRenderState,
    StencilOperation,
};

fn params(items: &[(&str, u8)]) -> Vec<(String, u8)> {
    items.iter().map(|(k, v)| (k.to_string(), *v)).collect()
}

const ALL: ColorWrites = ColorWrites { red: true, green: true, blue: true, alpha: true };
const NONE: ColorWrites = ColorWrites { red: false, green: false, blue: false, alpha: false };

#[test]
fn liltoon_stencil_writer_maps_from_exported_float_params() {
    let material = params(&[
        ("_StencilComp", 8),
        ("_StencilPass", 2),
        ("_StencilReadMask", 255),
        ("_StencilRef", 12),
        ("_StencilWriteMask", 255),
        ("_StencilFail", 0),
        ("_StencilZFail", 0),
        ("_ColorMask", 0),
    ]);
    let stencil = material_stencil_state(&material);
    assert_eq!(stencil.reference, 12);
    assert_eq!(unity_compare_function(stencil.compare), CompareFunction::Always);
    assert_eq!(unity_stencil_operation(stencil.pass_op), StencilOperation::Replace);
    assert_eq!(material_color_mask(&material), 0);
    assert_eq!(color_writes_from_unity_mask(material_color_mask(&material)), NONE);
}

#[test]
fn liltoon_stencil_consumer_maps_not_equal_test() {
    let material = params(&[
        ("_StencilComp", 6),
        ("_StencilPass", 0),
        ("_StencilReadMask", 255),
        ("_StencilRef", 12),
        ("_StencilWriteMask", 255),
        ("_StencilFail", 0),
        ("_StencilZFail", 0),
        ("_ColorMask", 15),
    ]);
    let stencil = material_stencil_state(&material);
    let pipeline_stencil = stencil.to_stencil_state();
    assert_eq!(stencil.reference, 12);
    assert_eq!(pipeline_stencil.front.compare, CompareFunction::NotEqual);
    assert_eq!(pipeline_stencil.front.pass_op, StencilOperation::Keep);
    assert_eq!(pipeline_stencil.read_mask, 255);
    assert_eq!(pipeline_stencil.write_mask, 255);
    assert_eq!(color_writes_from_unity_mask(material_color_mask(&material)), ALL);
}

#[test]
fn liltoon_outline_and_fur_stencil_use_dedicated_prefixes() {
    let material = params(&[
        ("_OutlineStencilComp", 6),
        ("_OutlineStencilRef", 1),
        ("_OutlineStencilPass", 0),
        ("_OutlineColorMask", 15),
        ("_FurStencilComp", 3),
        ("_FurStencilRef", 7),
        ("_FurStencilPass", 2),
        ("_FurColorMask", 8),
    ]);
    let outline = material_outline_stencil_state(&material);
    let fur = material_fur_stencil_state(&material);
    assert_eq!(outline.reference, 1);
    assert_eq!(unity_compare_function(outline.compare), CompareFunction::NotEqual);
    assert_eq!(material_outline_color_mask(&material), 15);
    assert_eq!(fur.reference, 7);
    assert_eq!(unity_compare_function(fur.compare), CompareFunction::Equal);
    assert_eq!(unity_stencil_operation(fur.pass_op), StencilOperation::Replace);
    assert_eq!(
        color_writes_from_unity_mask(material_fur_color_mask(&material)),
        ColorWrites { red: true, green: false, blue: false, alpha: false }
    );
}

#[test]
fn missing_stencil_params_fall_back_to_always_pass_with_full_masks() {
    let stencil = material_stencil_state(&Vec::new());
    assert_eq!(stencil, MaterialStencilState::default());
    assert_eq!(stencil.compare, 8);
    assert_eq!((stencil.read_mask, stencil.write_mask, stencil.reference), (255, 255, 0));
    assert_eq!(material_color_mask(&params(&[("_ColorMask", 0xf3)])), 3);
    assert_eq!(material_color_mask(&Vec::new()), 15);
    assert_eq!(material_source_u8_param(&params(&[("_X", 4), ("_X", 9)]), "_X", 1), 4);
    assert_eq!(material_source_u8_param(&params(&[("_Y", 4)]), "_X", 1), 1);
}

#[test]
fn unity_enum_numbers_map_to_pipeline_values() {
    let compares = [
        (1, CompareFunction::Never),
        (2, CompareFunction::Less),
        (3, CompareFunction::Equal),
        (4, CompareFunction::LessEqual),
        (5, CompareFunction::Greater),
        (6, CompareFunction::NotEqual),
        (7, CompareFunction::GreaterEqual),
        (8, CompareFunction::Always),
        (0, CompareFunction::Always),
        (200, CompareFunction::Always),
    ];
    for (n, f) in compares {
        assert_eq!(unity_compare_function(n), f);
    }
    let ops = [
        (0, StencilOperation::Keep),
        (1, StencilOperation::Zero),
        (2, StencilOperation::Replace),
        (3, StencilOperation::IncrementClamp),
        (4, StencilOperation::DecrementClamp),
        (5, StencilOperation::Invert),
        (6, StencilOperation::IncrementWrap),
        (7, StencilOperation::DecrementWrap),
        (9, StencilOperation::Keep),
    ];
    for (n, op) in ops {
        assert_eq!(unity_stencil_operation(n), op);
    }
    assert_eq!(color_writes_from_unity_mask(0b0101), ColorWrites { red: false, green: true, blue: false, alpha: true });
}

#[test]
fn pipeline_render_states_start_from_pass_defaults() {
    let main: MeshPipelineRenderState<u8> = MeshPipelineRenderState::mesh_main(Some(3), true, 4);
    assert_eq!(main.color_blend, Some(3));
    assert_eq!(main.color_write_mask, ALL);
    assert!(main.depth_write);
    assert_eq!(main.depth_compare, CompareFunction::LessEqual);
    assert_eq!(main.stencil, MaterialStencilState::default());
    assert_eq!(main.cull_mode, None);
    assert!(!main.alpha_coverage.enabled());
    assert_eq!(main.sample_count, 4);

    let outline: MeshPipelineRenderState<u8> = MeshPipelineRenderState::outline(1);
    assert_eq!(outline.color_blend, None);
    assert!(!outline.depth_write);
    assert_eq!(outline.depth_compare, CompareFunction::Less);
    assert_eq!(outline.cull_mode, Some(CullFace::Front));
    assert_eq!(outline.sample_count, 1);
}

#[test]
fn pipeline_render_state_builders_replace_only_their_fields() {
    let stencil = MaterialStencilState { reference: 3, read_mask: 1, write_mask: 2, compare: 6, pass_op: 2, fail_op: 0, depth_fail_op: 0 };
    let key = DrawPipelineKey::from_parts(DrawPipelineKind::OpaqueToon, stencil, 0b1000);
    let state: MeshPipelineRenderState<u8> =
        MeshPipelineRenderState::mesh_main(None, false, 1).with_alpha_coverage(MeshPipelineAlphaCoverage::On);
    assert!(state.alpha_coverage.enabled());
    let state = state.with_material_render_state(key);
    assert_eq!(state.stencil, stencil);
    assert_eq!(state.color_write_mask, ColorWrites { red: true, green: false, blue: false, alpha: false });
    assert!(state.alpha_coverage.enabled());
    assert_eq!(state.depth_compare, CompareFunction::LessEqual);
    let state = state.with_material_render_state_key(MaterialRenderStateKey::new(MaterialStencilState::default(), 0xff));
    assert_eq!(state.stencil, MaterialStencilState::default());
    assert_eq!(state.color_write_mask, ALL);
}
