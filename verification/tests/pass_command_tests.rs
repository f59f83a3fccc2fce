use un_avatar_render::draw_batches::{DrawPipelineKey, DrawPipelineKind, MaterialRenderStateKey, MaterialStencilState};
use un_avatar_render::pass_commands::{plan_backpass, plan_keyed_pass, PassCommand};

fn state(mask: u8) -> MaterialRenderStateKey {
    MaterialRenderStateKey::new(MaterialStencilState::default(), mask)
}

#[test]
fn keyed_pass_binds_each_state_once_per_run() {
    let entries = vec![(state(15), 4), (state(15), 2), (state(8), 7), (state(15), 1)];
    let cmds = plan_keyed_pass(&entries, &vec![true, true, true, true]);
    assert_eq!(
        cmds,
        vec![
            PassCommand::SetPipeline(state(15)),
            PassCommand::Draw { draw_index: 4, key: state(15) },
            PassCommand::Draw { draw_index: 2, key: state(15) },
            PassCommand::SetPipeline(state(8)),
            PassCommand::Draw { draw_index: 7, key: state(8) },
            PassCommand::SetPipeline(state(15)),
            PassCommand::Draw { draw_index: 1, key: state(15) },
        ]
    );
}

#[test]
fn keyed_pass_skips_draws_whose_pipeline_is_missing() {
    let entries = vec![(state(8), 0), (state(15), 1), (state(15), 2), (state(8), 3)];
    let cmds = plan_keyed_pass(&entries, &vec![false, true, true, false]);
    assert_eq!(
        cmds,
        vec![
            PassCommand::SetPipeline(state(15)),
            PassCommand::Draw { draw_index: 1, key: state(15) },
            PassCommand::Draw { draw_index: 2, key: state(15) },
        ]
    );
    assert!(plan_keyed_pass(&Vec::new(), &Vec::new()).is_empty());
}

#[test]
fn backpass_binds_its_pipeline_per_run_of_keys() {
    let zwrite = DrawPipelineKey::from_parts(DrawPipelineKind::TransparentToonBackpass, MaterialStencilState::default(), 15);
    let no_zwrite = DrawPipelineKey::from_parts(DrawPipelineKind::TransparentToonBackpassNoZWrite, MaterialStencilState::default(), 15);
    let cmds = plan_backpass(&vec![(zwrite, 3), (zwrite, 5), (no_zwrite, 6)]);
    assert_eq!(
        cmds,
        vec![
            PassCommand::SetPipeline(zwrite),
            PassCommand::Draw { draw_index: 3, key: zwrite },
            PassCommand::Draw { draw_index: 5, key: zwrite },
            PassCommand::SetPipeline(no_zwrite),
            PassCommand::Draw { draw_index: 6, key: no_zwrite },
        ]
    );
}
