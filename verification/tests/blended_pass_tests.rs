use un_avatar_render::blended_passes::{
    blended_segments_from, blended_segments_until, first_screen_refraction_blended_draw, BlendedSegment,
};
use un_avatar_render::draw_batches::{DrawBatch, DrawPipelineKey, DrawPipelineKind, MaterialStencilState};

fn key(kind: DrawPipelineKind) -> DrawPipelineKey {
    DrawPipelineKey::from_parts(kind, MaterialStencilState::default(), 15)
}

fn batches() -> Vec<DrawBatch> {
    vec![
        DrawBatch { pipeline: key(DrawPipelineKind::BlendToon), draw_indices: vec![0, 1] },
        DrawBatch { pipeline: key(DrawPipelineKind::BlendLit), draw_indices: vec![2, 3, 4] },
        DrawBatch { pipeline: key(DrawPipelineKind::BlendToonZWrite), draw_indices: vec![5] },
    ]
}

fn flat(segments: &[BlendedSegment]) -> Vec<usize> {
    segments.iter().flat_map(|s| s.draw_indices.iter().copied()).collect()
}

#[test]
fn first_screen_refraction_draw_is_found_in_batch_order() {
    let grabs = vec![false, false, false, true, true, false];
    assert_eq!(first_screen_refraction_blended_draw(&batches(), &grabs), Some((1, 1)));
    assert_eq!(first_screen_refraction_blended_draw(&batches(), &vec![false; 6]), None);
}

#[test]
fn blended_passes_split_at_the_screen_grab() {
    let b = batches();
    let before = blended_segments_until(&b, Some((1, 1)));
    let after = blended_segments_from(&b, Some((1, 1)));
    assert_eq!(before.len(), 2);
    assert_eq!(before[1].pipeline, key(DrawPipelineKind::BlendLit));
    assert_eq!(flat(&before), vec![0, 1, 2]);
    assert_eq!(after.len(), 2);
    assert_eq!(after[0].pipeline, key(DrawPipelineKind::BlendLit));
    assert_eq!(flat(&after), vec![3, 4, 5]);
    let all = blended_segments_from(&b, None);
    assert_eq!(flat(&all), vec![0, 1, 2, 3, 4, 5]);
    assert_eq!(flat(&blended_segments_until(&b, None)), vec![0, 1, 2, 3, 4, 5]);
}

#[test]
fn blended_split_past_the_end_draws_everything_before() {
    let b = batches();
    assert_eq!(flat(&blended_segments_until(&b, Some((7, 0)))), vec![0, 1, 2, 3, 4, 5]);
    assert!(blended_segments_from(&b, Some((7, 0))).is_empty());
    let at_start = blended_segments_until(&b, Some((0, 0)));
    assert_eq!(at_start.len(), 1);
    assert!(at_start[0].draw_indices.is_empty());
    assert_eq!(flat(&blended_segments_until(&b, Some((2, 9)))), vec![0, 1, 2, 3, 4, 5]);
}
