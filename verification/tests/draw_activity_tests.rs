use un_avatar_render::draw_activity::{
    promote_visible_draw_residency, refresh_draw_asset_residency, refresh_draw_visibility, DrawActivity,
};

fn draw(visible: bool, asset_resident: bool, world_node_index: usize) -> DrawActivity {
    DrawActivity { visible, asset_resident, world_node_index }
}

#[test]
fn visibility_refresh_follows_the_node_and_counts_active_changes() {
    let mut draws = vec![draw(true, true, 0), draw(false, true, 1), draw(false, false, 1), draw(true, true, 9)];
    let changed = refresh_draw_visibility(&mut draws, &vec![false, true]);
    assert_eq!(draws, vec![draw(false, true, 0), draw(true, true, 1), draw(true, false, 1), draw(false, true, 9)]);
    assert_eq!(changed, 3);
    assert!(draws[1].active());
    assert!(!draws[2].active());
    assert_eq!(refresh_draw_visibility(&mut draws, &vec![false, true]), 0);
}

#[test]
fn promotion_makes_visible_draws_resident_once() {
    let mut draws = vec![draw(true, false, 0), draw(false, false, 1), draw(true, true, 2), draw(true, false, 3)];
    assert_eq!(promote_visible_draw_residency(&mut draws), vec![0, 3]);
    assert!(draws.iter().all(|d| !d.visible || d.active()));
    assert!(!draws[1].asset_resident);
    assert!(promote_visible_draw_residency(&mut draws).is_empty());
}

#[test]
fn asset_residency_refresh_lists_loads_and_unloads() {
    let mut draws = vec![draw(true, true, 0), draw(true, false, 0), draw(false, true, 0), draw(true, false, 0)];
    let changes = refresh_draw_asset_residency(&mut draws, &vec![false, true, true]);
    assert_eq!(changes.mesh_buffer_load_indices, vec![1]);
    assert_eq!(changes.mesh_buffer_unload_indices, vec![0]);
    assert_eq!(changes.active_draw_state_changed_count, 2);
    assert_eq!(draws.iter().map(|d| d.asset_resident).collect::<Vec<_>>(), vec![false, true, true, false]);
}
