use un_avatar_render::residency::{
    active_residency_gaps_from_draws, promote_residency_indices, push_texture_index, push_unique_index,
    residency_load_indices, residency_transition_indices, residency_unload_indices, sorted_unique,
    sorted_unique_indices, AssetGroupOwnership, DrawResidencyUse, SceneAssetResidencySets,
    SceneMeshAssetResidencyRefresh, ScopedAssetSelection,
};

#[test]
fn residency_transition_indices_report_loads_and_unloads() {
    assert_eq!(
        residency_load_indices(&vec![true, false, false, true], &vec![false, true, false, true]),
        vec![1]
    );
    assert_eq!(
        residency_unload_indices(&vec![true, false, false, true], &vec![false, true, false, true]),
        vec![0]
    );
    assert_eq!(residency_load_indices(&vec![], &vec![true, false, true]), vec![0, 2]);
    assert_eq!(residency_unload_indices(&vec![true, false, true], &vec![]), vec![0, 2]);
}

#[test]
fn promote_residency_indices_counts_newly_resident_slots() {
    let mut residency = vec![true, false, false, true];

    assert_eq!(promote_residency_indices(&mut residency, &vec![1, 3, 4, 1]), 1);
    assert_eq!(residency, vec![true, true, false, true]);
    assert_eq!(promote_residency_indices(&mut residency, &vec![2]), 1);
    assert_eq!(residency, vec![true, true, true, true]);
}

#[test]
fn active_residency_gaps_include_cube_textures() {
    let draws = vec![
        DrawResidencyUse {
            active: true,
            texture_indices: vec![1usize],
            cube_texture_indices: vec![3usize],
            material_slot_index: Some(1usize),
        },
        DrawResidencyUse {
            active: false,
            texture_indices: vec![2usize],
            cube_texture_indices: vec![4usize],
            material_slot_index: Some(2usize),
        },
    ];

    let gaps = active_residency_gaps_from_draws(
        &draws,
        &vec![true, false, true],
        &vec![true, true, true, false, false],
        &vec![true, false, false],
    );

    assert_eq!(gaps.inactive_image_texture_indices, vec![1]);
    assert_eq!(gaps.inactive_cube_texture_indices, vec![3]);
    assert_eq!(gaps.inactive_material_slot_indices, vec![1]);
    assert_eq!(gaps.active_draws_using_inactive_image_texture_count, 1);
    assert_eq!(gaps.active_draws_using_inactive_cube_texture_count, 1);
    assert_eq!(gaps.active_draws_using_inactive_material_slot_count, 1);
}

#[test]
fn asset_residency_refresh_reports_scoped_resource_changes() {
    let refresh = SceneMeshAssetResidencyRefresh {
        mesh_buffer_load_indices: vec![1],
        image_texture_load_indices: vec![2],
        material_slot_unload_indices: vec![4],
        ..Default::default()
    };

    assert!(refresh.has_scoped_resource_changes());
    assert!(!SceneMeshAssetResidencyRefresh::default().has_scoped_resource_changes());
}

fn coat_and_hat_groups() -> Vec<AssetGroupOwnership> {
    vec![
        AssetGroupOwnership { mesh_primitives: vec![(1, 0)], materials: vec![3], images: vec![5] },
        AssetGroupOwnership { mesh_primitives: vec![(2, 0)], materials: vec![4], images: vec![6] },
    ]
}

#[test]
fn mesh_primitive_asset_residency_keeps_active_and_unowned_primitives() {
    let groups = coat_and_hat_groups();
    let coat_selected = ScopedAssetSelection { mesh_primitives: vec![(1, 0)], materials: vec![3], images: vec![5] };
    let residency = SceneAssetResidencySets::for_scene(&groups, true, coat_selected);

    assert!(residency.mesh_primitive_resident(0, 0));
    assert!(residency.mesh_primitive_resident(1, 0));
    assert!(!residency.mesh_primitive_resident(2, 0));
    assert!(residency.material_resident(0));
    assert!(residency.material_resident(3));
    assert!(!residency.material_resident(4));
    assert!(residency.image_resident(0));
    assert!(residency.image_resident(5));
    assert!(!residency.image_resident(6));
    let nothing_selected = ScopedAssetSelection { mesh_primitives: vec![], materials: vec![], images: vec![] };
    let no_active_groups = SceneAssetResidencySets::for_scene(&groups, false, nothing_selected);
    assert!(no_active_groups.mesh_primitive_resident(2, 0));
}

#[test]
fn asset_residency_treats_empty_base_group_as_selected_group() {
    let groups = vec![
        AssetGroupOwnership { mesh_primitives: vec![(0, 0)], materials: vec![0], images: vec![0] },
        AssetGroupOwnership { mesh_primitives: vec![(1, 0)], materials: vec![1], images: vec![1] },
    ];
    let base_selected = ScopedAssetSelection { mesh_primitives: vec![(0, 0)], materials: vec![0], images: vec![0] };
    let residency = SceneAssetResidencySets::for_scene(&groups, true, base_selected);

    assert!(residency.mesh_primitive_resident(0, 0));
    assert!(!residency.mesh_primitive_resident(1, 0));
    assert!(residency.material_resident(0));
    assert!(!residency.material_resident(1));
    assert!(residency.image_resident(0));
    assert!(!residency.image_resident(1));
}

#[test]
fn asset_residency_without_groups_keeps_everything_resident() {
    let selection = ScopedAssetSelection { mesh_primitives: vec![], materials: vec![], images: vec![] };
    let residency = SceneAssetResidencySets::for_scene(&vec![], true, selection);
    assert!(residency.all_resident);
    assert!(residency.mesh_primitive_resident(9, 9));
    assert!(residency.image_resident(9));
}

#[test]
fn transitions_replay_old_into_next() {
    let old = vec![true, false, true, false, true];
    let next = vec![false, false, true, true];
    let loads = residency_load_indices(&old, &next);
    let unloads = residency_unload_indices(&old, &next);
    let mut replayed: Vec<bool> = (0..next.len()).map(|i| old.get(i).copied().unwrap_or(false)).collect();
    for i in loads.iter() {
        replayed[*i] = true;
    }
    for i in unloads.iter() {
        if *i < replayed.len() {
            replayed[*i] = false;
        }
    }
    assert_eq!(replayed, next);
    assert_eq!(unloads, vec![0, 4]);
    assert_eq!(loads, vec![3]);
}

#[test]
fn transition_indices_with_custom_states() {
    assert_eq!(residency_transition_indices(&vec![true, true], &vec![true, false], true, true), vec![0]);
    assert_eq!(residency_transition_indices(&vec![false, false], &vec![], false, false), vec![0, 1]);
}

#[test]
fn sorted_unique_sorts_and_dedups() {
    assert_eq!(sorted_unique_indices(vec![5, 1, 5, 3, 1]), vec![1, 3, 5]);
    assert_eq!(sorted_unique(vec![(2, 1), (1, 9), (2, 1), (1, 0)]), vec![(1, 0), (1, 9), (2, 1)]);
    assert_eq!(sorted_unique_indices(vec![]), Vec::<usize>::new());
}

#[test]
fn push_unique_index_keeps_first_occurrence_order() {
    let mut indices = vec![4, 2];
    push_unique_index(&mut indices, 2);
    push_unique_index(&mut indices, 7);
    push_texture_index(&mut indices, None);
    push_texture_index(&mut indices, Some(4));
    push_texture_index(&mut indices, Some(1));
    assert_eq!(indices, vec![4, 2, 7, 1]);
}

#[test]
fn promote_residency_ignores_out_of_range_indices() {
    let mut residency = vec![false, false];
    assert_eq!(promote_residency_indices(&mut residency, &vec![5, 9]), 0);
    assert_eq!(residency, vec![false, false]);
}

#[test]
fn residency_lookups_accept_repeats_and_read_only_their_lists() {
    let residency = SceneAssetResidencySets {
        all_resident: false,
        owned_mesh_primitives: vec![(1, 0), (1, 0), (2, 0)],
        resident_mesh_primitives: vec![(1, 0), (1, 0)],
        owned_materials: vec![4, 4, 7],
        resident_materials: vec![7],
        owned_images: vec![9, 3],
        resident_images: vec![],
    };
    assert!(residency.mesh_primitive_resident(0, 0));
    assert!(residency.mesh_primitive_resident(1, 0));
    assert!(!residency.mesh_primitive_resident(2, 0));
    assert!(!residency.material_resident(4));
    assert!(residency.material_resident(7));
    assert!(residency.material_resident(5));
}

#[test]
fn sorting_twice_changes_nothing_and_unload_is_reverse_load() {
    let once = sorted_unique_indices(vec![3, 1, 3, 2]);
    assert_eq!(once, vec![1, 2, 3]);
    assert_eq!(sorted_unique_indices(once.clone()), once);
    let pairs = sorted_unique(vec![(2, 1), (0, 5), (2, 1), (0, 2)]);
    assert_eq!(pairs, vec![(0, 2), (0, 5), (2, 1)]);
    assert_eq!(sorted_unique(pairs.clone()), pairs);
    let a = vec![true, false, true, true, false];
    let b = vec![false, true, true];
    assert_eq!(residency_unload_indices(&a, &b), residency_load_indices(&b, &a));
    assert_eq!(residency_unload_indices(&a, &b), vec![0, 3]);
    assert_eq!(residency_load_indices(&a, &b), residency_unload_indices(&b, &a));
}
