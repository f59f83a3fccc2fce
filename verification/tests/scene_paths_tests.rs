use un_avatar_render::scene_paths::{mesh_cloth_assist_joint_leaf, scene_effective_visibility, scene_node_paths};

fn name(s: &str) -> Option<String> {
    Some(s.to_string())
}

#[test]
fn effective_visibility_inherits_hidden_parent_state() {
    let visible = vec![false, true];
    let children = vec![vec![1], vec![]];
    assert_eq!(scene_effective_visibility(&visible, &children, &vec![0]), vec![false, false]);
}

#[test]
fn effective_visibility_falls_back_to_parentless_roots_when_scene_roots_are_missing() {
    let visible = vec![true, true, false];
    let children = vec![vec![1], vec![], vec![]];
    assert_eq!(scene_effective_visibility(&visible, &children, &Vec::new()), vec![true, true, false]);
}

#[test]
fn effective_visibility_leaves_unreached_nodes_hidden_and_ignores_bad_children() {
    let visible = vec![true, true, true, true];
    let children = vec![vec![1, 9], vec![], vec![3], vec![]];
    assert_eq!(scene_effective_visibility(&visible, &children, &vec![0]), vec![true, true, false, false]);
    assert_eq!(scene_effective_visibility(&visible, &children, &vec![2, 0]), vec![true, true, true, true]);
}

#[test]
fn effective_visibility_keeps_the_last_visit_of_a_shared_child() {
    let visible = vec![false, true, true];
    let children = vec![vec![2], vec![2], vec![]];
    assert_eq!(scene_effective_visibility(&visible, &children, &vec![0, 1]), vec![false, true, true]);
    assert_eq!(scene_effective_visibility(&visible, &children, &vec![1, 0]), vec![false, true, false]);
}

#[test]
fn node_paths_join_named_ancestors_from_the_root() {
    let names = vec![name("root"), name("child"), name(""), None, name("leaf")];
    let children = vec![vec![1], vec![2], vec![4], vec![], vec![]];
    assert_eq!(
        scene_node_paths(&names, &children),
        vec![
            "root".to_string(),
            "root/child".to_string(),
            "root/child".to_string(),
            String::new(),
            "root/child/leaf".to_string(),
        ]
    );
}

#[test]
fn node_paths_use_the_last_listed_parent() {
    let names = vec![name("a"), name("b"), name("c")];
    let children = vec![vec![2], vec![2, 7], vec![]];
    assert_eq!(scene_node_paths(&names, &children), vec!["a".to_string(), "b".to_string(), "b/c".to_string()]);
}

#[test]
fn cloth_assist_joint_leaf_is_the_last_path_segment() {
    let paths = vec!["Armature/Hips/Skirt_L".to_string(), "Root".to_string(), "Hair/".to_string()];
    let joints = vec![0usize, 1, 2, 7];
    assert_eq!(mesh_cloth_assist_joint_leaf(&joints, &paths, 0), "Skirt_L");
    assert_eq!(mesh_cloth_assist_joint_leaf(&joints, &paths, 1), "Root");
    assert_eq!(mesh_cloth_assist_joint_leaf(&joints, &paths, 2), "");
    assert_eq!(mesh_cloth_assist_joint_leaf(&joints, &paths, 3), "");
    assert_eq!(mesh_cloth_assist_joint_leaf(&joints, &paths, 4), "");
}

#[test]
fn effective_visibility_needs_every_ancestor_visible() {
    // 0 -> {1, 2}, 1 -> {3}, 3 -> {4}; 5 is a second root; 6 is parentless but not listed.
    let children = vec![vec![1, 2], vec![3], vec![], vec![4], vec![], vec![], vec![]];
    let visible = vec![true, false, true, true, true, true, true];
    let e = scene_effective_visibility(&visible, &children, &vec![0, 5]);
    assert_eq!(e, vec![true, false, true, false, false, true, false]);
    for (p, cs) in children.iter().enumerate() {
        for &c in cs {
            assert_eq!(e[c], visible[c] && e[p]);
        }
    }
    // With no listed roots every parentless node is a root.
    let e = scene_effective_visibility(&visible, &children, &Vec::new());
    assert_eq!(e, vec![true, false, true, false, false, true, true]);
}
