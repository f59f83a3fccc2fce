use un_avatar_render::expression_actions::plan_expression_runtime_actions;

fn strings(items: &[&str]) -> Vec<String> {
    items.iter().map(|s| s.to_string()).collect()
}

#[test]
fn enabled_expression_actions_are_added_to_runtime_actions() {
    let presets = strings(&["Happy", "Blink"]);
    let plan = plan_expression_runtime_actions(Some(&presets), &strings(&["expression:happy"]), &Vec::new());
    assert!(plan.rebuilds_actions);
    assert_eq!(plan.steps.len(), 1);
    let step = &plan.steps[0];
    assert_eq!(step.id, "expression:happy");
    assert_eq!(step.label, "Expression / Happy");
    assert_eq!(step.menu_path, "Expressions/Happy");
    assert_eq!(step.preset_index, 0);
    assert_eq!(step.action_index, 0);
    assert!(step.is_new);
}

#[test]
fn enabled_expression_actions_update_existing_runtime_action_weights() {
    let presets = strings(&["Happy"]);
    let plan = plan_expression_runtime_actions(
        Some(&presets),
        &strings(&["expression:happy"]),
        &strings(&["expression:happy"]),
    );
    assert!(plan.rebuilds_actions);
    assert_eq!(plan.steps.len(), 1);
    assert_eq!(plan.steps[0].action_index, 0);
    assert!(!plan.steps[0].is_new);
}

#[test]
fn expression_actions_need_a_catalog_and_an_expression_request() {
    let presets = strings(&["Happy"]);
    let none = plan_expression_runtime_actions(None, &strings(&["expression:happy"]), &Vec::new());
    assert!(!none.rebuilds_actions);
    assert!(none.steps.is_empty());
    let other = plan_expression_runtime_actions(Some(&presets), &strings(&["menu:happy", "  "]), &Vec::new());
    assert!(!other.rebuilds_actions);
    let unmatched = plan_expression_runtime_actions(Some(&presets), &strings(&["expression:sad"]), &Vec::new());
    assert!(unmatched.rebuilds_actions);
    assert!(unmatched.steps.is_empty());
}

#[test]
fn expression_action_ids_are_trimmed_and_shared_by_equal_identifiers() {
    let presets = strings(&["Smile Big", "smile-big!", "Angry"]);
    let plan = plan_expression_runtime_actions(
        Some(&presets),
        &strings(&["  expression:smile_big  ", "expression:angry"]),
        &strings(&["other", "expression:angry", "expression:angry"]),
    );
    assert_eq!(plan.steps.len(), 3);
    assert_eq!(plan.steps[0].id, "expression:smile_big");
    assert_eq!((plan.steps[0].action_index, plan.steps[0].is_new), (3, true));
    assert_eq!((plan.steps[1].action_index, plan.steps[1].is_new), (3, false));
    assert_eq!(plan.steps[1].label, "Expression / smile-big!");
    assert_eq!((plan.steps[2].preset_index, plan.steps[2].action_index, plan.steps[2].is_new), (2, 1, false));
}

#[test]
fn planning_again_after_applying_a_plan_only_updates() {
    let presets = strings(&["Happy", "Sad", "happy"]);
    let requested = strings(&["expression:happy", "expression:sad"]);
    let mut actions = strings(&["menu:open"]);
    let first = plan_expression_runtime_actions(Some(&presets), &requested, &actions);
    for step in &first.steps {
        if step.is_new {
            assert_eq!(step.action_index, actions.len());
            actions.push(step.id.clone());
        }
    }
    assert_eq!(actions, strings(&["menu:open", "expression:happy", "expression:sad"]));
    let second = plan_expression_runtime_actions(Some(&presets), &requested, &actions);
    assert_eq!(second.steps.len(), 3);
    assert!(second.steps.iter().all(|step| !step.is_new));
    assert_eq!(second.steps[2].action_index, 1);
}
