use un_avatar_render::import_report::{
    import_profile_lines, import_report_warning_lines, ImportDiagnostic, ImportFeatureNote, ImportReportSummary,
};
use un_avatar_render::wardrobe::{
    base_wardrobe_set_id, normalize_wardrobe_set_id, require_wardrobe_set_id, select_required_wardrobe_set_id,
    stable_identifier, trim_str, WardrobeManifest, WardrobeSetEntry,
};
use un_avatar_render::wardrobe_report::{
    wardrobe_apply_report_summary, wardrobe_apply_report_summary_with_groups, WardrobeApplyReport,
};

#[test]
fn normalize_wardrobe_set_id_trims_empty_values() {
    assert_eq!(normalize_wardrobe_set_id(None), None);
    assert_eq!(normalize_wardrobe_set_id(Some("")), None);
    assert_eq!(normalize_wardrobe_set_id(Some(" \t ")), None);
    assert_eq!(normalize_wardrobe_set_id(Some(" field_drape ")), Some("field_drape".to_string()));
}

#[test]
fn apply_required_wardrobe_set_resolves_empty_values_as_base() {
    let err = select_required_wardrobe_set_id(" \t ", None).expect_err("missing base wardrobe should be reported");
    assert_eq!(err, ".unavatar wardrobe base set not found");
    assert_eq!(require_wardrobe_set_id(" field_drape ").unwrap(), "field_drape");
}

#[test]
fn require_wardrobe_set_id_reports_blank_ids() {
    assert_eq!(require_wardrobe_set_id("  "), Err("wardrobe set id required".to_string()));
}

#[test]
fn trim_removes_unicode_whitespace() {
    assert_eq!(trim_str("\u{3000} set\n"), "set");
    assert_eq!(trim_str("a b"), "a b");
    assert_eq!(trim_str(""), "");
}

#[test]
fn trim_removes_every_white_space_kind_and_keeps_others() {
    assert_eq!(trim_str(" \t "), "");
    assert_eq!(trim_str("\u{3000}a\u{85}"), "a");
    assert_eq!(trim_str("\u{2028}\u{202F}x\u{205F}\u{1680}"), "x");
    // Zero-width space and byte-order mark are not White_Space.
    assert_eq!(trim_str("\u{200B}y\u{FEFF}"), "\u{200B}y\u{FEFF}");
}

fn entry(id: Option<&str>, default: bool) -> WardrobeSetEntry {
    WardrobeSetEntry { id: id.map(|s| s.to_string()), default }
}

#[test]
fn base_wardrobe_set_prefers_listed_explicit_base() {
    let manifest = WardrobeManifest {
        base_set: Some(" casual ".to_string()),
        sets: Some(vec![entry(Some("formal"), true), entry(Some(" casual"), false)]),
    };
    assert_eq!(base_wardrobe_set_id(Some(&manifest)), Some("casual".to_string()));
}

#[test]
fn base_wardrobe_set_falls_back_to_default_or_blank_set() {
    let unlisted = WardrobeManifest {
        base_set: Some("missing".to_string()),
        sets: Some(vec![entry(Some("a"), false), entry(Some(" formal "), true), entry(Some("b"), true)]),
    };
    assert_eq!(base_wardrobe_set_id(Some(&unlisted)), Some(" formal ".to_string()));
    let blank = WardrobeManifest { base_set: None, sets: Some(vec![entry(Some("a"), false), entry(Some("  "), false)]) };
    assert_eq!(base_wardrobe_set_id(Some(&blank)), Some("  ".to_string()));
    let default_without_id = WardrobeManifest { base_set: None, sets: Some(vec![entry(None, true), entry(Some(""), false)]) };
    assert_eq!(base_wardrobe_set_id(Some(&default_without_id)), None);
    let no_sets = WardrobeManifest { base_set: Some("a".to_string()), sets: None };
    assert_eq!(base_wardrobe_set_id(Some(&no_sets)), None);
    assert_eq!(base_wardrobe_set_id(None), None);
}

#[test]
fn required_wardrobe_set_uses_request_or_base() {
    let manifest = WardrobeManifest { base_set: None, sets: Some(vec![entry(Some("base"), true)]) };
    assert_eq!(select_required_wardrobe_set_id(" hat ", Some(&manifest)), Ok("hat".to_string()));
    assert_eq!(select_required_wardrobe_set_id("", Some(&manifest)), Ok("base".to_string()));
    let empty = WardrobeManifest { base_set: None, sets: Some(vec![]) };
    assert_eq!(
        select_required_wardrobe_set_id("", Some(&empty)),
        Err(".unavatar wardrobe base set not found".to_string())
    );
}

#[test]
fn stable_identifier_lowercases_and_collapses_separators() {
    assert_eq!(stable_identifier("Happy"), "happy");
    assert_eq!(stable_identifier("  Smile -- Big!  "), "smile_big");
    assert_eq!(stable_identifier("A1_b2"), "a1_b2");
    assert_eq!(stable_identifier("___"), "");
    assert_eq!(stable_identifier("笑顔Face"), "face");
}

#[test]
fn import_report_warning_lines_include_approximations_and_lost_features() {
    let report = ImportReportSummary {
        diagnostics: vec![ImportDiagnostic { is_warning: true, text: "diagnostic warning".to_string() }],
        lost_features: vec![ImportFeatureNote {
            feature: "ModularAvatar.Unsupported".to_string(),
            detail: Some("preserved only".to_string()),
        }],
        approximations: vec![ImportFeatureNote {
            feature: "ModularAvatar.ModularAvatarShapeChanger".to_string(),
            detail: Some("enabled static set/delete payloads only".to_string()),
        }],
    };

    let lines = import_report_warning_lines(&report, 8);

    assert_eq!(lines.len(), 3);
    assert_eq!(lines[0], "import warning: diagnostic warning");
    assert!(lines[1].contains("import lost feature: ModularAvatar.Unsupported"));
    assert!(lines[2].contains("import approximation: ModularAvatar.ModularAvatarShapeChanger"));
}

#[test]
fn import_report_lines_skip_non_warnings_and_respect_the_limit() {
    let report = ImportReportSummary {
        diagnostics: vec![
            ImportDiagnostic { is_warning: false, text: "info".to_string() },
            ImportDiagnostic { is_warning: true, text: "w1".to_string() },
        ],
        lost_features: vec![
            ImportFeatureNote { feature: "F".to_string(), detail: Some(String::new()) },
            ImportFeatureNote { feature: "G".to_string(), detail: Some("why".to_string()) },
        ],
        approximations: vec![ImportFeatureNote { feature: "A".to_string(), detail: None }],
    };
    let all = import_report_warning_lines(&report, 10);
    assert_eq!(
        all,
        vec![
            "import warning: w1".to_string(),
            "import lost feature: F".to_string(),
            "import lost feature: G (why)".to_string(),
            "import approximation: A".to_string(),
        ]
    );
    assert_eq!(import_report_warning_lines(&report, 2).len(), 2);
    assert!(import_report_warning_lines(&report, 0).is_empty());
}

#[test]
fn wardrobe_apply_report_summary_includes_material_counts() {
    let report = WardrobeApplyReport {
        active_asset_groups: vec!["outfit:field".to_string()],
        scoped_active_asset_group_count: 1,
        scoped_missing_active_asset_groups: vec!["outfit:missing".to_string()],
        scoped_resident_mesh_primitive_count: 2,
        scoped_resident_material_count: 3,
        scoped_resident_image_count: 4,
        scoped_resident_dynamics_count: 5,
        visibility_applied: 6,
        visibility_missing: 7,
        blendshape_applied: 8,
        blendshape_missing: 9,
        dynamics_applied: 10,
        dynamics_missing: 11,
        material_applied: 12,
        material_missing: 13,
        material_slot_applied: 14,
        material_slot_missing: 15,
        ..Default::default()
    };
    let summary = wardrobe_apply_report_summary("field_drape", &report);
    assert!(summary.contains("material_applied=12 material_missing=13"));
    assert!(summary.contains("material_slot_applied=14 material_slot_missing=15"));
    assert!(summary.contains("scoped_resident=mesh:2 material:3 image:4 dynamics:5"));
    assert!(summary.contains("active_asset_groups=[\"outfit:field\"]"));
    assert!(summary.contains("scoped_missing_groups=[\"outfit:missing\"]"));
}

#[test]
fn wardrobe_apply_report_summary_writes_the_whole_line() {
    let report = WardrobeApplyReport { visibility_applied: 1234567890, blendshape_missing: 10, ..Default::default() };
    assert_eq!(
        wardrobe_apply_report_summary("base", &report),
        "un-avatar-renderer: .unavatar wardrobe set `base` applied: visibility_applied=1234567890 \
         visibility_missing=0 blendshape_applied=0 blendshape_missing=10 dynamics_applied=0 dynamics_missing=0 \
         material_applied=0 material_missing=0 material_slot_applied=0 material_slot_missing=0 \
         active_asset_groups=[] scoped_active_groups=0 scoped_missing_groups=[] \
         scoped_resident=mesh:0 material:0 image:0 dynamics:0"
    );
    assert_eq!(
        wardrobe_apply_report_summary_with_groups("x", &WardrobeApplyReport::default(), "A", "B"),
        "un-avatar-renderer: .unavatar wardrobe set `x` applied: visibility_applied=0 \
         visibility_missing=0 blendshape_applied=0 blendshape_missing=0 dynamics_applied=0 dynamics_missing=0 \
         material_applied=0 material_missing=0 material_slot_applied=0 material_slot_missing=0 \
         active_asset_groups=A scoped_active_groups=0 scoped_missing_groups=B \
         scoped_resident=mesh:0 material:0 image:0 dynamics:0"
    );
}

#[test]
fn import_profile_lines_keep_only_profile_messages() {
    let messages = vec![
        "glTF import profile: parse=3ms".to_string(),
        "note: something else".to_string(),
        ".unavatar textureAssets: 4 deferred".to_string(),
        " glTF scene profile: leading space".to_string(),
        "glTF scene profile: nodes=12".to_string(),
    ];
    assert_eq!(
        import_profile_lines(&messages),
        vec![
            "glTF import profile: parse=3ms".to_string(),
            ".unavatar textureAssets: 4 deferred".to_string(),
            "glTF scene profile: nodes=12".to_string(),
        ]
    );
}

#[test]
fn stable_identifier_is_its_own_identifier() {
    for name in ["Happy", "Expression / Happy", "!!", "__a__b__", "Ω mega-Ray 2", "x", ""] {
        let id = stable_identifier(name);
        assert_eq!(stable_identifier(&id), id);
        assert!(id.chars().all(|c| c.is_ascii_digit() || c.is_ascii_lowercase() || c == '_'));
        assert!(!id.starts_with('_') && !id.ends_with('_') && !id.contains("__"));
    }
    assert_eq!(stable_identifier("Expression / Happy"), "expression_happy");
    assert_eq!(stable_identifier("!!"), "");
    assert_eq!(stable_identifier("__a__b__"), "a_b");
}
