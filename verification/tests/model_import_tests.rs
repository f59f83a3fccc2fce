use un_avatar_render::model_import::{
    glb_route, import_route, vrm_root_json_parse_allowed, ImportRoute, MAX_VRM_ROOT_JSON_BYTES,
};

#[test]
fn import_route_follows_the_extension_ignoring_ascii_case() {
    assert_eq!(import_route("vrm"), ImportRoute::VrmBytes);
    assert_eq!(import_route("VRM"), ImportRoute::VrmBytes);
    assert_eq!(import_route("Glb"), ImportRoute::GlbRootProbe);
    assert_eq!(import_route("gltf"), ImportRoute::GltfPath);
    assert_eq!(import_route("unavatar"), ImportRoute::GltfPath);
    assert_eq!(import_route(""), ImportRoute::GltfPath);
    assert_eq!(import_route("vrmx"), ImportRoute::GltfPath);
}

#[test]
fn probed_glb_files_with_vrm_extension_import_as_vrm() {
    assert_eq!(glb_route(true), ImportRoute::VrmBytes);
    assert_eq!(glb_route(false), ImportRoute::GltfPath);
}

#[test]
fn vrm_root_json_is_parsed_up_to_128_mib() {
    assert_eq!(MAX_VRM_ROOT_JSON_BYTES, 128 * 1024 * 1024);
    assert!(vrm_root_json_parse_allowed(MAX_VRM_ROOT_JSON_BYTES));
    assert!(!vrm_root_json_parse_allowed(MAX_VRM_ROOT_JSON_BYTES + 1));
    assert!(vrm_root_json_parse_allowed(0));
}
