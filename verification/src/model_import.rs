use vstd::prelude::*;
use crate::text::{eq_ignore_ascii_case, eq_ignore_ascii_case_spec};

verus! {

/// The largest VRM file whose glTF root JSON is parsed ahead of the import.
pub const MAX_VRM_ROOT_JSON_BYTES: usize = 128 * 1024 * 1024;

/// How a model file is imported.
#[derive(Clone, Copy, Debug, PartialEq, Eq, Structural)]
pub enum ImportRoute {
    /// Read the file and import it as VRM bytes.
    VrmBytes,
    /// Parse the binary glTF's root JSON first; it decides between VRM bytes and glTF.
    GlbRootProbe,
    /// Import the file by path with the glTF importer.
    GltfPath,
}

pub open spec fn import_route_spec(ext: Seq<char>) -> ImportRoute {
    if eq_ignore_ascii_case_spec(ext, "vrm"@) {
        ImportRoute::VrmBytes
    } else if eq_ignore_ascii_case_spec(ext, "glb"@) {
        ImportRoute::GlbRootProbe
    } else {
        ImportRoute::GltfPath
    }
}

/// The import route of a file by its extension (ASCII case ignored): `vrm` files are VRM,
/// `glb` files are probed, anything else (`.unavatar` too) goes to the glTF importer.
pub fn import_route(ext: &str) -> (route: ImportRoute)
    ensures
        route == import_route_spec(ext@),
{
    if eq_ignore_ascii_case(ext, "vrm") {
        ImportRoute::VrmBytes
    } else if eq_ignore_ascii_case(ext, "glb") {
        ImportRoute::GlbRootProbe
    } else {
        ImportRoute::GltfPath
    }
}

/// A probed binary glTF is imported as VRM bytes when its root JSON has the VRM extension.
pub fn glb_route(root_has_vrm_extension: bool) -> (route: ImportRoute)
    ensures
        route == if root_has_vrm_extension {
            ImportRoute::VrmBytes
        } else {
            ImportRoute::GltfPath
        },
{
    if root_has_vrm_extension {
        ImportRoute::VrmBytes
    } else {
        ImportRoute::GltfPath
    }
}

/// The root JSON of a VRM file is parsed ahead only for files of at most 128 MiB.
pub fn vrm_root_json_parse_allowed(byte_len: usize) -> (allowed: bool)
    ensures
        allowed == (byte_len <= MAX_VRM_ROOT_JSON_BYTES),
{
    byte_len <= MAX_VRM_ROOT_JSON_BYTES
}

} // verus!
