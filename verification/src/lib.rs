pub mod blended_passes;
pub mod cube_cache;
pub mod draw_activity;
pub mod draw_batches;
pub mod draw_order;
pub mod draw_order_laws;
pub mod expression_actions;
pub mod expression_index;
pub mod fur_cards;
pub mod image_source;
pub mod import_report;
pub mod material_flags;
pub mod material_slots;
pub mod material_textures;
pub mod model_import;
pub mod pass_commands;
pub mod pipeline_features;
pub mod residency;
pub mod residency_counts;
pub mod scene_counts;
pub mod samplers;
pub mod scene_paths;
pub mod shader_features;
pub mod shader_source;
pub mod skin_morph;
pub mod stable_sort;
pub mod stencil;
pub mod text;
pub mod texture_summary;
pub mod wardrobe;
pub mod wardrobe_report;

use vstd::prelude::*;

verus! {

/// How avatar outlines are chosen for a scene.
#[derive(Clone, Copy, Debug, PartialEq, Eq, Structural)]
pub enum AvatarOutlinePolicy {
    Authored,
    Off,
    Override,
}

/// The outline style applied when the policy overrides authored outlines.
#[derive(Clone, Copy, Debug, PartialEq, Eq, Structural)]
pub enum AvatarOutlineKind {
    Mtoon,
    Ink,
    Brush,
    Double,
}

} // verus!
