use un_avatar_render::texture_summary::{
    TextureCacheEvent, TextureImagePrepareTimings, TexturePrepareSummary,
    payload_top_mip_dimensions, take_gpu_scene_step_elapsed, texture_mip_copy_layout, texture_prepare_role_index,
    texture_prepare_role_label, MeshPrepareSummary, MeshPrepareTimings, TextureRole, TextureUploadKind,
    TextureUploadMip, TextureUploadPayload, TextureUploadSummary, TEXTURE_PREPARE_ROLE_COUNT,
};

#[test]
fn texture_mip_copy_layout_matches_upload_formats() {
    assert_eq!(texture_mip_copy_layout(TextureUploadKind::Rgba, 5, 3), (20, 3));
    assert_eq!(texture_mip_copy_layout(TextureUploadKind::Bc1Srgb, 5, 3), (16, 1));
    assert_eq!(texture_mip_copy_layout(TextureUploadKind::Bc5Unorm, 5, 7), (32, 2));
    assert_eq!(texture_mip_copy_layout(TextureUploadKind::Bc7Unorm, 8, 9), (32, 3));
    assert_eq!(texture_mip_copy_layout(TextureUploadKind::Bc7Srgb, 8, 9), (32, 3));
}

#[test]
fn texture_upload_summary_separates_deferred_mip_bytes() {
    let mut summary = TextureUploadSummary::default();

    summary.record_image(4, 4, 4, 4, 64, true);
    summary.record_image(8, 4, 4, 2, 32, false);

    assert_eq!(summary.image_count, 2);
    assert_eq!(summary.uploaded_mip_bytes, 64);
    assert_eq!(summary.deferred_image_upload_count, 1);
    assert_eq!(summary.deferred_image_mip_bytes, 32);
    assert_eq!(summary.source_bytes, 192);
    assert_eq!(summary.resized_count, 1);
}

#[test]
fn texture_upload_summary_tracks_largest_dimensions() {
    let mut summary = TextureUploadSummary::default();
    summary.record_image(16, 64, 8, 32, 10, true);
    summary.record_image(32, 8, 32, 8, 10, true);
    assert_eq!(summary.max_source_dimension, 64);
    assert_eq!(summary.max_uploaded_dimension, 32);
    assert_eq!(summary.resized_count, 1);
    assert_eq!(summary.cubemap_count, 0);
}

#[test]
fn texture_roles_have_distinct_labelled_slots() {
    let roles = [
        TextureRole::Face,
        TextureRole::Eyes,
        TextureRole::Clothing,
        TextureRole::Normal,
        TextureRole::Occlusion,
        TextureRole::Emissive,
        TextureRole::GenericColor,
        TextureRole::Data,
    ];
    let labels = ["Face", "Eyes", "Clothing", "Normal", "Occlusion", "Emissive", "GenericColor", "Data"];
    for (slot, role) in roles.iter().enumerate() {
        assert_eq!(texture_prepare_role_index(*role), slot);
        assert_eq!(texture_prepare_role_label(slot), labels[slot]);
    }
    assert_eq!(texture_prepare_role_label(TEXTURE_PREPARE_ROLE_COUNT), "Unknown");
}

#[test]
fn payload_top_mip_dimensions_fall_back_without_mips() {
    let empty = TextureUploadPayload { kind: TextureUploadKind::Rgba, mips: vec![] };
    assert_eq!(payload_top_mip_dimensions(&empty, 7, 9), (7, 9));
    let payload = TextureUploadPayload {
        kind: TextureUploadKind::Bc7Srgb,
        mips: vec![
            TextureUploadMip { width: 64, height: 32, data: vec![0; 4] },
            TextureUploadMip { width: 32, height: 16, data: vec![0; 4] },
        ],
    };
    assert_eq!(payload_top_mip_dimensions(&payload, 7, 9), (64, 32));
}

fn empty_prepare_summary() -> MeshPrepareSummary {
    MeshPrepareSummary {
        prepared_primitives: 0,
        resident_primitives: 0,
        deferred_primitives: 0,
        skipped_invisible_primitives: 0,
        skipped_empty_primitives: 0,
        expanded_cache_hits: 0,
        expanded_cache_misses: 0,
        expanded_uncacheable: 0,
        vertices: 0,
        indices: 0,
        resident_vertex_bytes: 0,
        resident_index_bytes: 0,
        deferred_vertex_bytes: 0,
        deferred_index_bytes: 0,
        mesh_cloth_assist_vertices: 0,
        material_elapsed: 0,
        dynamic_morph_elapsed: 0,
        expand_elapsed: 0,
        skinning_elapsed: 0,
        skin_palette_elapsed: 0,
        buffer_upload_elapsed: 0,
        material_bind_elapsed: 0,
        morph_resource_elapsed: 0,
        fur_resource_elapsed: 0,
        draw_push_elapsed: 0,
    }
}

#[test]
fn mesh_prepare_summary_accumulates_stage_timings() {
    let mut summary = empty_prepare_summary();
    let timings = MeshPrepareTimings {
        material: 1,
        dynamic_morphs: 2,
        expand: 3,
        skinning: 4,
        skin_palette: 5,
        buffer_upload: 6,
        material_bind: 7,
        morph_resources: 8,
        fur_resources: 9,
        draw_push: 10,
    };
    summary.record_timings(timings);
    summary.record_timings(timings);
    assert_eq!(summary.material_elapsed, 2);
    assert_eq!(summary.expand_elapsed, 6);
    assert_eq!(summary.draw_push_elapsed, 20);
    assert_eq!(summary.prepared_primitives, 0);
}

#[test]
fn gpu_scene_step_elapsed_restarts_the_step() {
    let mut start: u128 = 100;
    assert_eq!(take_gpu_scene_step_elapsed(&mut start, 250), 150);
    assert_eq!(start, 250);
    assert_eq!(take_gpu_scene_step_elapsed(&mut start, 200), 0);
    assert_eq!(start, 200);
}

#[test]
fn texture_prepare_summary_counts_images_per_role() {
    let mut summary = TexturePrepareSummary::default();
    assert_eq!(summary.roles.len(), TEXTURE_PREPARE_ROLE_COUNT);
    let timings = TextureImagePrepareTimings {
        cube: 1,
        source: 2,
        rgba: 3,
        cache_lookup: 4,
        cache_read: 5,
        processed: 10,
        payload: 7,
        upload: 8,
    };
    let hit = TextureCacheEvent { hit: true, miss: false, write: false, read_bytes: 100, read_elapsed: 4 };
    let miss = TextureCacheEvent { hit: false, miss: true, write: true, read_bytes: 0, read_elapsed: 0 };
    summary.record(TextureRole::Face, true, 50, timings, hit, miss);
    summary.record(TextureRole::Normal, false, 20, timings, miss, hit);
    assert_eq!(summary.images, 2);
    assert_eq!(summary.resident_images, 1);
    assert_eq!(summary.deferred_images, 1);
    assert_eq!(summary.resident_elapsed, 50);
    assert_eq!(summary.deferred_elapsed, 20);
    assert_eq!(summary.cache_read_elapsed, 5 + 4 + 5);
    assert_eq!(summary.processed_elapsed, 6 + 10);
    assert_eq!(summary.cache_hits, 1);
    assert_eq!(summary.cache_misses, 1);
    assert_eq!(summary.cache_writes, 1);
    assert_eq!(summary.compressed_cache_hits, 1);
    assert_eq!(summary.compressed_cache_misses, 1);
    assert_eq!(summary.cache_read_bytes, 100);
    let face = summary.roles[texture_prepare_role_index(TextureRole::Face)];
    assert_eq!(face.images, 1);
    assert_eq!(face.resident_images, 1);
    assert_eq!(face.cache_hits, 1);
    assert_eq!(face.cache_read_bytes, 100);
    let normal = summary.roles[texture_prepare_role_index(TextureRole::Normal)];
    assert_eq!(normal.images, 1);
    assert_eq!(normal.resident_images, 0);
    assert_eq!(normal.compressed_cache_hits, 1);
}
