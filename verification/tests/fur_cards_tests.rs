use un_avatar_render::fur_cards::{
    compute_fur_cards_radical_inverse_bits, fur_sample_count_for_layer, fur_segment_count_for_layer,
    compute_fur_cards_buffer_requirements, compute_fur_cards_dispatch_workgroups, compute_fur_cards_hash_u32,
    compute_fur_cards_source_buffer_requirements, compute_fur_cards_source_triangles_from_indices,
    compute_fur_cards_source_triangles_from_indices_u16, ComputeFurCardsBufferRequirements,
    ComputeFurCardsSourceBufferRequirements, MeshIndexFormat, SceneMeshIndexUpload,
};

#[test]
fn compute_fur_cards_dispatch_workgroups_cover_all_source_triangles() {
    assert_eq!(compute_fur_cards_dispatch_workgroups(0), 0);
    assert_eq!(compute_fur_cards_dispatch_workgroups(1), 1);
    assert_eq!(compute_fur_cards_dispatch_workgroups(64), 1);
    assert_eq!(compute_fur_cards_dispatch_workgroups(65), 2);
}

#[test]
fn compute_fur_cards_dispatch_workgroups_saturate_at_the_top() {
    assert_eq!(compute_fur_cards_dispatch_workgroups(u32::MAX), u32::MAX / 64);
}

#[test]
fn compute_fur_cards_buffer_requirements_use_quad_cards_and_reject_overflow() {
    assert_eq!(
        compute_fur_cards_buffer_requirements(3),
        Some(ComputeFurCardsBufferRequirements {
            card_count: 3,
            vertex_count: 12,
            index_count: 18,
            vertex_bytes: 12 * 80,
            index_bytes: 18 * 4,
        })
    );
    assert_eq!(compute_fur_cards_buffer_requirements(u32::MAX), None);
    assert_eq!(compute_fur_cards_buffer_requirements(u32::MAX / 6 + 1), None);
    assert!(compute_fur_cards_buffer_requirements(u32::MAX / 6).is_some());
}

#[test]
fn compute_fur_cards_source_buffer_requirements_size_vertices_and_triangles() {
    assert_eq!(
        compute_fur_cards_source_buffer_requirements(4, 2),
        Some(ComputeFurCardsSourceBufferRequirements {
            vertex_count: 4,
            triangle_count: 2,
            vertex_bytes: 4 * 112,
            triangle_bytes: 2 * 16,
        })
    );
}

#[test]
fn compute_fur_cards_source_triangles_keep_only_in_range_triples() {
    let indices: Vec<u32> = vec![0, 1, 2, 2, 3, 9, 3, 2, 1, 0, 1];
    let triangles = compute_fur_cards_source_triangles_from_indices(&indices, 4);
    let views: Vec<[u32; 4]> = triangles.iter().map(|t| t.indices).collect();
    assert_eq!(views, vec![[0, 1, 2, 0], [3, 2, 1, 0]]);

    let indices16: Vec<u16> = vec![0, 1, 2, 5, 1, 2];
    let triangles16 = compute_fur_cards_source_triangles_from_indices_u16(&indices16, 3);
    let views16: Vec<[u32; 4]> = triangles16.iter().map(|t| t.indices).collect();
    assert_eq!(views16, vec![[0, 1, 2, 0]]);
}

#[test]
fn scene_mesh_index_upload_sizes_by_index_width() {
    let wide = SceneMeshIndexUpload::from_indices(MeshIndexFormat::Uint32, vec![0, 1, 2, 70000, 1, 2]);
    assert_eq!(wide.len(), 6);
    assert_eq!(wide.buffer_bytes(), 24);
    assert_eq!(wide.source_triangles(3).len(), 1);
    let narrow = SceneMeshIndexUpload::from_indices(MeshIndexFormat::Uint16, vec![0, 1, 2, 65537, 1, 2]);
    assert_eq!(narrow.len(), 6);
    assert_eq!(narrow.buffer_bytes(), 12);
    let triangles = narrow.source_triangles(3);
    assert_eq!(triangles.len(), 2);
    assert_eq!(triangles[1].indices, [1, 1, 2, 0]);
}

fn reference_hash(mut x: u32) -> u32 {
    x ^= x >> 16;
    x = x.wrapping_mul(0x7feb_352d);
    x ^= x >> 15;
    x = x.wrapping_mul(0x846c_a68b);
    x ^ (x >> 16)
}

#[test]
fn compute_fur_cards_hash_is_the_two_round_integer_mix() {
    assert_eq!(compute_fur_cards_hash_u32(0), 0);
    for seed in [1u32, 2, 77, 0xdead_beef, u32::MAX] {
        assert_eq!(compute_fur_cards_hash_u32(seed), reference_hash(seed));
    }
    assert_ne!(compute_fur_cards_hash_u32(1), 1);
}

#[test]
fn fur_sample_counts_follow_the_layer_number() {
    assert_eq!(fur_sample_count_for_layer(1), 4);
    assert_eq!(fur_sample_count_for_layer(2), 7);
    assert_eq!(fur_sample_count_for_layer(3), 13);
    assert_eq!(fur_sample_count_for_layer(0), 13);
    assert_eq!(fur_segment_count_for_layer(1), 3);
    assert_eq!(fur_segment_count_for_layer(3), 12);
}

#[test]
fn radical_inverse_bits_reverse_the_bit_order() {
    assert_eq!(compute_fur_cards_radical_inverse_bits(1), 0x8000_0000);
    assert_eq!(compute_fur_cards_radical_inverse_bits(0), 0);
    for bits in [2u32, 3, 0x1234_5678, 0xdead_beef, u32::MAX, 0x8000_0001] {
        assert_eq!(compute_fur_cards_radical_inverse_bits(bits), bits.reverse_bits());
    }
}

#[test]
fn index_upload_bytes_hold_each_index_in_machine_order() {
    let wide = SceneMeshIndexUpload::from_indices(MeshIndexFormat::Uint32, vec![1, 70000, 3]);
    let expected: Vec<u8> = [1u32, 70000, 3].iter().flat_map(|i| i.to_ne_bytes()).collect();
    assert_eq!(wide.index_bytes(), expected);
    let narrow = SceneMeshIndexUpload::from_indices(MeshIndexFormat::Uint16, vec![1, 70000, 3]);
    let expected: Vec<u8> = [1u16, 70000u32 as u16, 3].iter().flat_map(|i| i.to_ne_bytes()).collect();
    assert_eq!(narrow.index_bytes(), expected);
    assert_eq!(narrow.index_bytes().len() as u64, narrow.buffer_bytes());
}

#[test]
fn fur_hash_gives_distinct_seeds_distinct_hashes() {
    let mut seen: Vec<u32> = (0u32..4096).map(compute_fur_cards_hash_u32).collect();
    seen.extend([u32::MAX, u32::MAX - 1, 1 << 31].map(compute_fur_cards_hash_u32));
    let count = seen.len();
    seen.sort_unstable();
    seen.dedup();
    assert_eq!(seen.len(), count);
}

#[test]
fn index_upload_size_follows_index_width() {
    let indices = vec![7u32, 8, 9, 100000, 3];
    for (format, width) in [(MeshIndexFormat::Uint16, 2u64), (MeshIndexFormat::Uint32, 4u64)] {
        let upload = SceneMeshIndexUpload::from_indices(format, indices.clone());
        assert_eq!(upload.len(), indices.len());
        assert_eq!(upload.buffer_bytes(), indices.len() as u64 * width);
        assert_eq!(upload.index_bytes().len() as u64, indices.len() as u64 * width);
    }
    let empty = SceneMeshIndexUpload::from_indices(MeshIndexFormat::Uint16, Vec::new());
    assert_eq!(empty.len(), 0);
    assert_eq!(empty.buffer_bytes(), 0);
}

#[test]
fn fur_dispatch_saturates_at_the_top_of_u32() {
    // The last count that is still covered exactly.
    assert_eq!(compute_fur_cards_dispatch_workgroups(4_294_967_232), 67_108_863);
    // Above it the rounding saturates, one workgroup short of full coverage.
    assert_eq!(compute_fur_cards_dispatch_workgroups(4_294_967_233), 67_108_863);
    assert_eq!(compute_fur_cards_dispatch_workgroups(u32::MAX), 67_108_863);
}

#[test]
fn index_bytes_hold_each_index_in_machine_order() {
    let narrow = SceneMeshIndexUpload::from_indices(MeshIndexFormat::Uint16, vec![0x0102, 0x0304]);
    let bytes = narrow.index_bytes();
    assert!(bytes == vec![0x02, 0x01, 0x04, 0x03] || bytes == vec![0x01, 0x02, 0x03, 0x04]);
    let expected16: Vec<u8> = [0x0102u16, 0x0304].iter().flat_map(|v| v.to_ne_bytes()).collect();
    assert_eq!(bytes, expected16);
    let wide = SceneMeshIndexUpload::from_indices(MeshIndexFormat::Uint32, vec![0x0102_0304, 5]);
    let bytes = wide.index_bytes();
    assert!(bytes == vec![4, 3, 2, 1, 5, 0, 0, 0] || bytes == vec![1, 2, 3, 4, 0, 0, 0, 5]);
    let expected32: Vec<u8> = [0x0102_0304u32, 5].iter().flat_map(|v| v.to_ne_bytes()).collect();
    assert_eq!(bytes, expected32);
}
