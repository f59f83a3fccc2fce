use un_avatar_render::cube_cache::{
    cube_downsample_tap, cube_mip_face_sizes,
    cube_cache_hash_update, cube_read_exact_array, cube_read_u32_le, cube_read_u64_le, cube_texture_cache_file_name,
    cube_texture_cache_path, cube_write_u32_le, cube_write_u64_le, estimated_cube_upload_mip_bytes,
    read_cube_texture_cache, write_cube_texture_cache, CubeMipUpload, CubeSourceLayout, CubeUpload,
    CUBE_CACHE_FNV64_OFFSET,
};

/// Six RGBA16F faces of `face` texels filled with (1.0, 0.5, 0.25, 1.0).
fn uniform_mip(face: u32) -> CubeMipUpload {
    let texel = [0x00u8, 0x3c, 0x00, 0x38, 0x00, 0x34, 0x00, 0x3c];
    let mut data = Vec::new();
    for _ in 0..(face * face * 6) {
        data.extend_from_slice(&texel);
    }
    CubeMipUpload { face_size: face, data_rgba16f: data }
}

#[test]
fn cubemap_cache_roundtrips_upload_mips() {
    let key = 0x1234_5678_9abc_def0;
    let upload = CubeUpload {
        face_size: 2,
        mips: vec![uniform_mip(2), uniform_mip(1)],
        layout: CubeSourceLayout::HorizontalStrip.name(),
    };

    let mut file = Vec::new();
    write_cube_texture_cache(&mut file, key, CubeSourceLayout::HorizontalStrip, &upload);
    let loaded = read_cube_texture_cache(&file, key).expect("cubemap cache should load");

    assert_eq!(loaded.face_size, upload.face_size);
    assert_eq!(loaded.layout, upload.layout);
    assert_eq!(loaded.mips.len(), upload.mips.len());
    assert_eq!(loaded.mips[0].data_rgba16f, upload.mips[0].data_rgba16f);
}

#[test]
fn cube_cache_rejects_other_keys_and_damaged_files() {
    let upload = CubeUpload { face_size: 1, mips: vec![uniform_mip(1)], layout: CubeSourceLayout::Latlong.name() };
    let mut file = Vec::new();
    write_cube_texture_cache(&mut file, 7, CubeSourceLayout::Latlong, &upload);
    assert_eq!(file.len(), 25 + 12 + 48);
    assert_eq!(&file[0..8], b"UNACUB1\0");
    assert!(read_cube_texture_cache(&file, 7).is_some());
    assert!(read_cube_texture_cache(&file, 8).is_none());
    assert!(read_cube_texture_cache(&file[..file.len() - 1], 7).is_none());
    let mut bad_tag = file.clone();
    bad_tag[20] = 9;
    assert!(read_cube_texture_cache(&bad_tag, 7).is_none());
    let mut bad_len = file.clone();
    bad_len[29] = 47;
    assert!(read_cube_texture_cache(&bad_len, 7).is_none());
    let mut no_mips = file.clone();
    no_mips[21] = 0;
    assert!(read_cube_texture_cache(&no_mips, 7).is_none());
    let mut trailing = file.clone();
    trailing.push(0xff);
    assert!(read_cube_texture_cache(&trailing, 7).is_some());
}

#[test]
fn cube_cache_reads_zero_face_size_as_one() {
    let upload = CubeUpload { face_size: 0, mips: vec![uniform_mip(1)], layout: CubeSourceLayout::SphereMap.name() };
    let mut file = Vec::new();
    write_cube_texture_cache(&mut file, 1, CubeSourceLayout::SphereMap, &upload);
    let loaded = read_cube_texture_cache(&file, 1).expect("loads");
    assert_eq!(loaded.face_size, 1);
    assert_eq!(loaded.layout, "sphere_map");
}

#[test]
fn cube_layout_tags_roundtrip() {
    let layouts = [
        CubeSourceLayout::Latlong,
        CubeSourceLayout::SphereMap,
        CubeSourceLayout::HorizontalStrip,
        CubeSourceLayout::VerticalStrip,
        CubeSourceLayout::HorizontalCross,
        CubeSourceLayout::VerticalCross,
    ];
    let names = ["latlong", "sphere_map", "horizontal_strip", "vertical_strip", "horizontal_cross", "vertical_cross"];
    for (i, layout) in layouts.iter().enumerate() {
        assert_eq!(layout.cache_tag() as usize, i + 1);
        assert_eq!(CubeSourceLayout::from_cache_tag(layout.cache_tag()), Some(*layout));
        assert_eq!(layout.name(), names[i]);
    }
    assert_eq!(CubeSourceLayout::from_cache_tag(0), None);
    assert_eq!(CubeSourceLayout::from_cache_tag(7), None);
}

#[test]
fn fnv_hash_matches_known_vectors_and_streams() {
    assert_eq!(cube_cache_hash_update(CUBE_CACHE_FNV64_OFFSET, b""), 0xcbf2_9ce4_8422_2325);
    assert_eq!(cube_cache_hash_update(CUBE_CACHE_FNV64_OFFSET, b"a"), 0xaf63_dc4c_8601_ec8c);
    assert_eq!(cube_cache_hash_update(CUBE_CACHE_FNV64_OFFSET, b"foobar"), 0x8594_4171_f739_67e8);
    let split = cube_cache_hash_update(cube_cache_hash_update(CUBE_CACHE_FNV64_OFFSET, b"foo"), b"bar");
    assert_eq!(split, cube_cache_hash_update(CUBE_CACHE_FNV64_OFFSET, b"foobar"));
}

#[test]
fn little_endian_numbers_roundtrip() {
    let mut out = Vec::new();
    cube_write_u32_le(&mut out, 0x0102_0304);
    cube_write_u64_le(&mut out, 0x1122_3344_5566_7788);
    assert_eq!(out, vec![4, 3, 2, 1, 0x88, 0x77, 0x66, 0x55, 0x44, 0x33, 0x22, 0x11]);
    let mut pos = 0usize;
    assert_eq!(cube_read_u32_le(&out, &mut pos), Some(0x0102_0304));
    assert_eq!(pos, 4);
    assert_eq!(cube_read_u64_le(&out, &mut pos), Some(0x1122_3344_5566_7788));
    assert_eq!(pos, 12);
    assert_eq!(cube_read_u32_le(&out, &mut pos), None);
    assert_eq!(pos, 12);
    let mut pos2 = 2usize;
    assert_eq!(cube_read_exact_array(&out, &mut pos2, 3), Some(vec![2, 1, 0x88]));
    assert_eq!(pos2, 5);
    assert_eq!(cube_read_exact_array(&out, &mut pos2, 8), None);
}

#[test]
fn estimated_cube_mip_bytes_sum_the_chain() {
    assert_eq!(estimated_cube_upload_mip_bytes(0), 48);
    assert_eq!(estimated_cube_upload_mip_bytes(1), 48);
    assert_eq!(estimated_cube_upload_mip_bytes(2), 4 * 48 + 48);
    assert_eq!(estimated_cube_upload_mip_bytes(5), (25 + 4 + 1) * 48);
    assert_eq!(estimated_cube_upload_mip_bytes(256), (65536 + 16384 + 4096 + 1024 + 256 + 64 + 16 + 4 + 1) * 48);
}

#[test]
fn cube_cache_file_names_use_sixteen_hex_digits() {
    assert_eq!(cube_texture_cache_file_name(0x1234_5678_9abc_def0), "123456789abcdef0.ucube");
    assert_eq!(cube_texture_cache_file_name(255), "00000000000000ff.ucube");
    assert_eq!(cube_texture_cache_path(None, 1), None);
    assert_eq!(cube_texture_cache_path(Some("/tmp/cache"), 1), Some("/tmp/cache/0000000000000001.ucube".to_string()));
    assert_eq!(cube_texture_cache_path(Some("/tmp/cache/"), 1), Some("/tmp/cache/0000000000000001.ucube".to_string()));
    assert_eq!(cube_texture_cache_path(Some(""), 1), Some("0000000000000001.ucube".to_string()));
}

#[test]
fn cube_mip_chains_halve_down_to_one() {
    assert_eq!(cube_mip_face_sizes(0), vec![1]);
    assert_eq!(cube_mip_face_sizes(1), vec![1]);
    assert_eq!(cube_mip_face_sizes(2), vec![2, 1]);
    assert_eq!(cube_mip_face_sizes(5), vec![5, 2, 1]);
    assert_eq!(cube_mip_face_sizes(256).len(), 9);
}

#[test]
fn cube_downsample_taps_stay_in_their_face() {
    assert_eq!(cube_downsample_tap(0, 0, 0, 0, 0, 4), 0);
    assert_eq!(cube_downsample_tap(0, 1, 1, 1, 1, 4), 3 * 4 + 3);
    assert_eq!(cube_downsample_tap(2, 0, 1, 1, 0, 4), 2 * 16 + 2 * 4 + 1);
    assert_eq!(cube_downsample_tap(5, 0, 0, 1, 1, 1), 5);
    assert_eq!(cube_downsample_tap(1, 2, 2, 1, 1, 5), 25 + 4 * 5 + 4);
}
