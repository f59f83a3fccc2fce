use un_avatar_render::cube_cache::{cube_cache_hash_update, CubeSourceLayout, CUBE_CACHE_FNV64_OFFSET};
use un_avatar_render::image_source::{
    cube_source_layout, cube_texture_cache_key, is_deferred_scene_image_placeholder, rgba_upload_uses_linear_format,
    scene_image_source_dimensions, source_has_lazy_encoded_bytes, texture_source_is_cube, texture_source_is_srgb,
    ImageSourceMetadata,
    decode_encoded_source_image, encoded_bytes_source, keep_rgba_pixels, DecodedRgbaImage, payload_texture_format, EncodedBytesSource, TextureFormat,
};
use un_avatar_render::texture_summary::{TextureRole, TextureUploadKind};

fn empty_source_metadata() -> ImageSourceMetadata {
    ImageSourceMetadata {
        mime_type: None,
        uri: None,
        color_space: None,
        texture_shape: None,
        source_layout: None,
        unity_generate_cubemap: None,
        srgb: None,
        width: None,
        height: None,
        byte_offset: None,
        byte_length: 0,
        source_hash: 0,
        has_source_file_path: false,
        has_encoded_bytes: false,
    }
}

#[test]
fn linear_source_metadata_uses_linear_rgba_upload_format() {
    let source = ImageSourceMetadata {
        color_space: Some("linear".to_string()),
        srgb: Some(false),
        byte_length: 1,
        source_hash: 1,
        ..empty_source_metadata()
    };
    assert!(rgba_upload_uses_linear_format(TextureRole::GenericColor, Some(&source)));
    assert!(rgba_upload_uses_linear_format(TextureRole::Data, None));
    assert!(!rgba_upload_uses_linear_format(TextureRole::GenericColor, None));
}

#[test]
fn data_role_respects_source_srgb_upload_format() {
    let source = ImageSourceMetadata {
        color_space: Some("srgb".to_string()),
        srgb: Some(true),
        byte_length: 1,
        source_hash: 1,
        ..empty_source_metadata()
    };
    assert!(!rgba_upload_uses_linear_format(TextureRole::Data, Some(&source)));
    assert!(rgba_upload_uses_linear_format(TextureRole::Normal, Some(&source)));
}

#[test]
fn cubemap_source_color_space_overrides_importer_srgb_flag() {
    let linear_source = ImageSourceMetadata {
        color_space: Some("linear".to_string()),
        srgb: Some(true),
        ..empty_source_metadata()
    };
    let srgb_source = ImageSourceMetadata {
        color_space: Some("srgb".to_string()),
        srgb: Some(false),
        ..empty_source_metadata()
    };
    let legacy_srgb_source = ImageSourceMetadata { srgb: Some(true), ..empty_source_metadata() };
    assert!(!texture_source_is_srgb(Some(&linear_source)));
    assert!(texture_source_is_srgb(Some(&srgb_source)));
    assert!(texture_source_is_srgb(Some(&legacy_srgb_source)));
}

#[test]
fn cubemap_source_layout_detects_common_unity_layouts() {
    let cube_source = ImageSourceMetadata { texture_shape: Some("TextureCube".to_string()), ..empty_source_metadata() };
    assert_eq!(cube_source_layout(1024, 512, Some(&cube_source)), Some((CubeSourceLayout::Latlong, 256)));
    assert_eq!(cube_source_layout(1536, 256, Some(&cube_source)), Some((CubeSourceLayout::HorizontalStrip, 256)));
    assert_eq!(cube_source_layout(256, 1536, Some(&cube_source)), Some((CubeSourceLayout::VerticalStrip, 256)));
    assert_eq!(cube_source_layout(1024, 768, Some(&cube_source)), Some((CubeSourceLayout::HorizontalCross, 256)));
    assert_eq!(cube_source_layout(768, 1024, Some(&cube_source)), Some((CubeSourceLayout::VerticalCross, 256)));
}

#[test]
fn cubemap_source_layout_uses_metadata_dimensions_for_deferred_placeholder() {
    let cube_source = ImageSourceMetadata {
        texture_shape: Some("TextureCube".to_string()),
        width: Some(1024),
        height: Some(512),
        ..empty_source_metadata()
    };
    assert!(is_deferred_scene_image_placeholder(0, 0, 0));
    assert_eq!(cube_source_layout(0, 0, Some(&cube_source)), Some((CubeSourceLayout::Latlong, 256)));
}

#[test]
fn cubemap_source_layout_prefers_hints_and_rejects_flat_textures() {
    let hinted = ImageSourceMetadata {
        texture_shape: Some("cube".to_string()),
        source_layout: Some("Sphere".to_string()),
        ..empty_source_metadata()
    };
    assert_eq!(cube_source_layout(1000, 600, Some(&hinted)), Some((CubeSourceLayout::SphereMap, 600)));
    assert_eq!(cube_source_layout(1024, 512, Some(&hinted)), Some((CubeSourceLayout::Latlong, 256)));
    let unity_auto = ImageSourceMetadata {
        texture_shape: Some("Cube".to_string()),
        source_layout: Some("UNITY_AUTO".to_string()),
        ..empty_source_metadata()
    };
    assert_eq!(cube_source_layout(100, 30, Some(&unity_auto)), Some((CubeSourceLayout::SphereMap, 30)));
    let flat = ImageSourceMetadata { texture_shape: Some("Texture2D".to_string()), ..empty_source_metadata() };
    assert!(!texture_source_is_cube(Some(&flat)));
    assert_eq!(cube_source_layout(1024, 512, Some(&flat)), None);
    assert_eq!(cube_source_layout(1024, 512, None), None);
    let odd = ImageSourceMetadata { texture_shape: Some("TextureCube".to_string()), ..empty_source_metadata() };
    assert_eq!(cube_source_layout(100, 30, Some(&odd)), None);
}

#[test]
fn source_dimensions_fall_back_to_metadata_then_one() {
    let with_size = ImageSourceMetadata { width: Some(40), height: Some(20), ..empty_source_metadata() };
    assert_eq!(scene_image_source_dimensions(8, 4, Some(&with_size)), (8, 4));
    assert_eq!(scene_image_source_dimensions(0, 4, Some(&with_size)), (40, 20));
    assert_eq!(scene_image_source_dimensions(0, 4, None), (1, 4));
    let half = ImageSourceMetadata { width: Some(40), ..empty_source_metadata() };
    assert_eq!(scene_image_source_dimensions(0, 0, Some(&half)), (1, 1));
}

#[test]
fn lazy_encoded_bytes_need_bytes_or_a_located_file_slice() {
    assert!(!source_has_lazy_encoded_bytes(&empty_source_metadata()));
    assert!(source_has_lazy_encoded_bytes(&ImageSourceMetadata { has_encoded_bytes: true, ..empty_source_metadata() }));
    let located = ImageSourceMetadata {
        has_source_file_path: true,
        byte_offset: Some(16),
        byte_length: 100,
        ..empty_source_metadata()
    };
    assert!(source_has_lazy_encoded_bytes(&located));
    assert!(!source_has_lazy_encoded_bytes(&ImageSourceMetadata { byte_length: 0, ..located }));
}

#[test]
fn cube_cache_key_hashes_the_key_material() {
    let source = ImageSourceMetadata {
        mime_type: Some("image/png".to_string()),
        texture_shape: Some("TextureCube".to_string()),
        byte_length: 10,
        source_hash: 99,
        ..empty_source_metadata()
    };
    let mut material: Vec<u8> = b"un-avatar-cube-texture-cache".to_vec();
    material.extend_from_slice(&1u64.to_le_bytes());
    material.extend_from_slice(&64u32.to_le_bytes());
    material.extend_from_slice(&32u32.to_le_bytes());
    material.extend_from_slice(&16u32.to_le_bytes());
    material.extend_from_slice(&[1, 1]);
    material.extend_from_slice(&10u64.to_le_bytes());
    material.extend_from_slice(&99u64.to_le_bytes());
    material.extend_from_slice(b"image/png\0");
    material.extend_from_slice(b"TextureCube\0");
    let expected = cube_cache_hash_update(CUBE_CACHE_FNV64_OFFSET, &material);
    assert_eq!(cube_texture_cache_key(64, 32, &source, CubeSourceLayout::Latlong, 16, true), expected);
    assert_ne!(
        cube_texture_cache_key(64, 32, &source, CubeSourceLayout::Latlong, 16, false),
        cube_texture_cache_key(64, 32, &source, CubeSourceLayout::Latlong, 16, true)
    );
}

#[test]
fn encoded_bytes_come_from_memory_or_the_recorded_file_range() {
    let kept = ImageSourceMetadata { has_encoded_bytes: true, has_source_file_path: true, ..empty_source_metadata() };
    assert_eq!(encoded_bytes_source(&kept), EncodedBytesSource::InMemory);
    let ranged = ImageSourceMetadata {
        has_source_file_path: true,
        byte_offset: Some(40),
        byte_length: 12,
        ..empty_source_metadata()
    };
    assert_eq!(encoded_bytes_source(&ranged), EncodedBytesSource::FileRange { offset: 40, len: 12 });
    let no_offset = ImageSourceMetadata { has_source_file_path: true, byte_length: 12, ..empty_source_metadata() };
    assert_eq!(encoded_bytes_source(&no_offset), EncodedBytesSource::Unavailable);
    assert_eq!(encoded_bytes_source(&empty_source_metadata()), EncodedBytesSource::Unavailable);
}

#[test]
fn encoded_images_decode_to_rgba8() {
    let mut source = image::RgbImage::new(3, 2);
    source.put_pixel(1, 1, image::Rgb([10, 20, 30]));
    let mut png: Vec<u8> = Vec::new();
    image::DynamicImage::ImageRgb8(source)
        .write_to(&mut std::io::Cursor::new(&mut png), image::ImageFormat::Png)
        .unwrap();
    let decoded = decode_encoded_source_image(&png).unwrap();
    assert_eq!((decoded.width, decoded.height), (3, 2));
    assert_eq!(decoded.pixels.len(), 3 * 2 * 4);
    assert_eq!(&decoded.pixels[16..20], &[10, 20, 30, 255]);
    assert!(decode_encoded_source_image(b"not an image").is_none());
    assert!(decode_encoded_source_image(&[]).is_none());
}

#[test]
fn payload_formats_follow_the_upload_kind_and_color_space() {
    let linear = ImageSourceMetadata { srgb: Some(false), ..empty_source_metadata() };
    assert_eq!(payload_texture_format(TextureUploadKind::Rgba, TextureRole::GenericColor, Some(&linear)), TextureFormat::Rgba8Unorm);
    assert_eq!(payload_texture_format(TextureUploadKind::Rgba, TextureRole::GenericColor, None), TextureFormat::Rgba8UnormSrgb);
    assert_eq!(payload_texture_format(TextureUploadKind::Rgba, TextureRole::Normal, None), TextureFormat::Rgba8Unorm);
    assert_eq!(payload_texture_format(TextureUploadKind::Bc1Srgb, TextureRole::Normal, None), TextureFormat::Bc1RgbaUnormSrgb);
    assert_eq!(payload_texture_format(TextureUploadKind::Bc5Unorm, TextureRole::GenericColor, None), TextureFormat::Bc5RgUnorm);
    assert_eq!(payload_texture_format(TextureUploadKind::Bc7Unorm, TextureRole::GenericColor, None), TextureFormat::Bc7RgbaUnorm);
    assert_eq!(payload_texture_format(TextureUploadKind::Bc7Srgb, TextureRole::GenericColor, None), TextureFormat::Bc7RgbaUnormSrgb);
}

#[test]
fn keep_rgba_pixels_drops_bytes_past_the_last_pixel() {
    let img = DecodedRgbaImage { width: 2, height: 1, pixels: (1u8..=11).collect() };
    let kept = keep_rgba_pixels(img);
    assert_eq!((kept.width, kept.height), (2, 1));
    assert_eq!(kept.pixels, vec![1, 2, 3, 4, 5, 6, 7, 8]);
    let exact = keep_rgba_pixels(DecodedRgbaImage { width: 1, height: 1, pixels: vec![9, 8, 7, 6] });
    assert_eq!(exact.pixels, vec![9, 8, 7, 6]);
    let empty = keep_rgba_pixels(DecodedRgbaImage { width: 0, height: 5, pixels: vec![1, 2] });
    assert!(empty.pixels.is_empty());
}
