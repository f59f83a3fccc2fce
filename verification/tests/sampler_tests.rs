use un_avatar_render::samplers::{
    liltoon_reflection_cube_sampler_settings, mesh_sampler_settings, wgpu_address_mode, wgpu_filter_mode, AddressMode,
    FilterMode, TextureFilterMode, TextureSampler, TextureWrapMode,
};

#[test]
fn mesh_sampler_metadata_maps_to_wgpu_modes() {
    assert_eq!(wgpu_address_mode(TextureWrapMode::ClampToEdge), AddressMode::ClampToEdge);
    assert_eq!(wgpu_address_mode(TextureWrapMode::MirrorOnce), AddressMode::ClampToEdge);
    assert_eq!(wgpu_address_mode(TextureWrapMode::MirroredRepeat), AddressMode::MirrorRepeat);
    assert_eq!(wgpu_address_mode(TextureWrapMode::Repeat), AddressMode::Repeat);
    assert_eq!(wgpu_filter_mode(TextureFilterMode::Nearest), FilterMode::Nearest);
    assert_eq!(wgpu_filter_mode(TextureFilterMode::Linear), FilterMode::Linear);
}

#[test]
fn liltoon_reflection_cube_sampler_matches_linear_repeat() {
    let desc = liltoon_reflection_cube_sampler_settings();
    assert_eq!(desc.address_mode_u, AddressMode::Repeat);
    assert_eq!(desc.address_mode_v, AddressMode::Repeat);
    assert_eq!(desc.address_mode_w, AddressMode::Repeat);
    assert_eq!(desc.mag_filter, FilterMode::Linear);
    assert_eq!(desc.min_filter, FilterMode::Linear);
    assert_eq!(desc.mipmap_filter, FilterMode::Linear);
}

#[test]
fn mesh_samplers_use_anisotropy_only_when_fully_linear() {
    let linear = TextureSampler {
        wrap_s: TextureWrapMode::Repeat,
        wrap_t: TextureWrapMode::MirroredRepeat,
        mag_filter: TextureFilterMode::Linear,
        min_filter: TextureFilterMode::Linear,
    };
    let s = mesh_sampler_settings(linear);
    assert_eq!((s.address_mode_u, s.address_mode_v, s.address_mode_w), (AddressMode::Repeat, AddressMode::MirrorRepeat, AddressMode::ClampToEdge));
    assert_eq!(s.anisotropy_clamp, 4);
    assert_eq!(s.mipmap_filter, FilterMode::Linear);
    let pixel = mesh_sampler_settings(TextureSampler { min_filter: TextureFilterMode::Nearest, ..linear });
    assert_eq!(pixel.anisotropy_clamp, 1);
    assert_eq!(pixel.mipmap_filter, FilterMode::Nearest);
}
