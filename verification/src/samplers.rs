use vstd::prelude::*;

verus! {

/// How a texture's coordinates wrap, as the asset records it.
#[derive(Clone, Copy, Debug, PartialEq, Eq, Structural)]
pub enum TextureWrapMode {
    ClampToEdge,
    MirrorOnce,
    MirroredRepeat,
    Repeat,
}

/// How a texture is filtered, as the asset records it.
#[derive(Clone, Copy, Debug, PartialEq, Eq, Structural)]
pub enum TextureFilterMode {
    Nearest,
    Linear,
}

/// A sampler's addressing of coordinates outside `0..1`.
#[derive(Clone, Copy, Debug, PartialEq, Eq, Structural)]
pub enum AddressMode {
    ClampToEdge,
    Repeat,
    MirrorRepeat,
}

/// A sampler's filtering between texels (and between mip levels).
#[derive(Clone, Copy, Debug, PartialEq, Eq, Structural)]
pub enum FilterMode {
    Nearest,
    Linear,
}

/// A texture sampler as the asset records it.
#[derive(Clone, Copy, Debug, PartialEq, Eq, Structural)]
pub struct TextureSampler {
    pub wrap_s: TextureWrapMode,
    pub wrap_t: TextureWrapMode,
    pub mag_filter: TextureFilterMode,
    pub min_filter: TextureFilterMode,
}

/// The settings a GPU sampler is created with.
#[derive(Clone, Copy, Debug, PartialEq, Eq, Structural)]
pub struct SamplerSettings {
    pub address_mode_u: AddressMode,
    pub address_mode_v: AddressMode,
    pub address_mode_w: AddressMode,
    pub mag_filter: FilterMode,
    pub min_filter: FilterMode,
    pub mipmap_filter: FilterMode,
    pub anisotropy_clamp: u16,
}

pub open spec fn address_mode_spec(mode: TextureWrapMode) -> AddressMode {
    match mode {
        TextureWrapMode::ClampToEdge | TextureWrapMode::MirrorOnce => AddressMode::ClampToEdge,
        TextureWrapMode::MirroredRepeat => AddressMode::MirrorRepeat,
        TextureWrapMode::Repeat => AddressMode::Repeat,
    }
}

pub open spec fn filter_mode_spec(mode: TextureFilterMode) -> FilterMode {
    match mode {
        TextureFilterMode::Nearest => FilterMode::Nearest,
        TextureFilterMode::Linear => FilterMode::Linear,
    }
}

/// The sampler addressing of a wrap mode; mirror-once clamps.
pub fn wgpu_address_mode(mode: TextureWrapMode) -> (m: AddressMode)
    ensures
        m == address_mode_spec(mode),
{
    match mode {
        TextureWrapMode::ClampToEdge | TextureWrapMode::MirrorOnce => AddressMode::ClampToEdge,
        TextureWrapMode::MirroredRepeat => AddressMode::MirrorRepeat,
        TextureWrapMode::Repeat => AddressMode::Repeat,
    }
}

/// The sampler filtering of a filter mode.
pub fn wgpu_filter_mode(mode: TextureFilterMode) -> (m: FilterMode)
    ensures
        m == filter_mode_spec(mode),
{
    match mode {
        TextureFilterMode::Nearest => FilterMode::Nearest,
        TextureFilterMode::Linear => FilterMode::Linear,
    }
}

/// The settings of a mesh texture's sampler: the asset's wrapping in `u` and `v` (clamped in
/// `w`) and its filters, mip levels filtered like minification, and 4x anisotropy when both
/// filters are linear.
pub fn mesh_sampler_settings(sampler: TextureSampler) -> (s: SamplerSettings)
    ensures
        s.address_mode_u == address_mode_spec(sampler.wrap_s),
        s.address_mode_v == address_mode_spec(sampler.wrap_t),
        s.address_mode_w == AddressMode::ClampToEdge,
        s.mag_filter == filter_mode_spec(sampler.mag_filter),
        s.min_filter == filter_mode_spec(sampler.min_filter),
        s.mipmap_filter == filter_mode_spec(sampler.min_filter),
        s.anisotropy_clamp == if s.mag_filter == FilterMode::Linear && s.min_filter == FilterMode::Linear {
            4u16
        } else {
            1u16
        },
{
    let mag_filter = wgpu_filter_mode(sampler.mag_filter);
    let min_filter = wgpu_filter_mode(sampler.min_filter);
    let linear = match (mag_filter, min_filter) {
        (FilterMode::Linear, FilterMode::Linear) => true,
        _ => false,
    };
    SamplerSettings {
        address_mode_u: wgpu_address_mode(sampler.wrap_s),
        address_mode_v: wgpu_address_mode(sampler.wrap_t),
        address_mode_w: AddressMode::ClampToEdge,
        mag_filter,
        min_filter,
        mipmap_filter: match sampler.min_filter {
            TextureFilterMode::Nearest => FilterMode::Nearest,
            TextureFilterMode::Linear => FilterMode::Linear,
        },
        anisotropy_clamp: if linear { 4 } else { 1 },
    }
}

/// The sampler of lilToon's reflection cube: repeating, linear everywhere, 4x anisotropy.
pub fn liltoon_reflection_cube_sampler_settings() -> (s: SamplerSettings)
    ensures
        s == (SamplerSettings {
            address_mode_u: AddressMode::Repeat,
            address_mode_v: AddressMode::Repeat,
            address_mode_w: AddressMode::Repeat,
            mag_filter: FilterMode::Linear,
            min_filter: FilterMode::Linear,
            mipmap_filter: FilterMode::Linear,
            anisotropy_clamp: 4,
        }),
{
    SamplerSettings {
        address_mode_u: AddressMode::Repeat,
        address_mode_v: AddressMode::Repeat,
        address_mode_w: AddressMode::Repeat,
        mag_filter: FilterMode::Linear,
        min_filter: FilterMode::Linear,
        mipmap_filter: FilterMode::Linear,
        anisotropy_clamp: 4,
    }
}

} // verus!
