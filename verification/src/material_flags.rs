use vstd::prelude::*;

verus! {

/// The faces a material culls.
#[derive(Clone, Copy, Debug, PartialEq, Eq, Structural)]
pub enum MaterialCullMode {
    Back,
    Front,
    Off,
}

/// What decides a draw's material flag word: the debug switches of the load options, the
/// material's cull mode, whether it has an occlusion texture, whether skin-tone matching
/// applies to it, whether its source is a lilToon-like material, and its lilToon profile
/// (gem, refraction) and additive colour blend.
#[derive(Clone, Copy, Debug, PartialEq, Eq, Structural)]
pub struct MaterialFlagInputs {
    pub debug_bind_pose: bool,
    pub debug_primitive_colors: bool,
    pub debug_disable_rim_lighting: bool,
    pub debug_force_shading_shift_zero: bool,
    pub debug_disable_matcap: bool,
    pub debug_disable_emissive: bool,
    pub debug_disable_shade_color: bool,
    pub skin_tone_matched: bool,
    pub debug_base_texture_only: bool,
    pub debug_disable_normal_map: bool,
    pub cull_mode: MaterialCullMode,
    pub has_occlusion_texture: bool,
    pub liltoon_source: bool,
    pub gem_profile: bool,
    pub refraction_profile: bool,
    pub additive_blend: bool,
}

/// Flag bit: the material's source is a lilToon-like material.
pub const MAT_UNTOON_LILTOON_SOURCE: u32 = 4096;

/// Flag bit: the material is a lilToon gem.
pub const MAT_UNTOON_GEM_PROFILE: u32 = 8192;

/// Flag bit: the material is a lilToon refraction material.
pub const MAT_UNTOON_REFRACTION_PROFILE: u32 = 16384;

/// Flag bit: the material blends its colour additively.
pub const MAT_UNTOON_ADDITIVE_BLEND: u32 = 32768;

pub open spec fn bit_if(on: bool, bit: int) -> int {
    if on { bit } else { 0 }
}

/// The flag word as the sum of its set bits: 1 bind pose, 2 primitive colours, 4 no rim
/// lighting, 8 zero shading shift, 16 no matcap, 32 no emissive, 64 no shade colour (also set
/// by skin-tone matching), 128 base texture only, 256 no normal map, 512 no culling,
/// 1024 occlusion texture, 2048 front-face culling, 4096 lilToon-like source, then the gem,
/// refraction and additive bits.
pub open spec fn material_flags_spec(f: MaterialFlagInputs) -> int {
    debug_flags_spec(f) + material_kind_flags_spec(f)
}

/// The bits below 512: the debug switches and skin-tone matching.
pub open spec fn debug_flags_spec(f: MaterialFlagInputs) -> int {
    bit_if(f.debug_bind_pose, 1) + bit_if(f.debug_primitive_colors, 2) + bit_if(f.debug_disable_rim_lighting, 4)
        + bit_if(f.debug_force_shading_shift_zero, 8) + bit_if(f.debug_disable_matcap, 16) + bit_if(
        f.debug_disable_emissive,
        32,
    ) + bit_if(f.debug_disable_shade_color || f.skin_tone_matched, 64) + bit_if(f.debug_base_texture_only, 128)
        + bit_if(f.debug_disable_normal_map, 256)
}

/// The bits from 512 up: culling, occlusion and the lilToon source kind.
pub open spec fn material_kind_flags_spec(f: MaterialFlagInputs) -> int {
    bit_if(f.cull_mode == MaterialCullMode::Off, 512) + bit_if(f.has_occlusion_texture, 1024) + bit_if(
        f.cull_mode == MaterialCullMode::Front,
        2048,
    ) + bit_if(f.liltoon_source, 4096) + bit_if(f.gem_profile, 8192) + bit_if(f.refraction_profile, 16384) + bit_if(
        f.additive_blend,
        32768,
    )
}

/// Each switch of the flag word has a bit of its own: bit 0 bind pose, 1 primitive colours,
/// 2 no rim lighting, 3 zero shading shift, 4 no matcap, 5 no emissive, 6 no shade colour or
/// skin-tone matching, 7 base texture only, 8 no normal map, 9 double-sided, 10 occlusion
/// texture, 11 front-face culling, 12 lilToon-like source, 13 gem, 14 refraction, 15 additive
/// blend; the word has no other bits.
#[verifier::rlimit(50)]
pub proof fn lemma_flag_bits(f: MaterialFlagInputs, x: u32)
    requires
        x == material_flags_spec(f),
    ensures
        (x & 1u32 != 0) == (f.debug_bind_pose),
        (x & 2u32 != 0) == (f.debug_primitive_colors),
        (x & 4u32 != 0) == (f.debug_disable_rim_lighting),
        (x & 8u32 != 0) == (f.debug_force_shading_shift_zero),
        (x & 16u32 != 0) == (f.debug_disable_matcap),
        (x & 32u32 != 0) == (f.debug_disable_emissive),
        (x & 64u32 != 0) == (f.debug_disable_shade_color || f.skin_tone_matched),
        (x & 128u32 != 0) == (f.debug_base_texture_only),
        (x & 256u32 != 0) == (f.debug_disable_normal_map),
        (x & 512u32 != 0) == (f.cull_mode == MaterialCullMode::Off),
        (x & 1024u32 != 0) == (f.has_occlusion_texture),
        (x & 2048u32 != 0) == (f.cull_mode == MaterialCullMode::Front),
        (x & 4096u32 != 0) == (f.liltoon_source),
        (x & 8192u32 != 0) == (f.gem_profile),
        (x & 16384u32 != 0) == (f.refraction_profile),
        (x & 32768u32 != 0) == (f.additive_blend),
        x < 65536,
{
    let t1: u32 = if f.debug_bind_pose { 1 } else { 0 };
    let t2: u32 = if f.debug_primitive_colors { 2 } else { 0 };
    let t4: u32 = if f.debug_disable_rim_lighting { 4 } else { 0 };
    let t8: u32 = if f.debug_force_shading_shift_zero { 8 } else { 0 };
    let t16: u32 = if f.debug_disable_matcap { 16 } else { 0 };
    let t32: u32 = if f.debug_disable_emissive { 32 } else { 0 };
    let t64: u32 = if f.debug_disable_shade_color || f.skin_tone_matched { 64 } else { 0 };
    let t128: u32 = if f.debug_base_texture_only { 128 } else { 0 };
    let t256: u32 = if f.debug_disable_normal_map { 256 } else { 0 };
    let t512: u32 = if f.cull_mode == MaterialCullMode::Off { 512 } else { 0 };
    let t1024: u32 = if f.has_occlusion_texture { 1024 } else { 0 };
    let t2048: u32 = if f.cull_mode == MaterialCullMode::Front { 2048 } else { 0 };
    let t4096: u32 = if f.liltoon_source { 4096 } else { 0 };
    let t8192: u32 = if f.gem_profile { 8192 } else { 0 };
    let t16384: u32 = if f.refraction_profile { 16384 } else { 0 };
    let t32768: u32 = if f.additive_blend { 32768 } else { 0 };
    assert(debug_flags_spec(f) == t1 + t2 + t4 + t8 + t16 + t32 + t64 + t128 + t256);
    assert(material_kind_flags_spec(f) == t512 + t1024 + t2048 + t4096 + t8192 + t16384 + t32768);
    assert(((x & 1u32 != 0) == (t1 == 1)) && ((x & 2u32 != 0) == (t2 == 2)) && ((x & 4u32 != 0) == (t4 == 4)) && ((x & 8u32 != 0) == (t8 == 8)) && ((x & 16u32 != 0) == (t16 == 16)) && ((x & 32u32 != 0) == (t32 == 32)) && ((x & 64u32 != 0) == (t64 == 64)) && ((x & 128u32 != 0) == (t128 == 128)) && ((x & 256u32 != 0) == (t256 == 256)) && ((x & 512u32 != 0) == (t512 == 512)) && ((x & 1024u32 != 0) == (t1024 == 1024)) && ((x & 2048u32 != 0) == (t2048 == 2048)) && ((x & 4096u32 != 0) == (t4096 == 4096)) && ((x & 8192u32 != 0) == (t8192 == 8192)) && ((x & 16384u32 != 0) == (t16384 == 16384)) && ((x & 32768u32 != 0) == (t32768 == 32768)) && x < 65536) by (bit_vector)
        requires
            x == t1 + t2 + t4 + t8 + t16 + t32 + t64 + t128 + t256 + t512 + t1024 + t2048 + t4096 + t8192 + t16384 + t32768,
            t1 == 0 || t1 == 1,
            t2 == 0 || t2 == 2,
            t4 == 0 || t4 == 4,
            t8 == 0 || t8 == 8,
            t16 == 0 || t16 == 16,
            t32 == 0 || t32 == 32,
            t64 == 0 || t64 == 64,
            t128 == 0 || t128 == 128,
            t256 == 0 || t256 == 256,
            t512 == 0 || t512 == 512,
            t1024 == 0 || t1024 == 1024,
            t2048 == 0 || t2048 == 2048,
            t4096 == 0 || t4096 == 4096,
            t8192 == 0 || t8192 == 8192,
            t16384 == 0 || t16384 == 16384,
            t32768 == 0 || t32768 == 32768,
    ;
}

/// `bit` when `on`, else no bit.
fn bit_flag(on: bool, bit: u32) -> (r: u32)
    ensures
        r == bit_if(on, bit as int),
{
    if on {
        bit
    } else {
        0
    }
}

/// The cull bits: 512 without culling, 2048 when front faces are culled.
fn cull_flags(cull_mode: MaterialCullMode) -> (r: u32)
    ensures
        r == bit_if(cull_mode == MaterialCullMode::Off, 512) + bit_if(cull_mode == MaterialCullMode::Front, 2048),
{
    match cull_mode {
        MaterialCullMode::Off => 512,
        MaterialCullMode::Front => 2048,
        MaterialCullMode::Back => 0,
    }
}

/// The flag word a draw's material hands the shader.
#[verifier::rlimit(50)]
pub fn material_gpu_flags(f: MaterialFlagInputs) -> (flags: u32)
    ensures
        flags == material_flags_spec(f),
{
    let b1 = bit_flag(f.debug_bind_pose, 1);
    let b2 = bit_flag(f.debug_primitive_colors, 2);
    let b4 = bit_flag(f.debug_disable_rim_lighting, 4);
    let b8 = bit_flag(f.debug_force_shading_shift_zero, 8);
    let b16 = bit_flag(f.debug_disable_matcap, 16);
    let b32 = bit_flag(f.debug_disable_emissive, 32);
    let shade = bit_flag(f.debug_disable_shade_color, 64);
    let skin = bit_flag(f.skin_tone_matched, 64);
    let b128 = bit_flag(f.debug_base_texture_only, 128);
    let b256 = bit_flag(f.debug_disable_normal_map, 256);
    let cull = cull_flags(f.cull_mode);
    let occlusion = bit_flag(f.has_occlusion_texture, 1024);
    let liltoon = bit_flag(f.liltoon_source, MAT_UNTOON_LILTOON_SOURCE);
    let gem = bit_flag(f.gem_profile, MAT_UNTOON_GEM_PROFILE);
    let refraction = bit_flag(f.refraction_profile, MAT_UNTOON_REFRACTION_PROFILE);
    let additive = bit_flag(f.additive_blend, MAT_UNTOON_ADDITIVE_BLEND);
    let low = b1 | b2 | b4 | b8 | b16 | b32 | shade | skin | b128 | b256;
    let high = cull | occlusion | liltoon | gem | refraction | additive;
    let flags = low | high;
    assert(shade | skin == bit_if(f.debug_disable_shade_color || f.skin_tone_matched, 64)) by {
        assert((shade == 0 || shade == 64) && (skin == 0 || skin == 64) ==> (shade | skin == 0 <==> shade == 0 && skin == 0)
            && (shade | skin == 0 || shade | skin == 64)) by (bit_vector);
    }
    assert(low == b1 + b2 + b4 + b8 + b16 + b32 + (shade | skin) + b128 + b256 && low < 512) by (bit_vector)
        requires
            low == b1 | b2 | b4 | b8 | b16 | b32 | shade | skin | b128 | b256,
            b1 == 0 || b1 == 1,
            b2 == 0 || b2 == 2,
            b4 == 0 || b4 == 4,
            b8 == 0 || b8 == 8,
            b16 == 0 || b16 == 16,
            b32 == 0 || b32 == 32,
            shade == 0 || shade == 64,
            skin == 0 || skin == 64,
            b128 == 0 || b128 == 128,
            b256 == 0 || b256 == 256,
    ;
    assert(high == cull + occlusion + liltoon + gem + refraction + additive && high & 511u32 == 0) by (bit_vector)
        requires
            high == cull | occlusion | liltoon | gem | refraction | additive,
            cull == 0 || cull == 512 || cull == 2048,
            occlusion == 0 || occlusion == 1024,
            liltoon == 0 || liltoon == 4096,
            gem == 0 || gem == 8192,
            refraction == 0 || refraction == 16384,
            additive == 0 || additive == 32768,
    ;
    assert(low < 512 && high & 511u32 == 0 ==> low | high == low + high) by (bit_vector);
    assert(low == debug_flags_spec(f));
    assert(high == material_kind_flags_spec(f));
    flags
}


/// How a material blends with what is behind it.
#[derive(Clone, Copy, Debug, PartialEq, Eq, Structural)]
pub enum MaterialAlphaMode {
    Opaque,
    Mask,
    Blend,
}

/// The alpha kind the shader reads (0 opaque, 1 mask, 2 blend) for a material drawn in
/// `mode`; a forced simple base colour or a relaxed iris draws it opaque.
pub open spec fn alpha_kind_spec(mode: MaterialAlphaMode, force_opaque: bool) -> u32 {
    if force_opaque {
        0
    } else {
        match mode {
            MaterialAlphaMode::Opaque => 0,
            MaterialAlphaMode::Mask => 1,
            MaterialAlphaMode::Blend => 2,
        }
    }
}

pub fn material_alpha_kind(mode: MaterialAlphaMode, force_opaque: bool) -> (kind: u32)
    ensures
        kind == alpha_kind_spec(mode, force_opaque),
        (kind == 0) == (force_opaque || mode == MaterialAlphaMode::Opaque),
        (kind == 1) == (!force_opaque && mode == MaterialAlphaMode::Mask),
        (kind == 2) == (!force_opaque && mode == MaterialAlphaMode::Blend),
{
    let effective = if force_opaque {
        MaterialAlphaMode::Opaque
    } else {
        mode
    };
    match effective {
        MaterialAlphaMode::Opaque => 0,
        MaterialAlphaMode::Mask => 1,
        MaterialAlphaMode::Blend => 2,
    }
}

} // verus!
