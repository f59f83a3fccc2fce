use vstd::prelude::*;
use crate::material_textures::{group_textures, slot_textures, MaterialTextureSlotGroup};

verus! {

/// The MToon texture slots of a material, with its reflection cube.
#[derive(Clone, Copy, Debug, Default)]
pub struct MtoonTextureSlots {
    pub shade_multiply: Option<usize>,
    pub shading_shift: Option<usize>,
    pub matcap: Option<usize>,
    pub rim_multiply: Option<usize>,
    pub outline_width_multiply: Option<usize>,
    pub uv_animation_mask: Option<usize>,
    pub reflection_cube: Option<usize>,
}

/// The lilToon texture slots of a material. Each `_enabled` flag says whether the feature
/// that samples the slots after it is switched on for the material; `reflection_cube_used`
/// says whether the reflection samples its cube texture.
#[derive(Clone, Copy, Debug, Default)]
pub struct LiltoonTextureSlots {
    pub main_color_adjust_enabled: bool,
    pub main_color_adjust_mask: Option<usize>,
    pub gradation_enabled: bool,
    pub gradation: Option<usize>,
    pub second_main_enabled: bool,
    pub second_main: Option<usize>,
    pub second_main_blend_mask: Option<usize>,
    pub second_main_dissolve_mask: Option<usize>,
    pub second_main_dissolve_noise_mask: Option<usize>,
    pub third_main_enabled: bool,
    pub third_main: Option<usize>,
    pub third_main_blend_mask: Option<usize>,
    pub third_main_dissolve_mask: Option<usize>,
    pub third_main_dissolve_noise_mask: Option<usize>,
    pub shadow_enabled: bool,
    pub shadow_color: Option<usize>,
    pub shadow_strength_mask: Option<usize>,
    pub shadow_border_mask: Option<usize>,
    pub shadow_blur_mask: Option<usize>,
    pub shadow_second_color: Option<usize>,
    pub shadow_third_color: Option<usize>,
    pub second_normal_enabled: bool,
    pub second_normal: Option<usize>,
    pub second_normal_scale_mask: Option<usize>,
    pub matcap_enabled: bool,
    pub matcap: Option<usize>,
    pub matcap_blend_mask: Option<usize>,
    pub matcap_bump: Option<usize>,
    pub second_matcap_enabled: bool,
    pub second_matcap: Option<usize>,
    pub second_matcap_blend_mask: Option<usize>,
    pub second_matcap_bump: Option<usize>,
    pub reflection_enabled: bool,
    pub reflection_metallic: Option<usize>,
    pub reflection_color: Option<usize>,
    pub reflection_smoothness: Option<usize>,
    pub anisotropy_enabled: bool,
    pub anisotropy_tangent: Option<usize>,
    pub anisotropy_scale_mask: Option<usize>,
    pub anisotropy_shift_noise_mask: Option<usize>,
    pub rim_enabled: bool,
    pub rim: Option<usize>,
    pub rim_shade_enabled: bool,
    pub rim_shade_mask: Option<usize>,
    pub emission_enabled: bool,
    pub emission: Option<usize>,
    pub emission_blend_mask: Option<usize>,
    pub emission_gradation_enabled: bool,
    pub emission_gradation: Option<usize>,
    pub second_emission_enabled: bool,
    pub second_emission: Option<usize>,
    pub second_emission_blend_mask: Option<usize>,
    pub second_emission_gradation_enabled: bool,
    pub second_emission_gradation: Option<usize>,
    pub alpha_mask_enabled: bool,
    pub alpha_mask: Option<usize>,
    pub audio_link_enabled: bool,
    pub audio_link_mask: Option<usize>,
    pub audio_link_local_map: Option<usize>,
    pub outline_enabled: bool,
    pub outline: Option<usize>,
    pub outline_width_mask: Option<usize>,
    pub backlight_enabled: bool,
    pub backlight: Option<usize>,
    pub glitter_enabled: bool,
    pub glitter_color: Option<usize>,
    pub glitter_shape: Option<usize>,
    pub dissolve_enabled: bool,
    pub dissolve_mask: Option<usize>,
    pub dissolve_noise_mask: Option<usize>,
    pub parallax_enabled: bool,
    pub parallax: Option<usize>,
    pub fur_enabled: bool,
    pub fur_vector: Option<usize>,
    pub fur_length_mask: Option<usize>,
    pub fur_noise_mask: Option<usize>,
    pub fur_mask: Option<usize>,
    pub reflection_cube_used: bool,
    pub reflection_cube: Option<usize>,
}

/// The texture slots of a material: its PBR slots, and its MToon or lilToon slots where the
/// material is shaded that way.
#[derive(Clone, Copy, Debug, Default)]
pub struct MaterialTextureSlots {
    pub base_color: Option<usize>,
    pub normal: Option<usize>,
    pub occlusion: Option<usize>,
    pub emissive: Option<usize>,
    pub mtoon: Option<MtoonTextureSlots>,
    pub liltoon: Option<LiltoonTextureSlots>,
}

/// A slot group as a plain value: whether it is enabled, and its slots.
pub open spec fn group_view(g: MaterialTextureSlotGroup) -> (bool, Seq<Option<usize>>) {
    (g.enabled, g.texture_indices@)
}

pub open spec fn groups_view(groups: Seq<MaterialTextureSlotGroup>) -> Seq<(bool, Seq<Option<usize>>)> {
    groups.map_values(|g: MaterialTextureSlotGroup| group_view(g))
}

/// lilToon slot groups: main color, gradation, second and third main colors, shadow, second normal.
#[verifier::opaque]
pub open spec fn liltoon_main_groups(l: LiltoonTextureSlots) -> Seq<(bool, Seq<Option<usize>>)> {
    seq![
        (l.main_color_adjust_enabled, seq![l.main_color_adjust_mask]),
        (l.gradation_enabled, seq![l.gradation]),
        (l.second_main_enabled, seq![l.second_main, l.second_main_blend_mask, l.second_main_dissolve_mask, l.second_main_dissolve_noise_mask]),
        (l.third_main_enabled, seq![l.third_main, l.third_main_blend_mask, l.third_main_dissolve_mask, l.third_main_dissolve_noise_mask]),
        (l.shadow_enabled, seq![l.shadow_color, l.shadow_strength_mask, l.shadow_border_mask, l.shadow_blur_mask, l.shadow_second_color, l.shadow_third_color]),
        (l.second_normal_enabled, seq![l.second_normal, l.second_normal_scale_mask]),
    ]
}

/// lilToon slot groups: matcaps, reflection, anisotropy, rim, rim shade.
#[verifier::opaque]
pub open spec fn liltoon_surface_groups(l: LiltoonTextureSlots) -> Seq<(bool, Seq<Option<usize>>)> {
    seq![
        (l.matcap_enabled, seq![l.matcap, l.matcap_blend_mask, l.matcap_bump]),
        (l.second_matcap_enabled, seq![l.second_matcap, l.second_matcap_blend_mask, l.second_matcap_bump]),
        (l.reflection_enabled, seq![l.reflection_metallic, l.reflection_color, l.reflection_smoothness]),
        (l.anisotropy_enabled, seq![l.anisotropy_tangent, l.anisotropy_scale_mask, l.anisotropy_shift_noise_mask]),
        (l.rim_enabled, seq![l.rim]),
        (l.rim_shade_enabled, seq![l.rim_shade_mask]),
    ]
}

/// lilToon slot groups: emissions and their gradations, alpha mask, audio link.
#[verifier::opaque]
pub open spec fn liltoon_light_groups(l: LiltoonTextureSlots) -> Seq<(bool, Seq<Option<usize>>)> {
    seq![
        (l.emission_enabled, seq![l.emission, l.emission_blend_mask]),
        (l.emission_enabled && l.emission_gradation_enabled, seq![l.emission_gradation]),
        (l.second_emission_enabled, seq![l.second_emission, l.second_emission_blend_mask]),
        (l.second_emission_enabled && l.second_emission_gradation_enabled, seq![l.second_emission_gradation]),
        (l.alpha_mask_enabled, seq![l.alpha_mask]),
        (l.audio_link_enabled, seq![l.audio_link_mask, l.audio_link_local_map]),
    ]
}

/// lilToon slot groups: outline, backlight, glitter, dissolve, parallax, fur.
#[verifier::opaque]
pub open spec fn liltoon_extra_groups(l: LiltoonTextureSlots) -> Seq<(bool, Seq<Option<usize>>)> {
    seq![
        (l.outline_enabled, seq![l.outline, l.outline_width_mask]),
        (l.backlight_enabled, seq![l.backlight]),
        (l.glitter_enabled, seq![l.glitter_color, l.glitter_shape]),
        (l.dissolve_enabled, seq![l.dissolve_mask, l.dissolve_noise_mask]),
        (l.parallax_enabled, seq![l.parallax]),
        (l.fur_enabled, seq![l.fur_vector, l.fur_length_mask, l.fur_noise_mask, l.fur_mask]),
    ]
}

/// The lilToon slot groups, one per feature, each enabled with its feature; the emission
/// gradations need their emission as well.
pub open spec fn liltoon_slot_groups(l: LiltoonTextureSlots) -> Seq<(bool, Seq<Option<usize>>)> {
    liltoon_main_groups(l) + liltoon_surface_groups(l) + liltoon_light_groups(l) + liltoon_extra_groups(l)
}

/// A material's slot groups: the PBR slots, always sampled; the MToon slots of an MToon
/// material; the lilToon feature groups of a lilToon material.
pub open spec fn material_slot_groups_spec(m: MaterialTextureSlots) -> Seq<(bool, Seq<Option<usize>>)> {
    seq![(true, seq![m.base_color, m.normal, m.occlusion, m.emissive])] + match m.mtoon {
        Some(t) => seq![
            (true, seq![t.shade_multiply, t.shading_shift, t.matcap, t.rim_multiply, t.outline_width_multiply, t.uv_animation_mask]),
        ],
        None => Seq::empty(),
    } + match m.liltoon {
        Some(l) => liltoon_slot_groups(l),
        None => Seq::empty(),
    }
}

/// A material's cube slots: the MToon reflection cube, and the lilToon reflection cube where
/// the reflection samples it.
pub open spec fn material_cube_slots_spec(m: MaterialTextureSlots) -> Seq<Option<usize>> {
    seq![
        match m.mtoon {
            Some(t) => t.reflection_cube,
            None => None,
        },
        match m.liltoon {
            Some(l) => if l.reflection_cube_used { l.reflection_cube } else { None },
            None => None,
        },
    ]
}

fn push_group(groups: &mut Vec<MaterialTextureSlotGroup>, enabled: bool, texture_indices: Vec<Option<usize>>)
    ensures
        groups_view(final(groups)@) == groups_view(old(groups)@).push((enabled, texture_indices@)),
{
    let ghost slots = texture_indices@;
    groups.push(MaterialTextureSlotGroup { enabled, texture_indices });
    assert(groups_view(groups@) =~= groups_view(old(groups)@).push((enabled, slots)));
}

fn push_liltoon_main_groups(groups: &mut Vec<MaterialTextureSlotGroup>, l: &LiltoonTextureSlots)
    ensures
        groups_view(final(groups)@) =~~= groups_view(old(groups)@) + liltoon_main_groups(*l),
{
    proof {
        reveal(liltoon_main_groups);
    }
    push_group(groups, l.main_color_adjust_enabled, vec![l.main_color_adjust_mask]);
    push_group(groups, l.gradation_enabled, vec![l.gradation]);
    push_group(groups, l.second_main_enabled, vec![l.second_main, l.second_main_blend_mask, l.second_main_dissolve_mask, l.second_main_dissolve_noise_mask]);
    push_group(groups, l.third_main_enabled, vec![l.third_main, l.third_main_blend_mask, l.third_main_dissolve_mask, l.third_main_dissolve_noise_mask]);
    push_group(groups, l.shadow_enabled, vec![l.shadow_color, l.shadow_strength_mask, l.shadow_border_mask, l.shadow_blur_mask, l.shadow_second_color, l.shadow_third_color]);
    push_group(groups, l.second_normal_enabled, vec![l.second_normal, l.second_normal_scale_mask]);
}

fn push_liltoon_surface_groups(groups: &mut Vec<MaterialTextureSlotGroup>, l: &LiltoonTextureSlots)
    ensures
        groups_view(final(groups)@) =~~= groups_view(old(groups)@) + liltoon_surface_groups(*l),
{
    proof {
        reveal(liltoon_surface_groups);
    }
    push_group(groups, l.matcap_enabled, vec![l.matcap, l.matcap_blend_mask, l.matcap_bump]);
    push_group(groups, l.second_matcap_enabled, vec![l.second_matcap, l.second_matcap_blend_mask, l.second_matcap_bump]);
    push_group(groups, l.reflection_enabled, vec![l.reflection_metallic, l.reflection_color, l.reflection_smoothness]);
    push_group(groups, l.anisotropy_enabled, vec![l.anisotropy_tangent, l.anisotropy_scale_mask, l.anisotropy_shift_noise_mask]);
    push_group(groups, l.rim_enabled, vec![l.rim]);
    push_group(groups, l.rim_shade_enabled, vec![l.rim_shade_mask]);
}

fn push_liltoon_light_groups(groups: &mut Vec<MaterialTextureSlotGroup>, l: &LiltoonTextureSlots)
    ensures
        groups_view(final(groups)@) =~~= groups_view(old(groups)@) + liltoon_light_groups(*l),
{
    proof {
        reveal(liltoon_light_groups);
    }
    push_group(groups, l.emission_enabled, vec![l.emission, l.emission_blend_mask]);
    push_group(groups, l.emission_enabled && l.emission_gradation_enabled, vec![l.emission_gradation]);
    push_group(groups, l.second_emission_enabled, vec![l.second_emission, l.second_emission_blend_mask]);
    push_group(groups, l.second_emission_enabled && l.second_emission_gradation_enabled, vec![l.second_emission_gradation]);
    push_group(groups, l.alpha_mask_enabled, vec![l.alpha_mask]);
    push_group(groups, l.audio_link_enabled, vec![l.audio_link_mask, l.audio_link_local_map]);
}

fn push_liltoon_extra_groups(groups: &mut Vec<MaterialTextureSlotGroup>, l: &LiltoonTextureSlots)
    ensures
        groups_view(final(groups)@) =~~= groups_view(old(groups)@) + liltoon_extra_groups(*l),
{
    proof {
        reveal(liltoon_extra_groups);
    }
    push_group(groups, l.outline_enabled, vec![l.outline, l.outline_width_mask]);
    push_group(groups, l.backlight_enabled, vec![l.backlight]);
    push_group(groups, l.glitter_enabled, vec![l.glitter_color, l.glitter_shape]);
    push_group(groups, l.dissolve_enabled, vec![l.dissolve_mask, l.dissolve_noise_mask]);
    push_group(groups, l.parallax_enabled, vec![l.parallax]);
    push_group(groups, l.fur_enabled, vec![l.fur_vector, l.fur_length_mask, l.fur_noise_mask, l.fur_mask]);
}

fn push_liltoon_groups(groups: &mut Vec<MaterialTextureSlotGroup>, l: &LiltoonTextureSlots)
    ensures
        groups_view(final(groups)@) == groups_view(old(groups)@) + liltoon_slot_groups(*l),
{
    let ghost g0 = groups_view(groups@);
    push_liltoon_main_groups(groups, l);
    push_liltoon_surface_groups(groups, l);
    push_liltoon_light_groups(groups, l);
    push_liltoon_extra_groups(groups, l);
    assert(groups_view(groups@) =~= g0 + liltoon_slot_groups(*l));
}

/// The slot groups of a material, in the order its shader samples them.
pub fn material_texture_slot_groups(m: &MaterialTextureSlots) -> (groups: Vec<MaterialTextureSlotGroup>)
    ensures
        groups_view(groups@) == material_slot_groups_spec(*m),
{
    let mut groups: Vec<MaterialTextureSlotGroup> = Vec::new();
    push_group(&mut groups, true, vec![m.base_color, m.normal, m.occlusion, m.emissive]);
    let ghost after_base = groups_view(groups@);
    match &m.mtoon {
        Some(t) => {
            push_group(&mut groups, true, vec![t.shade_multiply, t.shading_shift, t.matcap, t.rim_multiply, t.outline_width_multiply, t.uv_animation_mask]);
        },
        None => {},
    }
    let ghost after_mtoon = groups_view(groups@);
    match &m.liltoon {
        Some(l) => {
            push_liltoon_groups(&mut groups, l);
        },
        None => {},
    }
    proof {
        assert(after_base =~= seq![(true, seq![m.base_color, m.normal, m.occlusion, m.emissive])]);
        assert(groups_view(groups@) =~= material_slot_groups_spec(*m));
    }
    groups
}

/// The cube slots of a material: its MToon reflection cube, then its lilToon reflection cube
/// where the reflection samples it.
pub fn material_cube_slots(m: &MaterialTextureSlots) -> (slots: Vec<Option<usize>>)
    ensures
        slots@ == material_cube_slots_spec(*m),
{
    let mtoon_cube = match &m.mtoon {
        Some(t) => t.reflection_cube,
        None => None,
    };
    let liltoon_cube = match &m.liltoon {
        Some(l) => if l.reflection_cube_used { l.reflection_cube } else { None },
        None => None,
    };
    let slots = vec![mtoon_cube, liltoon_cube];
    assert(slots@ =~= material_cube_slots_spec(*m));
    slots
}


/// The textures named by the enabled groups of a list of slot groups.
pub open spec fn sampled_textures(groups: Seq<(bool, Seq<Option<usize>>)>) -> Set<usize> {
    Set::new(
        |t: usize|
            exists|g: int| 0 <= g < groups.len() && (#[trigger] groups[g]).0 && slot_textures(groups[g].1).contains(t),
    )
}

/// The 2D textures a material samples.
pub open spec fn material_sampled(m: MaterialTextureSlots) -> Set<usize> {
    sampled_textures(material_slot_groups_spec(m))
}

/// The material with its lilToon slots replaced.
pub open spec fn with_liltoon(m: MaterialTextureSlots, l: LiltoonTextureSlots) -> MaterialTextureSlots {
    MaterialTextureSlots { liltoon: Some(l), ..m }
}

/// What `material_texture_indices` collects from slot groups is what the groups' plain values
/// sample.
pub proof fn lemma_group_textures_are_sampled(groups: Seq<MaterialTextureSlotGroup>)
    ensures
        group_textures(groups) == sampled_textures(groups_view(groups)),
{
    let v = groups_view(groups);
    assert forall|t: usize| group_textures(groups).contains(t) <==> sampled_textures(v).contains(t) by {
        if group_textures(groups).contains(t) {
            let g = choose|g: int|
                0 <= g < groups.len() && (#[trigger] groups[g]).enabled && slot_textures(groups[g].texture_indices@).contains(t);
            assert(v[g] == (groups[g].enabled, groups[g].texture_indices@));
        }
        if sampled_textures(v).contains(t) {
            let g = choose|g: int| 0 <= g < v.len() && (#[trigger] v[g]).0 && slot_textures(v[g].1).contains(t);
            assert(v[g] == (groups[g].enabled, groups[g].texture_indices@));
        }
    }
    assert(group_textures(groups) =~= sampled_textures(v));
}

/// Enabling a disabled group adds exactly its slots' textures.
proof fn lemma_sampled_enable(groups: Seq<(bool, Seq<Option<usize>>)>, j: int, slots: Seq<Option<usize>>)
    requires
        0 <= j < groups.len(),
        groups[j] == (false, slots),
    ensures
        sampled_textures(groups.update(j, (true, slots))) == sampled_textures(groups).union(slot_textures(slots)),
{
    let on = groups.update(j, (true, slots));
    assert forall|t: usize| sampled_textures(on).contains(t) <==> sampled_textures(groups).union(slot_textures(slots)).contains(t) by {
        if sampled_textures(on).contains(t) {
            let g = choose|g: int| 0 <= g < on.len() && (#[trigger] on[g]).0 && slot_textures(on[g].1).contains(t);
            if g != j {
                assert(groups[g] == on[g]);
            }
        }
        if sampled_textures(groups).contains(t) {
            let g = choose|g: int| 0 <= g < groups.len() && (#[trigger] groups[g]).0 && slot_textures(groups[g].1).contains(t);
            assert(g != j);
            assert(on[g] == groups[g]);
        }
        if slot_textures(slots).contains(t) {
            assert(on[j] == (true, slots));
        }
    }
    assert(sampled_textures(on) =~= sampled_textures(groups).union(slot_textures(slots)));
}

/// Switching on one lilToon group (at `pos` among the lilToon groups) of a material switches on
/// the group at the matching position of the material's groups.
proof fn lemma_liltoon_group_update(
    m: MaterialTextureSlots,
    l0: LiltoonTextureSlots,
    l1: LiltoonTextureSlots,
    pos: int,
    x: (bool, Seq<Option<usize>>),
)
    requires
        0 <= pos < liltoon_slot_groups(l0).len(),
        liltoon_slot_groups(l1) == liltoon_slot_groups(l0).update(pos, x),
    ensures
        ({
            let g0 = material_slot_groups_spec(with_liltoon(m, l0));
            let j = g0.len() - liltoon_slot_groups(l0).len() + pos;
            &&& 0 <= j < g0.len()
            &&& g0[j] == liltoon_slot_groups(l0)[pos]
            &&& material_slot_groups_spec(with_liltoon(m, l1)) == g0.update(j, x)
        }),
{
    let g0 = material_slot_groups_spec(with_liltoon(m, l0));
    let g1 = material_slot_groups_spec(with_liltoon(m, l1));
    let j = g0.len() - liltoon_slot_groups(l0).len() + pos;
    assert(g1 =~= g0.update(j, x));
}


proof fn lemma_update_right<A>(a: Seq<A>, b: Seq<A>, q: int, x: A)
    requires
        0 <= q < b.len(),
    ensures
        a + b.update(q, x) == (a + b).update(a.len() + q, x),
{
    assert(a + b.update(q, x) =~= (a + b).update(a.len() + q, x));
}

proof fn lemma_update_left<A>(a: Seq<A>, b: Seq<A>, q: int, x: A)
    requires
        0 <= q < a.len(),
    ensures
        a.update(q, x) + b == (a + b).update(q, x),
{
    assert(a.update(q, x) + b =~= (a + b).update(q, x));
}

proof fn lemma_liltoon_block_lengths(l: LiltoonTextureSlots)
    ensures
        liltoon_main_groups(l).len() == 6,
        liltoon_surface_groups(l).len() == 6,
        liltoon_light_groups(l).len() == 6,
        liltoon_extra_groups(l).len() == 6,
        liltoon_slot_groups(l).len() == 24,
{
    reveal(liltoon_main_groups);
    reveal(liltoon_surface_groups);
    reveal(liltoon_light_groups);
    reveal(liltoon_extra_groups);
}

/// The lilToon groups after the group at `q` of one of the four feature blocks is replaced.
proof fn lemma_liltoon_block_update(l0: LiltoonTextureSlots, l1: LiltoonTextureSlots, block: int, q: int, x: (bool, Seq<Option<usize>>))
    requires
        0 <= block < 4,
        0 <= q < 6,
        block == 0 ==> liltoon_main_groups(l1) == liltoon_main_groups(l0).update(q, x),
        block != 0 ==> liltoon_main_groups(l1) == liltoon_main_groups(l0),
        block == 1 ==> liltoon_surface_groups(l1) == liltoon_surface_groups(l0).update(q, x),
        block != 1 ==> liltoon_surface_groups(l1) == liltoon_surface_groups(l0),
        block == 2 ==> liltoon_light_groups(l1) == liltoon_light_groups(l0).update(q, x),
        block != 2 ==> liltoon_light_groups(l1) == liltoon_light_groups(l0),
        block == 3 ==> liltoon_extra_groups(l1) == liltoon_extra_groups(l0).update(q, x),
        block != 3 ==> liltoon_extra_groups(l1) == liltoon_extra_groups(l0),
    ensures
        liltoon_slot_groups(l1) == liltoon_slot_groups(l0).update(6 * block + q, x),
{
    lemma_liltoon_block_lengths(l0);
    let a = liltoon_main_groups(l0);
    let b = liltoon_surface_groups(l0);
    let c = liltoon_light_groups(l0);
    let d = liltoon_extra_groups(l0);
    if block == 0 {
        lemma_update_left(a, b, q, x);
        lemma_update_left(a + b, c, q, x);
        lemma_update_left(a + b + c, d, q, x);
    } else if block == 1 {
        lemma_update_right(a, b, q, x);
        lemma_update_left(a + b, c, 6 + q, x);
        lemma_update_left(a + b + c, d, 6 + q, x);
    } else if block == 2 {
        lemma_update_right(a + b, c, q, x);
        lemma_update_left(a + b + c, d, 12 + q, x);
    } else {
        lemma_update_right(a + b + c, d, q, x);
    }
}

/// Switching one lilToon flag on turns on exactly one lilToon group whose slots are `slots`:
/// the material then samples what it sampled with the flag off, plus those slots' textures.
proof fn lemma_block_group_enable(
    m: MaterialTextureSlots,
    l0: LiltoonTextureSlots,
    l1: LiltoonTextureSlots,
    block: int,
    q: int,
    slots: Seq<Option<usize>>,
)
    requires
        0 <= block < 4,
        0 <= q < 6,
        block == 0 ==> liltoon_main_groups(l1) == liltoon_main_groups(l0).update(q, (true, slots))
            && liltoon_main_groups(l0)[q] == (false, slots),
        block != 0 ==> liltoon_main_groups(l1) == liltoon_main_groups(l0),
        block == 1 ==> liltoon_surface_groups(l1) == liltoon_surface_groups(l0).update(q, (true, slots))
            && liltoon_surface_groups(l0)[q] == (false, slots),
        block != 1 ==> liltoon_surface_groups(l1) == liltoon_surface_groups(l0),
        block == 2 ==> liltoon_light_groups(l1) == liltoon_light_groups(l0).update(q, (true, slots))
            && liltoon_light_groups(l0)[q] == (false, slots),
        block != 2 ==> liltoon_light_groups(l1) == liltoon_light_groups(l0),
        block == 3 ==> liltoon_extra_groups(l1) == liltoon_extra_groups(l0).update(q, (true, slots))
            && liltoon_extra_groups(l0)[q] == (false, slots),
        block != 3 ==> liltoon_extra_groups(l1) == liltoon_extra_groups(l0),
    ensures
        material_sampled(with_liltoon(m, l1)) == material_sampled(with_liltoon(m, l0)).union(slot_textures(slots)),
{
    let x = (true, slots);
    lemma_liltoon_block_lengths(l0);
    lemma_liltoon_block_update(l0, l1, block, q, x);
    let a = liltoon_main_groups(l0);
    let b = liltoon_surface_groups(l0);
    let c = liltoon_light_groups(l0);
    let d = liltoon_extra_groups(l0);
    assert(liltoon_slot_groups(l0) == a + b + c + d);
    assert(liltoon_slot_groups(l0)[6 * block + q] == (false, slots));
    lemma_liltoon_group_update(m, l0, l1, 6 * block + q, x);
    let g0 = material_slot_groups_spec(with_liltoon(m, l0));
    let j = g0.len() - liltoon_slot_groups(l0).len() + 6 * block + q;
    lemma_sampled_enable(g0, j, slots);
}

/// Groups that are equal give the material the same textures.
proof fn lemma_same_liltoon_groups(m: MaterialTextureSlots, l0: LiltoonTextureSlots, l1: LiltoonTextureSlots)
    requires
        liltoon_main_groups(l1) == liltoon_main_groups(l0),
        liltoon_surface_groups(l1) == liltoon_surface_groups(l0),
        liltoon_light_groups(l1) == liltoon_light_groups(l0),
        liltoon_extra_groups(l1) == liltoon_extra_groups(l0),
    ensures
        material_sampled(with_liltoon(m, l1)) == material_sampled(with_liltoon(m, l0)),
{
    assert(material_slot_groups_spec(with_liltoon(m, l1)) =~= material_slot_groups_spec(with_liltoon(m, l0)));
}

proof fn lemma_toggle_main_color_adjust_enabled(m: MaterialTextureSlots, l: LiltoonTextureSlots)
    ensures
        material_sampled(with_liltoon(m, LiltoonTextureSlots { main_color_adjust_enabled: true, ..l })) == material_sampled(
            with_liltoon(m, LiltoonTextureSlots { main_color_adjust_enabled: false, ..l }),
        ).union(slot_textures(seq![l.main_color_adjust_mask])),
{
    let l0 = LiltoonTextureSlots { main_color_adjust_enabled: false, ..l };
    let l1 = LiltoonTextureSlots { main_color_adjust_enabled: true, ..l };
    assert(liltoon_main_groups(l1) == liltoon_main_groups(l0).update(0, (true, seq![l.main_color_adjust_mask])) && liltoon_main_groups(l0)[0] == (false, seq![l.main_color_adjust_mask])) by {
        reveal(liltoon_main_groups);
        assert(liltoon_main_groups(l1) =~= liltoon_main_groups(l0).update(0, (true, seq![l.main_color_adjust_mask])));
    }
    assert(liltoon_surface_groups(l1) == liltoon_surface_groups(l0)) by {
        reveal(liltoon_surface_groups);
    }
    assert(liltoon_light_groups(l1) == liltoon_light_groups(l0)) by {
        reveal(liltoon_light_groups);
    }
    assert(liltoon_extra_groups(l1) == liltoon_extra_groups(l0)) by {
        reveal(liltoon_extra_groups);
    }
    lemma_block_group_enable(m, l0, l1, 0, 0, seq![l.main_color_adjust_mask]);
}

proof fn lemma_toggle_gradation_enabled(m: MaterialTextureSlots, l: LiltoonTextureSlots)
    ensures
        material_sampled(with_liltoon(m, LiltoonTextureSlots { gradation_enabled: true, ..l })) == material_sampled(
            with_liltoon(m, LiltoonTextureSlots { gradation_enabled: false, ..l }),
        ).union(slot_textures(seq![l.gradation])),
{
    let l0 = LiltoonTextureSlots { gradation_enabled: false, ..l };
    let l1 = LiltoonTextureSlots { gradation_enabled: true, ..l };
    assert(liltoon_main_groups(l1) == liltoon_main_groups(l0).update(1, (true, seq![l.gradation])) && liltoon_main_groups(l0)[1] == (false, seq![l.gradation])) by {
        reveal(liltoon_main_groups);
        assert(liltoon_main_groups(l1) =~= liltoon_main_groups(l0).update(1, (true, seq![l.gradation])));
    }
    assert(liltoon_surface_groups(l1) == liltoon_surface_groups(l0)) by {
        reveal(liltoon_surface_groups);
    }
    assert(liltoon_light_groups(l1) == liltoon_light_groups(l0)) by {
        reveal(liltoon_light_groups);
    }
    assert(liltoon_extra_groups(l1) == liltoon_extra_groups(l0)) by {
        reveal(liltoon_extra_groups);
    }
    lemma_block_group_enable(m, l0, l1, 0, 1, seq![l.gradation]);
}

proof fn lemma_toggle_second_main_enabled(m: MaterialTextureSlots, l: LiltoonTextureSlots)
    ensures
        material_sampled(with_liltoon(m, LiltoonTextureSlots { second_main_enabled: true, ..l })) == material_sampled(
            with_liltoon(m, LiltoonTextureSlots { second_main_enabled: false, ..l }),
        ).union(slot_textures(seq![l.second_main, l.second_main_blend_mask, l.second_main_dissolve_mask, l.second_main_dissolve_noise_mask])),
{
    let l0 = LiltoonTextureSlots { second_main_enabled: false, ..l };
    let l1 = LiltoonTextureSlots { second_main_enabled: true, ..l };
    assert(liltoon_main_groups(l1) == liltoon_main_groups(l0).update(2, (true, seq![l.second_main, l.second_main_blend_mask, l.second_main_dissolve_mask, l.second_main_dissolve_noise_mask])) && liltoon_main_groups(l0)[2] == (false, seq![l.second_main, l.second_main_blend_mask, l.second_main_dissolve_mask, l.second_main_dissolve_noise_mask])) by {
        reveal(liltoon_main_groups);
        assert(liltoon_main_groups(l1) =~= liltoon_main_groups(l0).update(2, (true, seq![l.second_main, l.second_main_blend_mask, l.second_main_dissolve_mask, l.second_main_dissolve_noise_mask])));
    }
    assert(liltoon_surface_groups(l1) == liltoon_surface_groups(l0)) by {
        reveal(liltoon_surface_groups);
    }
    assert(liltoon_light_groups(l1) == liltoon_light_groups(l0)) by {
        reveal(liltoon_light_groups);
    }
    assert(liltoon_extra_groups(l1) == liltoon_extra_groups(l0)) by {
        reveal(liltoon_extra_groups);
    }
    lemma_block_group_enable(m, l0, l1, 0, 2, seq![l.second_main, l.second_main_blend_mask, l.second_main_dissolve_mask, l.second_main_dissolve_noise_mask]);
}

proof fn lemma_toggle_third_main_enabled(m: MaterialTextureSlots, l: LiltoonTextureSlots)
    ensures
        material_sampled(with_liltoon(m, LiltoonTextureSlots { third_main_enabled: true, ..l })) == material_sampled(
            with_liltoon(m, LiltoonTextureSlots { third_main_enabled: false, ..l }),
        ).union(slot_textures(seq![l.third_main, l.third_main_blend_mask, l.third_main_dissolve_mask, l.third_main_dissolve_noise_mask])),
{
    let l0 = LiltoonTextureSlots { third_main_enabled: false, ..l };
    let l1 = LiltoonTextureSlots { third_main_enabled: true, ..l };
    assert(liltoon_main_groups(l1) == liltoon_main_groups(l0).update(3, (true, seq![l.third_main, l.third_main_blend_mask, l.third_main_dissolve_mask, l.third_main_dissolve_noise_mask])) && liltoon_main_groups(l0)[3] == (false, seq![l.third_main, l.third_main_blend_mask, l.third_main_dissolve_mask, l.third_main_dissolve_noise_mask])) by {
        reveal(liltoon_main_groups);
        assert(liltoon_main_groups(l1) =~= liltoon_main_groups(l0).update(3, (true, seq![l.third_main, l.third_main_blend_mask, l.third_main_dissolve_mask, l.third_main_dissolve_noise_mask])));
    }
    assert(liltoon_surface_groups(l1) == liltoon_surface_groups(l0)) by {
        reveal(liltoon_surface_groups);
    }
    assert(liltoon_light_groups(l1) == liltoon_light_groups(l0)) by {
        reveal(liltoon_light_groups);
    }
    assert(liltoon_extra_groups(l1) == liltoon_extra_groups(l0)) by {
        reveal(liltoon_extra_groups);
    }
    lemma_block_group_enable(m, l0, l1, 0, 3, seq![l.third_main, l.third_main_blend_mask, l.third_main_dissolve_mask, l.third_main_dissolve_noise_mask]);
}

proof fn lemma_toggle_shadow_enabled(m: MaterialTextureSlots, l: LiltoonTextureSlots)
    ensures
        material_sampled(with_liltoon(m, LiltoonTextureSlots { shadow_enabled: true, ..l })) == material_sampled(
            with_liltoon(m, LiltoonTextureSlots { shadow_enabled: false, ..l }),
        ).union(slot_textures(seq![l.shadow_color, l.shadow_strength_mask, l.shadow_border_mask, l.shadow_blur_mask, l.shadow_second_color, l.shadow_third_color])),
{
    let l0 = LiltoonTextureSlots { shadow_enabled: false, ..l };
    let l1 = LiltoonTextureSlots { shadow_enabled: true, ..l };
    assert(liltoon_main_groups(l1) == liltoon_main_groups(l0).update(4, (true, seq![l.shadow_color, l.shadow_strength_mask, l.shadow_border_mask, l.shadow_blur_mask, l.shadow_second_color, l.shadow_third_color])) && liltoon_main_groups(l0)[4] == (false, seq![l.shadow_color, l.shadow_strength_mask, l.shadow_border_mask, l.shadow_blur_mask, l.shadow_second_color, l.shadow_third_color])) by {
        reveal(liltoon_main_groups);
        assert(liltoon_main_groups(l1) =~= liltoon_main_groups(l0).update(4, (true, seq![l.shadow_color, l.shadow_strength_mask, l.shadow_border_mask, l.shadow_blur_mask, l.shadow_second_color, l.shadow_third_color])));
    }
    assert(liltoon_surface_groups(l1) == liltoon_surface_groups(l0)) by {
        reveal(liltoon_surface_groups);
    }
    assert(liltoon_light_groups(l1) == liltoon_light_groups(l0)) by {
        reveal(liltoon_light_groups);
    }
    assert(liltoon_extra_groups(l1) == liltoon_extra_groups(l0)) by {
        reveal(liltoon_extra_groups);
    }
    lemma_block_group_enable(m, l0, l1, 0, 4, seq![l.shadow_color, l.shadow_strength_mask, l.shadow_border_mask, l.shadow_blur_mask, l.shadow_second_color, l.shadow_third_color]);
}

proof fn lemma_toggle_second_normal_enabled(m: MaterialTextureSlots, l: LiltoonTextureSlots)
    ensures
        material_sampled(with_liltoon(m, LiltoonTextureSlots { second_normal_enabled: true, ..l })) == material_sampled(
            with_liltoon(m, LiltoonTextureSlots { second_normal_enabled: false, ..l }),
        ).union(slot_textures(seq![l.second_normal, l.second_normal_scale_mask])),
{
    let l0 = LiltoonTextureSlots { second_normal_enabled: false, ..l };
    let l1 = LiltoonTextureSlots { second_normal_enabled: true, ..l };
    assert(liltoon_main_groups(l1) == liltoon_main_groups(l0).update(5, (true, seq![l.second_normal, l.second_normal_scale_mask])) && liltoon_main_groups(l0)[5] == (false, seq![l.second_normal, l.second_normal_scale_mask])) by {
        reveal(liltoon_main_groups);
        assert(liltoon_main_groups(l1) =~= liltoon_main_groups(l0).update(5, (true, seq![l.second_normal, l.second_normal_scale_mask])));
    }
    assert(liltoon_surface_groups(l1) == liltoon_surface_groups(l0)) by {
        reveal(liltoon_surface_groups);
    }
    assert(liltoon_light_groups(l1) == liltoon_light_groups(l0)) by {
        reveal(liltoon_light_groups);
    }
    assert(liltoon_extra_groups(l1) == liltoon_extra_groups(l0)) by {
        reveal(liltoon_extra_groups);
    }
    lemma_block_group_enable(m, l0, l1, 0, 5, seq![l.second_normal, l.second_normal_scale_mask]);
}

proof fn lemma_toggle_matcap_enabled(m: MaterialTextureSlots, l: LiltoonTextureSlots)
    ensures
        material_sampled(with_liltoon(m, LiltoonTextureSlots { matcap_enabled: true, ..l })) == material_sampled(
            with_liltoon(m, LiltoonTextureSlots { matcap_enabled: false, ..l }),
        ).union(slot_textures(seq![l.matcap, l.matcap_blend_mask, l.matcap_bump])),
{
    let l0 = LiltoonTextureSlots { matcap_enabled: false, ..l };
    let l1 = LiltoonTextureSlots { matcap_enabled: true, ..l };
    assert(liltoon_main_groups(l1) == liltoon_main_groups(l0)) by {
        reveal(liltoon_main_groups);
    }
    assert(liltoon_surface_groups(l1) == liltoon_surface_groups(l0).update(0, (true, seq![l.matcap, l.matcap_blend_mask, l.matcap_bump])) && liltoon_surface_groups(l0)[0] == (false, seq![l.matcap, l.matcap_blend_mask, l.matcap_bump])) by {
        reveal(liltoon_surface_groups);
        assert(liltoon_surface_groups(l1) =~= liltoon_surface_groups(l0).update(0, (true, seq![l.matcap, l.matcap_blend_mask, l.matcap_bump])));
    }
    assert(liltoon_light_groups(l1) == liltoon_light_groups(l0)) by {
        reveal(liltoon_light_groups);
    }
    assert(liltoon_extra_groups(l1) == liltoon_extra_groups(l0)) by {
        reveal(liltoon_extra_groups);
    }
    lemma_block_group_enable(m, l0, l1, 1, 0, seq![l.matcap, l.matcap_blend_mask, l.matcap_bump]);
}

proof fn lemma_toggle_second_matcap_enabled(m: MaterialTextureSlots, l: LiltoonTextureSlots)
    ensures
        material_sampled(with_liltoon(m, LiltoonTextureSlots { second_matcap_enabled: true, ..l })) == material_sampled(
            with_liltoon(m, LiltoonTextureSlots { second_matcap_enabled: false, ..l }),
        ).union(slot_textures(seq![l.second_matcap, l.second_matcap_blend_mask, l.second_matcap_bump])),
{
    let l0 = LiltoonTextureSlots { second_matcap_enabled: false, ..l };
    let l1 = LiltoonTextureSlots { second_matcap_enabled: true, ..l };
    assert(liltoon_main_groups(l1) == liltoon_main_groups(l0)) by {
        reveal(liltoon_main_groups);
    }
    assert(liltoon_surface_groups(l1) == liltoon_surface_groups(l0).update(1, (true, seq![l.second_matcap, l.second_matcap_blend_mask, l.second_matcap_bump])) && liltoon_surface_groups(l0)[1] == (false, seq![l.second_matcap, l.second_matcap_blend_mask, l.second_matcap_bump])) by {
        reveal(liltoon_surface_groups);
        assert(liltoon_surface_groups(l1) =~= liltoon_surface_groups(l0).update(1, (true, seq![l.second_matcap, l.second_matcap_blend_mask, l.second_matcap_bump])));
    }
    assert(liltoon_light_groups(l1) == liltoon_light_groups(l0)) by {
        reveal(liltoon_light_groups);
    }
    assert(liltoon_extra_groups(l1) == liltoon_extra_groups(l0)) by {
        reveal(liltoon_extra_groups);
    }
    lemma_block_group_enable(m, l0, l1, 1, 1, seq![l.second_matcap, l.second_matcap_blend_mask, l.second_matcap_bump]);
}

proof fn lemma_toggle_reflection_enabled(m: MaterialTextureSlots, l: LiltoonTextureSlots)
    ensures
        material_sampled(with_liltoon(m, LiltoonTextureSlots { reflection_enabled: true, ..l })) == material_sampled(
            with_liltoon(m, LiltoonTextureSlots { reflection_enabled: false, ..l }),
        ).union(slot_textures(seq![l.reflection_metallic, l.reflection_color, l.reflection_smoothness])),
{
    let l0 = LiltoonTextureSlots { reflection_enabled: false, ..l };
    let l1 = LiltoonTextureSlots { reflection_enabled: true, ..l };
    assert(liltoon_main_groups(l1) == liltoon_main_groups(l0)) by {
        reveal(liltoon_main_groups);
    }
    assert(liltoon_surface_groups(l1) == liltoon_surface_groups(l0).update(2, (true, seq![l.reflection_metallic, l.reflection_color, l.reflection_smoothness])) && liltoon_surface_groups(l0)[2] == (false, seq![l.reflection_metallic, l.reflection_color, l.reflection_smoothness])) by {
        reveal(liltoon_surface_groups);
        assert(liltoon_surface_groups(l1) =~= liltoon_surface_groups(l0).update(2, (true, seq![l.reflection_metallic, l.reflection_color, l.reflection_smoothness])));
    }
    assert(liltoon_light_groups(l1) == liltoon_light_groups(l0)) by {
        reveal(liltoon_light_groups);
    }
    assert(liltoon_extra_groups(l1) == liltoon_extra_groups(l0)) by {
        reveal(liltoon_extra_groups);
    }
    lemma_block_group_enable(m, l0, l1, 1, 2, seq![l.reflection_metallic, l.reflection_color, l.reflection_smoothness]);
}

proof fn lemma_toggle_anisotropy_enabled(m: MaterialTextureSlots, l: LiltoonTextureSlots)
    ensures
        material_sampled(with_liltoon(m, LiltoonTextureSlots { anisotropy_enabled: true, ..l })) == material_sampled(
            with_liltoon(m, LiltoonTextureSlots { anisotropy_enabled: false, ..l }),
        ).union(slot_textures(seq![l.anisotropy_tangent, l.anisotropy_scale_mask, l.anisotropy_shift_noise_mask])),
{
    let l0 = LiltoonTextureSlots { anisotropy_enabled: false, ..l };
    let l1 = LiltoonTextureSlots { anisotropy_enabled: true, ..l };
    assert(liltoon_main_groups(l1) == liltoon_main_groups(l0)) by {
        reveal(liltoon_main_groups);
    }
    assert(liltoon_surface_groups(l1) == liltoon_surface_groups(l0).update(3, (true, seq![l.anisotropy_tangent, l.anisotropy_scale_mask, l.anisotropy_shift_noise_mask])) && liltoon_surface_groups(l0)[3] == (false, seq![l.anisotropy_tangent, l.anisotropy_scale_mask, l.anisotropy_shift_noise_mask])) by {
        reveal(liltoon_surface_groups);
        assert(liltoon_surface_groups(l1) =~= liltoon_surface_groups(l0).update(3, (true, seq![l.anisotropy_tangent, l.anisotropy_scale_mask, l.anisotropy_shift_noise_mask])));
    }
    assert(liltoon_light_groups(l1) == liltoon_light_groups(l0)) by {
        reveal(liltoon_light_groups);
    }
    assert(liltoon_extra_groups(l1) == liltoon_extra_groups(l0)) by {
        reveal(liltoon_extra_groups);
    }
    lemma_block_group_enable(m, l0, l1, 1, 3, seq![l.anisotropy_tangent, l.anisotropy_scale_mask, l.anisotropy_shift_noise_mask]);
}

proof fn lemma_toggle_rim_enabled(m: MaterialTextureSlots, l: LiltoonTextureSlots)
    ensures
        material_sampled(with_liltoon(m, LiltoonTextureSlots { rim_enabled: true, ..l })) == material_sampled(
            with_liltoon(m, LiltoonTextureSlots { rim_enabled: false, ..l }),
        ).union(slot_textures(seq![l.rim])),
{
    let l0 = LiltoonTextureSlots { rim_enabled: false, ..l };
    let l1 = LiltoonTextureSlots { rim_enabled: true, ..l };
    assert(liltoon_main_groups(l1) == liltoon_main_groups(l0)) by {
        reveal(liltoon_main_groups);
    }
    assert(liltoon_surface_groups(l1) == liltoon_surface_groups(l0).update(4, (true, seq![l.rim])) && liltoon_surface_groups(l0)[4] == (false, seq![l.rim])) by {
        reveal(liltoon_surface_groups);
        assert(liltoon_surface_groups(l1) =~= liltoon_surface_groups(l0).update(4, (true, seq![l.rim])));
    }
    assert(liltoon_light_groups(l1) == liltoon_light_groups(l0)) by {
        reveal(liltoon_light_groups);
    }
    assert(liltoon_extra_groups(l1) == liltoon_extra_groups(l0)) by {
        reveal(liltoon_extra_groups);
    }
    lemma_block_group_enable(m, l0, l1, 1, 4, seq![l.rim]);
}

proof fn lemma_toggle_rim_shade_enabled(m: MaterialTextureSlots, l: LiltoonTextureSlots)
    ensures
        material_sampled(with_liltoon(m, LiltoonTextureSlots { rim_shade_enabled: true, ..l })) == material_sampled(
            with_liltoon(m, LiltoonTextureSlots { rim_shade_enabled: false, ..l }),
        ).union(slot_textures(seq![l.rim_shade_mask])),
{
    let l0 = LiltoonTextureSlots { rim_shade_enabled: false, ..l };
    let l1 = LiltoonTextureSlots { rim_shade_enabled: true, ..l };
    assert(liltoon_main_groups(l1) == liltoon_main_groups(l0)) by {
        reveal(liltoon_main_groups);
    }
    assert(liltoon_surface_groups(l1) == liltoon_surface_groups(l0).update(5, (true, seq![l.rim_shade_mask])) && liltoon_surface_groups(l0)[5] == (false, seq![l.rim_shade_mask])) by {
        reveal(liltoon_surface_groups);
        assert(liltoon_surface_groups(l1) =~= liltoon_surface_groups(l0).update(5, (true, seq![l.rim_shade_mask])));
    }
    assert(liltoon_light_groups(l1) == liltoon_light_groups(l0)) by {
        reveal(liltoon_light_groups);
    }
    assert(liltoon_extra_groups(l1) == liltoon_extra_groups(l0)) by {
        reveal(liltoon_extra_groups);
    }
    lemma_block_group_enable(m, l0, l1, 1, 5, seq![l.rim_shade_mask]);
}

proof fn lemma_toggle_alpha_mask_enabled(m: MaterialTextureSlots, l: LiltoonTextureSlots)
    ensures
        material_sampled(with_liltoon(m, LiltoonTextureSlots { alpha_mask_enabled: true, ..l })) == material_sampled(
            with_liltoon(m, LiltoonTextureSlots { alpha_mask_enabled: false, ..l }),
        ).union(slot_textures(seq![l.alpha_mask])),
{
    let l0 = LiltoonTextureSlots { alpha_mask_enabled: false, ..l };
    let l1 = LiltoonTextureSlots { alpha_mask_enabled: true, ..l };
    assert(liltoon_main_groups(l1) == liltoon_main_groups(l0)) by {
        reveal(liltoon_main_groups);
    }
    assert(liltoon_surface_groups(l1) == liltoon_surface_groups(l0)) by {
        reveal(liltoon_surface_groups);
    }
    assert(liltoon_light_groups(l1) == liltoon_light_groups(l0).update(4, (true, seq![l.alpha_mask])) && liltoon_light_groups(l0)[4] == (false, seq![l.alpha_mask])) by {
        reveal(liltoon_light_groups);
        assert(liltoon_light_groups(l1) =~= liltoon_light_groups(l0).update(4, (true, seq![l.alpha_mask])));
    }
    assert(liltoon_extra_groups(l1) == liltoon_extra_groups(l0)) by {
        reveal(liltoon_extra_groups);
    }
    lemma_block_group_enable(m, l0, l1, 2, 4, seq![l.alpha_mask]);
}

proof fn lemma_toggle_audio_link_enabled(m: MaterialTextureSlots, l: LiltoonTextureSlots)
    ensures
        material_sampled(with_liltoon(m, LiltoonTextureSlots { audio_link_enabled: true, ..l })) == material_sampled(
            with_liltoon(m, LiltoonTextureSlots { audio_link_enabled: false, ..l }),
        ).union(slot_textures(seq![l.audio_link_mask, l.audio_link_local_map])),
{
    let l0 = LiltoonTextureSlots { audio_link_enabled: false, ..l };
    let l1 = LiltoonTextureSlots { audio_link_enabled: true, ..l };
    assert(liltoon_main_groups(l1) == liltoon_main_groups(l0)) by {
        reveal(liltoon_main_groups);
    }
    assert(liltoon_surface_groups(l1) == liltoon_surface_groups(l0)) by {
        reveal(liltoon_surface_groups);
    }
    assert(liltoon_light_groups(l1) == liltoon_light_groups(l0).update(5, (true, seq![l.audio_link_mask, l.audio_link_local_map])) && liltoon_light_groups(l0)[5] == (false, seq![l.audio_link_mask, l.audio_link_local_map])) by {
        reveal(liltoon_light_groups);
        assert(liltoon_light_groups(l1) =~= liltoon_light_groups(l0).update(5, (true, seq![l.audio_link_mask, l.audio_link_local_map])));
    }
    assert(liltoon_extra_groups(l1) == liltoon_extra_groups(l0)) by {
        reveal(liltoon_extra_groups);
    }
    lemma_block_group_enable(m, l0, l1, 2, 5, seq![l.audio_link_mask, l.audio_link_local_map]);
}

proof fn lemma_toggle_outline_enabled(m: MaterialTextureSlots, l: LiltoonTextureSlots)
    ensures
        material_sampled(with_liltoon(m, LiltoonTextureSlots { outline_enabled: true, ..l })) == material_sampled(
            with_liltoon(m, LiltoonTextureSlots { outline_enabled: false, ..l }),
        ).union(slot_textures(seq![l.outline, l.outline_width_mask])),
{
    let l0 = LiltoonTextureSlots { outline_enabled: false, ..l };
    let l1 = LiltoonTextureSlots { outline_enabled: true, ..l };
    assert(liltoon_main_groups(l1) == liltoon_main_groups(l0)) by {
        reveal(liltoon_main_groups);
    }
    assert(liltoon_surface_groups(l1) == liltoon_surface_groups(l0)) by {
        reveal(liltoon_surface_groups);
    }
    assert(liltoon_light_groups(l1) == liltoon_light_groups(l0)) by {
        reveal(liltoon_light_groups);
    }
    assert(liltoon_extra_groups(l1) == liltoon_extra_groups(l0).update(0, (true, seq![l.outline, l.outline_width_mask])) && liltoon_extra_groups(l0)[0] == (false, seq![l.outline, l.outline_width_mask])) by {
        reveal(liltoon_extra_groups);
        assert(liltoon_extra_groups(l1) =~= liltoon_extra_groups(l0).update(0, (true, seq![l.outline, l.outline_width_mask])));
    }
    lemma_block_group_enable(m, l0, l1, 3, 0, seq![l.outline, l.outline_width_mask]);
}

proof fn lemma_toggle_backlight_enabled(m: MaterialTextureSlots, l: LiltoonTextureSlots)
    ensures
        material_sampled(with_liltoon(m, LiltoonTextureSlots { backlight_enabled: true, ..l })) == material_sampled(
            with_liltoon(m, LiltoonTextureSlots { backlight_enabled: false, ..l }),
        ).union(slot_textures(seq![l.backlight])),
{
    let l0 = LiltoonTextureSlots { backlight_enabled: false, ..l };
    let l1 = LiltoonTextureSlots { backlight_enabled: true, ..l };
    assert(liltoon_main_groups(l1) == liltoon_main_groups(l0)) by {
        reveal(liltoon_main_groups);
    }
    assert(liltoon_surface_groups(l1) == liltoon_surface_groups(l0)) by {
        reveal(liltoon_surface_groups);
    }
    assert(liltoon_light_groups(l1) == liltoon_light_groups(l0)) by {
        reveal(liltoon_light_groups);
    }
    assert(liltoon_extra_groups(l1) == liltoon_extra_groups(l0).update(1, (true, seq![l.backlight])) && liltoon_extra_groups(l0)[1] == (false, seq![l.backlight])) by {
        reveal(liltoon_extra_groups);
        assert(liltoon_extra_groups(l1) =~= liltoon_extra_groups(l0).update(1, (true, seq![l.backlight])));
    }
    lemma_block_group_enable(m, l0, l1, 3, 1, seq![l.backlight]);
}

proof fn lemma_toggle_glitter_enabled(m: MaterialTextureSlots, l: LiltoonTextureSlots)
    ensures
        material_sampled(with_liltoon(m, LiltoonTextureSlots { glitter_enabled: true, ..l })) == material_sampled(
            with_liltoon(m, LiltoonTextureSlots { glitter_enabled: false, ..l }),
        ).union(slot_textures(seq![l.glitter_color, l.glitter_shape])),
{
    let l0 = LiltoonTextureSlots { glitter_enabled: false, ..l };
    let l1 = LiltoonTextureSlots { glitter_enabled: true, ..l };
    assert(liltoon_main_groups(l1) == liltoon_main_groups(l0)) by {
        reveal(liltoon_main_groups);
    }
    assert(liltoon_surface_groups(l1) == liltoon_surface_groups(l0)) by {
        reveal(liltoon_surface_groups);
    }
    assert(liltoon_light_groups(l1) == liltoon_light_groups(l0)) by {
        reveal(liltoon_light_groups);
    }
    assert(liltoon_extra_groups(l1) == liltoon_extra_groups(l0).update(2, (true, seq![l.glitter_color, l.glitter_shape])) && liltoon_extra_groups(l0)[2] == (false, seq![l.glitter_color, l.glitter_shape])) by {
        reveal(liltoon_extra_groups);
        assert(liltoon_extra_groups(l1) =~= liltoon_extra_groups(l0).update(2, (true, seq![l.glitter_color, l.glitter_shape])));
    }
    lemma_block_group_enable(m, l0, l1, 3, 2, seq![l.glitter_color, l.glitter_shape]);
}

proof fn lemma_toggle_dissolve_enabled(m: MaterialTextureSlots, l: LiltoonTextureSlots)
    ensures
        material_sampled(with_liltoon(m, LiltoonTextureSlots { dissolve_enabled: true, ..l })) == material_sampled(
            with_liltoon(m, LiltoonTextureSlots { dissolve_enabled: false, ..l }),
        ).union(slot_textures(seq![l.dissolve_mask, l.dissolve_noise_mask])),
{
    let l0 = LiltoonTextureSlots { dissolve_enabled: false, ..l };
    let l1 = LiltoonTextureSlots { dissolve_enabled: true, ..l };
    assert(liltoon_main_groups(l1) == liltoon_main_groups(l0)) by {
        reveal(liltoon_main_groups);
    }
    assert(liltoon_surface_groups(l1) == liltoon_surface_groups(l0)) by {
        reveal(liltoon_surface_groups);
    }
    assert(liltoon_light_groups(l1) == liltoon_light_groups(l0)) by {
        reveal(liltoon_light_groups);
    }
    assert(liltoon_extra_groups(l1) == liltoon_extra_groups(l0).update(3, (true, seq![l.dissolve_mask, l.dissolve_noise_mask])) && liltoon_extra_groups(l0)[3] == (false, seq![l.dissolve_mask, l.dissolve_noise_mask])) by {
        reveal(liltoon_extra_groups);
        assert(liltoon_extra_groups(l1) =~= liltoon_extra_groups(l0).update(3, (true, seq![l.dissolve_mask, l.dissolve_noise_mask])));
    }
    lemma_block_group_enable(m, l0, l1, 3, 3, seq![l.dissolve_mask, l.dissolve_noise_mask]);
}

proof fn lemma_toggle_parallax_enabled(m: MaterialTextureSlots, l: LiltoonTextureSlots)
    ensures
        material_sampled(with_liltoon(m, LiltoonTextureSlots { parallax_enabled: true, ..l })) == material_sampled(
            with_liltoon(m, LiltoonTextureSlots { parallax_enabled: false, ..l }),
        ).union(slot_textures(seq![l.parallax])),
{
    let l0 = LiltoonTextureSlots { parallax_enabled: false, ..l };
    let l1 = LiltoonTextureSlots { parallax_enabled: true, ..l };
    assert(liltoon_main_groups(l1) == liltoon_main_groups(l0)) by {
        reveal(liltoon_main_groups);
    }
    assert(liltoon_surface_groups(l1) == liltoon_surface_groups(l0)) by {
        reveal(liltoon_surface_groups);
    }
    assert(liltoon_light_groups(l1) == liltoon_light_groups(l0)) by {
        reveal(liltoon_light_groups);
    }
    assert(liltoon_extra_groups(l1) == liltoon_extra_groups(l0).update(4, (true, seq![l.parallax])) && liltoon_extra_groups(l0)[4] == (false, seq![l.parallax])) by {
        reveal(liltoon_extra_groups);
        assert(liltoon_extra_groups(l1) =~= liltoon_extra_groups(l0).update(4, (true, seq![l.parallax])));
    }
    lemma_block_group_enable(m, l0, l1, 3, 4, seq![l.parallax]);
}

proof fn lemma_toggle_fur_enabled(m: MaterialTextureSlots, l: LiltoonTextureSlots)
    ensures
        material_sampled(with_liltoon(m, LiltoonTextureSlots { fur_enabled: true, ..l })) == material_sampled(
            with_liltoon(m, LiltoonTextureSlots { fur_enabled: false, ..l }),
        ).union(slot_textures(seq![l.fur_vector, l.fur_length_mask, l.fur_noise_mask, l.fur_mask])),
{
    let l0 = LiltoonTextureSlots { fur_enabled: false, ..l };
    let l1 = LiltoonTextureSlots { fur_enabled: true, ..l };
    assert(liltoon_main_groups(l1) == liltoon_main_groups(l0)) by {
        reveal(liltoon_main_groups);
    }
    assert(liltoon_surface_groups(l1) == liltoon_surface_groups(l0)) by {
        reveal(liltoon_surface_groups);
    }
    assert(liltoon_light_groups(l1) == liltoon_light_groups(l0)) by {
        reveal(liltoon_light_groups);
    }
    assert(liltoon_extra_groups(l1) == liltoon_extra_groups(l0).update(5, (true, seq![l.fur_vector, l.fur_length_mask, l.fur_noise_mask, l.fur_mask])) && liltoon_extra_groups(l0)[5] == (false, seq![l.fur_vector, l.fur_length_mask, l.fur_noise_mask, l.fur_mask])) by {
        reveal(liltoon_extra_groups);
        assert(liltoon_extra_groups(l1) =~= liltoon_extra_groups(l0).update(5, (true, seq![l.fur_vector, l.fur_length_mask, l.fur_noise_mask, l.fur_mask])));
    }
    lemma_block_group_enable(m, l0, l1, 3, 5, seq![l.fur_vector, l.fur_length_mask, l.fur_noise_mask, l.fur_mask]);
}

proof fn lemma_toggle_emission_enabled(m: MaterialTextureSlots, l: LiltoonTextureSlots)
    ensures
        material_sampled(with_liltoon(m, LiltoonTextureSlots { emission_enabled: true, ..l })) == material_sampled(
            with_liltoon(m, LiltoonTextureSlots { emission_enabled: false, ..l }),
        ).union(slot_textures(seq![l.emission, l.emission_blend_mask])).union(if l.emission_gradation_enabled {
            slot_textures(seq![l.emission_gradation])
        } else {
            Set::empty()
        }),
{
    let l0 = LiltoonTextureSlots { emission_enabled: false, ..l };
    let mid = LiltoonTextureSlots { emission_enabled: true, emission_gradation_enabled: false, ..l };
    let l1 = LiltoonTextureSlots { emission_enabled: true, ..l };
    assert(liltoon_main_groups(mid) == liltoon_main_groups(l0)) by {
        reveal(liltoon_main_groups);
    }
    assert(liltoon_surface_groups(mid) == liltoon_surface_groups(l0)) by {
        reveal(liltoon_surface_groups);
    }
    assert(liltoon_extra_groups(mid) == liltoon_extra_groups(l0)) by {
        reveal(liltoon_extra_groups);
    }
    assert(liltoon_light_groups(mid) == liltoon_light_groups(l0).update(0, (true, seq![l.emission, l.emission_blend_mask])) && liltoon_light_groups(l0)[0] == (false, seq![l.emission, l.emission_blend_mask])) by {
        reveal(liltoon_light_groups);
        assert(liltoon_light_groups(mid) =~= liltoon_light_groups(l0).update(0, (true, seq![l.emission, l.emission_blend_mask])));
    }
    lemma_block_group_enable(m, l0, mid, 2, 0, seq![l.emission, l.emission_blend_mask]);
    if l.emission_gradation_enabled {
    assert(liltoon_main_groups(l1) == liltoon_main_groups(mid)) by {
        reveal(liltoon_main_groups);
    }
    assert(liltoon_surface_groups(l1) == liltoon_surface_groups(mid)) by {
        reveal(liltoon_surface_groups);
    }
    assert(liltoon_extra_groups(l1) == liltoon_extra_groups(mid)) by {
        reveal(liltoon_extra_groups);
    }
        assert(liltoon_light_groups(l1) == liltoon_light_groups(mid).update(1, (true, seq![l.emission_gradation])) && liltoon_light_groups(mid)[1] == (false, seq![l.emission_gradation])) by {
            reveal(liltoon_light_groups);
            assert(liltoon_light_groups(l1) =~= liltoon_light_groups(mid).update(1, (true, seq![l.emission_gradation])));
        }
        lemma_block_group_enable(m, mid, l1, 2, 1, seq![l.emission_gradation]);
    } else {
        assert(l1 == mid);
    }
    assert(material_sampled(with_liltoon(m, l1)) =~= material_sampled(with_liltoon(m, l0)).union(slot_textures(seq![l.emission, l.emission_blend_mask])).union(
        if l.emission_gradation_enabled {
            slot_textures(seq![l.emission_gradation])
        } else {
            Set::empty()
        },
    ));
}

proof fn lemma_emission_gradation_on(m: MaterialTextureSlots, l: LiltoonTextureSlots)
    requires
        l.emission_enabled,
    ensures
        material_sampled(with_liltoon(m, LiltoonTextureSlots { emission_gradation_enabled: true, ..l })) == material_sampled(
            with_liltoon(m, LiltoonTextureSlots { emission_gradation_enabled: false, ..l }),
        ).union(slot_textures(seq![l.emission_gradation])),
{
    let l0 = LiltoonTextureSlots { emission_gradation_enabled: false, ..l };
    let l1 = LiltoonTextureSlots { emission_gradation_enabled: true, ..l };
    let s1 = seq![l.emission_gradation];
    assert(liltoon_main_groups(l1) == liltoon_main_groups(l0)) by {
        reveal(liltoon_main_groups);
    }
    assert(liltoon_surface_groups(l1) == liltoon_surface_groups(l0)) by {
        reveal(liltoon_surface_groups);
    }
    assert(liltoon_extra_groups(l1) == liltoon_extra_groups(l0)) by {
        reveal(liltoon_extra_groups);
    }
    assert(liltoon_light_groups(l1) == liltoon_light_groups(l0).update(1, (true, s1)) && liltoon_light_groups(l0)[1] == (
    false, s1)) by {
        reveal(liltoon_light_groups);
        assert(liltoon_light_groups(l1) =~= liltoon_light_groups(l0).update(1, (true, s1)));
    }
    lemma_block_group_enable(m, l0, l1, 2, 1, s1);
}

proof fn lemma_emission_gradation_off(m: MaterialTextureSlots, l: LiltoonTextureSlots)
    requires
        !l.emission_enabled,
    ensures
        material_sampled(with_liltoon(m, LiltoonTextureSlots { emission_gradation_enabled: true, ..l })) == material_sampled(
            with_liltoon(m, LiltoonTextureSlots { emission_gradation_enabled: false, ..l }),
        ),
{
    let l0 = LiltoonTextureSlots { emission_gradation_enabled: false, ..l };
    let l1 = LiltoonTextureSlots { emission_gradation_enabled: true, ..l };
    assert(liltoon_main_groups(l1) == liltoon_main_groups(l0)) by {
        reveal(liltoon_main_groups);
    }
    assert(liltoon_surface_groups(l1) == liltoon_surface_groups(l0)) by {
        reveal(liltoon_surface_groups);
    }
    assert(liltoon_extra_groups(l1) == liltoon_extra_groups(l0)) by {
        reveal(liltoon_extra_groups);
    }
    assert(liltoon_light_groups(l1) == liltoon_light_groups(l0)) by {
        reveal(liltoon_light_groups);
    }
    lemma_same_liltoon_groups(m, l0, l1);
}

proof fn lemma_toggle_emission_gradation_enabled(m: MaterialTextureSlots, l: LiltoonTextureSlots)
    ensures
        material_sampled(with_liltoon(m, LiltoonTextureSlots { emission_gradation_enabled: true, ..l })) == if l.emission_enabled {
            material_sampled(with_liltoon(m, LiltoonTextureSlots { emission_gradation_enabled: false, ..l })).union(
                slot_textures(seq![l.emission_gradation]),
            )
        } else {
            material_sampled(with_liltoon(m, LiltoonTextureSlots { emission_gradation_enabled: false, ..l }))
        },
{
    if l.emission_enabled {
        lemma_emission_gradation_on(m, l);
    } else {
        lemma_emission_gradation_off(m, l);
    }
}

proof fn lemma_toggle_second_emission_enabled(m: MaterialTextureSlots, l: LiltoonTextureSlots)
    ensures
        material_sampled(with_liltoon(m, LiltoonTextureSlots { second_emission_enabled: true, ..l })) == material_sampled(
            with_liltoon(m, LiltoonTextureSlots { second_emission_enabled: false, ..l }),
        ).union(slot_textures(seq![l.second_emission, l.second_emission_blend_mask])).union(if l.second_emission_gradation_enabled {
            slot_textures(seq![l.second_emission_gradation])
        } else {
            Set::empty()
        }),
{
    let l0 = LiltoonTextureSlots { second_emission_enabled: false, ..l };
    let mid = LiltoonTextureSlots { second_emission_enabled: true, second_emission_gradation_enabled: false, ..l };
    let l1 = LiltoonTextureSlots { second_emission_enabled: true, ..l };
    assert(liltoon_main_groups(mid) == liltoon_main_groups(l0)) by {
        reveal(liltoon_main_groups);
    }
    assert(liltoon_surface_groups(mid) == liltoon_surface_groups(l0)) by {
        reveal(liltoon_surface_groups);
    }
    assert(liltoon_extra_groups(mid) == liltoon_extra_groups(l0)) by {
        reveal(liltoon_extra_groups);
    }
    assert(liltoon_light_groups(mid) == liltoon_light_groups(l0).update(2, (true, seq![l.second_emission, l.second_emission_blend_mask])) && liltoon_light_groups(l0)[2] == (false, seq![l.second_emission, l.second_emission_blend_mask])) by {
        reveal(liltoon_light_groups);
        assert(liltoon_light_groups(mid) =~= liltoon_light_groups(l0).update(2, (true, seq![l.second_emission, l.second_emission_blend_mask])));
    }
    lemma_block_group_enable(m, l0, mid, 2, 2, seq![l.second_emission, l.second_emission_blend_mask]);
    if l.second_emission_gradation_enabled {
    assert(liltoon_main_groups(l1) == liltoon_main_groups(mid)) by {
        reveal(liltoon_main_groups);
    }
    assert(liltoon_surface_groups(l1) == liltoon_surface_groups(mid)) by {
        reveal(liltoon_surface_groups);
    }
    assert(liltoon_extra_groups(l1) == liltoon_extra_groups(mid)) by {
        reveal(liltoon_extra_groups);
    }
        assert(liltoon_light_groups(l1) == liltoon_light_groups(mid).update(3, (true, seq![l.second_emission_gradation])) && liltoon_light_groups(mid)[3] == (false, seq![l.second_emission_gradation])) by {
            reveal(liltoon_light_groups);
            assert(liltoon_light_groups(l1) =~= liltoon_light_groups(mid).update(3, (true, seq![l.second_emission_gradation])));
        }
        lemma_block_group_enable(m, mid, l1, 2, 3, seq![l.second_emission_gradation]);
    } else {
        assert(l1 == mid);
    }
    assert(material_sampled(with_liltoon(m, l1)) =~= material_sampled(with_liltoon(m, l0)).union(slot_textures(seq![l.second_emission, l.second_emission_blend_mask])).union(
        if l.second_emission_gradation_enabled {
            slot_textures(seq![l.second_emission_gradation])
        } else {
            Set::empty()
        },
    ));
}

proof fn lemma_toggle_second_emission_gradation_enabled(m: MaterialTextureSlots, l: LiltoonTextureSlots)
    ensures
        material_sampled(with_liltoon(m, LiltoonTextureSlots { second_emission_gradation_enabled: true, ..l })) == if l.second_emission_enabled {
            material_sampled(with_liltoon(m, LiltoonTextureSlots { second_emission_gradation_enabled: false, ..l })).union(slot_textures(seq![l.second_emission_gradation]))
        } else {
            material_sampled(with_liltoon(m, LiltoonTextureSlots { second_emission_gradation_enabled: false, ..l }))
        },
{
    let l0 = LiltoonTextureSlots { second_emission_gradation_enabled: false, ..l };
    let l1 = LiltoonTextureSlots { second_emission_gradation_enabled: true, ..l };
    assert(liltoon_main_groups(l1) == liltoon_main_groups(l0)) by {
        reveal(liltoon_main_groups);
    }
    assert(liltoon_surface_groups(l1) == liltoon_surface_groups(l0)) by {
        reveal(liltoon_surface_groups);
    }
    assert(liltoon_extra_groups(l1) == liltoon_extra_groups(l0)) by {
        reveal(liltoon_extra_groups);
    }
    if l.second_emission_enabled {
        assert(liltoon_light_groups(l1) == liltoon_light_groups(l0).update(3, (true, seq![l.second_emission_gradation])) && liltoon_light_groups(l0)[3] == (false, seq![l.second_emission_gradation])) by {
            reveal(liltoon_light_groups);
            assert(liltoon_light_groups(l1) =~= liltoon_light_groups(l0).update(3, (true, seq![l.second_emission_gradation])));
        }
        lemma_block_group_enable(m, l0, l1, 2, 3, seq![l.second_emission_gradation]);
    } else {
        assert(liltoon_light_groups(l1) == liltoon_light_groups(l0)) by {
            reveal(liltoon_light_groups);
        }
        lemma_same_liltoon_groups(m, l0, l1);
    }
}


/// Each lilToon feature's textures are gated by that feature's own switch: switching one
/// feature on (all else equal) makes the material sample exactly what it sampled with the
/// feature off plus that feature's slot textures. An emission gradation is sampled only while
/// its emission is on, so switching an emission on also adds its gradation when the gradation
/// is on, and switching a gradation on adds it only while its emission is on.
pub proof fn lemma_liltoon_flags_gate_their_slots(m: MaterialTextureSlots, l: LiltoonTextureSlots)
    ensures
        material_sampled(with_liltoon(m, LiltoonTextureSlots { main_color_adjust_enabled: true, ..l })) == material_sampled(
            with_liltoon(m, LiltoonTextureSlots { main_color_adjust_enabled: false, ..l }),
        ).union(slot_textures(seq![l.main_color_adjust_mask])),
        material_sampled(with_liltoon(m, LiltoonTextureSlots { gradation_enabled: true, ..l })) == material_sampled(
            with_liltoon(m, LiltoonTextureSlots { gradation_enabled: false, ..l }),
        ).union(slot_textures(seq![l.gradation])),
        material_sampled(with_liltoon(m, LiltoonTextureSlots { second_main_enabled: true, ..l })) == material_sampled(
            with_liltoon(m, LiltoonTextureSlots { second_main_enabled: false, ..l }),
        ).union(slot_textures(seq![l.second_main, l.second_main_blend_mask, l.second_main_dissolve_mask, l.second_main_dissolve_noise_mask])),
        material_sampled(with_liltoon(m, LiltoonTextureSlots { third_main_enabled: true, ..l })) == material_sampled(
            with_liltoon(m, LiltoonTextureSlots { third_main_enabled: false, ..l }),
        ).union(slot_textures(seq![l.third_main, l.third_main_blend_mask, l.third_main_dissolve_mask, l.third_main_dissolve_noise_mask])),
        material_sampled(with_liltoon(m, LiltoonTextureSlots { shadow_enabled: true, ..l })) == material_sampled(
            with_liltoon(m, LiltoonTextureSlots { shadow_enabled: false, ..l }),
        ).union(slot_textures(seq![l.shadow_color, l.shadow_strength_mask, l.shadow_border_mask, l.shadow_blur_mask, l.shadow_second_color, l.shadow_third_color])),
        material_sampled(with_liltoon(m, LiltoonTextureSlots { second_normal_enabled: true, ..l })) == material_sampled(
            with_liltoon(m, LiltoonTextureSlots { second_normal_enabled: false, ..l }),
        ).union(slot_textures(seq![l.second_normal, l.second_normal_scale_mask])),
        material_sampled(with_liltoon(m, LiltoonTextureSlots { matcap_enabled: true, ..l })) == material_sampled(
            with_liltoon(m, LiltoonTextureSlots { matcap_enabled: false, ..l }),
        ).union(slot_textures(seq![l.matcap, l.matcap_blend_mask, l.matcap_bump])),
        material_sampled(with_liltoon(m, LiltoonTextureSlots { second_matcap_enabled: true, ..l })) == material_sampled(
            with_liltoon(m, LiltoonTextureSlots { second_matcap_enabled: false, ..l }),
        ).union(slot_textures(seq![l.second_matcap, l.second_matcap_blend_mask, l.second_matcap_bump])),
        material_sampled(with_liltoon(m, LiltoonTextureSlots { reflection_enabled: true, ..l })) == material_sampled(
            with_liltoon(m, LiltoonTextureSlots { reflection_enabled: false, ..l }),
        ).union(slot_textures(seq![l.reflection_metallic, l.reflection_color, l.reflection_smoothness])),
        material_sampled(with_liltoon(m, LiltoonTextureSlots { anisotropy_enabled: true, ..l })) == material_sampled(
            with_liltoon(m, LiltoonTextureSlots { anisotropy_enabled: false, ..l }),
        ).union(slot_textures(seq![l.anisotropy_tangent, l.anisotropy_scale_mask, l.anisotropy_shift_noise_mask])),
        material_sampled(with_liltoon(m, LiltoonTextureSlots { rim_enabled: true, ..l })) == material_sampled(
            with_liltoon(m, LiltoonTextureSlots { rim_enabled: false, ..l }),
        ).union(slot_textures(seq![l.rim])),
        material_sampled(with_liltoon(m, LiltoonTextureSlots { rim_shade_enabled: true, ..l })) == material_sampled(
            with_liltoon(m, LiltoonTextureSlots { rim_shade_enabled: false, ..l }),
        ).union(slot_textures(seq![l.rim_shade_mask])),
        material_sampled(with_liltoon(m, LiltoonTextureSlots { alpha_mask_enabled: true, ..l })) == material_sampled(
            with_liltoon(m, LiltoonTextureSlots { alpha_mask_enabled: false, ..l }),
        ).union(slot_textures(seq![l.alpha_mask])),
        material_sampled(with_liltoon(m, LiltoonTextureSlots { audio_link_enabled: true, ..l })) == material_sampled(
            with_liltoon(m, LiltoonTextureSlots { audio_link_enabled: false, ..l }),
        ).union(slot_textures(seq![l.audio_link_mask, l.audio_link_local_map])),
        material_sampled(with_liltoon(m, LiltoonTextureSlots { outline_enabled: true, ..l })) == material_sampled(
            with_liltoon(m, LiltoonTextureSlots { outline_enabled: false, ..l }),
        ).union(slot_textures(seq![l.outline, l.outline_width_mask])),
        material_sampled(with_liltoon(m, LiltoonTextureSlots { backlight_enabled: true, ..l })) == material_sampled(
            with_liltoon(m, LiltoonTextureSlots { backlight_enabled: false, ..l }),
        ).union(slot_textures(seq![l.backlight])),
        material_sampled(with_liltoon(m, LiltoonTextureSlots { glitter_enabled: true, ..l })) == material_sampled(
            with_liltoon(m, LiltoonTextureSlots { glitter_enabled: false, ..l }),
        ).union(slot_textures(seq![l.glitter_color, l.glitter_shape])),
        material_sampled(with_liltoon(m, LiltoonTextureSlots { dissolve_enabled: true, ..l })) == material_sampled(
            with_liltoon(m, LiltoonTextureSlots { dissolve_enabled: false, ..l }),
        ).union(slot_textures(seq![l.dissolve_mask, l.dissolve_noise_mask])),
        material_sampled(with_liltoon(m, LiltoonTextureSlots { parallax_enabled: true, ..l })) == material_sampled(
            with_liltoon(m, LiltoonTextureSlots { parallax_enabled: false, ..l }),
        ).union(slot_textures(seq![l.parallax])),
        material_sampled(with_liltoon(m, LiltoonTextureSlots { fur_enabled: true, ..l })) == material_sampled(
            with_liltoon(m, LiltoonTextureSlots { fur_enabled: false, ..l }),
        ).union(slot_textures(seq![l.fur_vector, l.fur_length_mask, l.fur_noise_mask, l.fur_mask])),
        material_sampled(with_liltoon(m, LiltoonTextureSlots { emission_enabled: true, ..l })) == material_sampled(
            with_liltoon(m, LiltoonTextureSlots { emission_enabled: false, ..l }),
        ).union(slot_textures(seq![l.emission, l.emission_blend_mask])).union(if l.emission_gradation_enabled {
            slot_textures(seq![l.emission_gradation])
        } else {
            Set::empty()
        }),
        material_sampled(with_liltoon(m, LiltoonTextureSlots { emission_gradation_enabled: true, ..l })) == if l.emission_enabled {
            material_sampled(with_liltoon(m, LiltoonTextureSlots { emission_gradation_enabled: false, ..l })).union(
                slot_textures(seq![l.emission_gradation]),
            )
        } else {
            material_sampled(with_liltoon(m, LiltoonTextureSlots { emission_gradation_enabled: false, ..l }))
        },
        material_sampled(with_liltoon(m, LiltoonTextureSlots { second_emission_enabled: true, ..l })) == material_sampled(
            with_liltoon(m, LiltoonTextureSlots { second_emission_enabled: false, ..l }),
        ).union(slot_textures(seq![l.second_emission, l.second_emission_blend_mask])).union(if l.second_emission_gradation_enabled {
            slot_textures(seq![l.second_emission_gradation])
        } else {
            Set::empty()
        }),
        material_sampled(with_liltoon(m, LiltoonTextureSlots { second_emission_gradation_enabled: true, ..l })) == if l.second_emission_enabled {
            material_sampled(with_liltoon(m, LiltoonTextureSlots { second_emission_gradation_enabled: false, ..l })).union(slot_textures(seq![l.second_emission_gradation]))
        } else {
            material_sampled(with_liltoon(m, LiltoonTextureSlots { second_emission_gradation_enabled: false, ..l }))
        },
{
    lemma_toggle_main_color_adjust_enabled(m, l);
    lemma_toggle_gradation_enabled(m, l);
    lemma_toggle_second_main_enabled(m, l);
    lemma_toggle_third_main_enabled(m, l);
    lemma_toggle_shadow_enabled(m, l);
    lemma_toggle_second_normal_enabled(m, l);
    lemma_toggle_matcap_enabled(m, l);
    lemma_toggle_second_matcap_enabled(m, l);
    lemma_toggle_reflection_enabled(m, l);
    lemma_toggle_anisotropy_enabled(m, l);
    lemma_toggle_rim_enabled(m, l);
    lemma_toggle_rim_shade_enabled(m, l);
    lemma_toggle_alpha_mask_enabled(m, l);
    lemma_toggle_audio_link_enabled(m, l);
    lemma_toggle_outline_enabled(m, l);
    lemma_toggle_backlight_enabled(m, l);
    lemma_toggle_glitter_enabled(m, l);
    lemma_toggle_dissolve_enabled(m, l);
    lemma_toggle_parallax_enabled(m, l);
    lemma_toggle_fur_enabled(m, l);
    lemma_toggle_emission_enabled(m, l);
    lemma_toggle_emission_gradation_enabled(m, l);
    lemma_toggle_second_emission_enabled(m, l);
    lemma_toggle_second_emission_gradation_enabled(m, l);
}


/// A material always samples its base colour, normal, occlusion and emissive textures, and an
/// MToon material its six MToon textures; a material that is neither MToon nor lilToon samples
/// nothing else.
pub proof fn lemma_material_pbr_and_mtoon_slots_sampled(m: MaterialTextureSlots)
    ensures
        slot_textures(seq![m.base_color, m.normal, m.occlusion, m.emissive]).subset_of(material_sampled(m)),
        m.mtoon matches Some(t) ==> slot_textures(
            seq![t.shade_multiply, t.shading_shift, t.matcap, t.rim_multiply, t.outline_width_multiply, t.uv_animation_mask],
        ).subset_of(material_sampled(m)),
        m.mtoon is None && m.liltoon is None ==> material_sampled(m) == slot_textures(
            seq![m.base_color, m.normal, m.occlusion, m.emissive],
        ),
{
    let g = material_slot_groups_spec(m);
    let base = seq![m.base_color, m.normal, m.occlusion, m.emissive];
    assert(g[0] == (true, base));
    assert forall|t: usize| slot_textures(base).contains(t) implies material_sampled(m).contains(t) by {
        assert(g[0].0 && slot_textures(g[0].1).contains(t));
    }
    if let Some(t) = m.mtoon {
        let ms = seq![t.shade_multiply, t.shading_shift, t.matcap, t.rim_multiply, t.outline_width_multiply, t.uv_animation_mask];
        assert(g[1] == (true, ms));
        assert forall|x: usize| slot_textures(ms).contains(x) implies material_sampled(m).contains(x) by {
            assert(g[1].0 && slot_textures(g[1].1).contains(x));
        }
    }
    if m.mtoon is None && m.liltoon is None {
        assert(g =~= seq![(true, base)]);
        assert forall|x: usize| material_sampled(m).contains(x) implies slot_textures(base).contains(x) by {
            let k = choose|k: int| 0 <= k < g.len() && (#[trigger] g[k]).0 && slot_textures(g[k].1).contains(x);
            assert(k == 0);
        }
        assert(material_sampled(m) =~= slot_textures(base));
    }
}

/// A material's cube textures are its MToon reflection cube and, when its lilToon reflection
/// samples one, its lilToon reflection cube; nothing else.
pub proof fn lemma_material_cube_slots(m: MaterialTextureSlots, t: usize)
    ensures
        material_cube_slots_spec(m).contains(Some(t)) <==> (m.mtoon matches Some(x) && x.reflection_cube == Some(t)) || (
        m.liltoon matches Some(l) && l.reflection_cube_used && l.reflection_cube == Some(t)),
{
    let c = material_cube_slots_spec(m);
    if c.contains(Some(t)) {
        let k = choose|k: int| 0 <= k < c.len() && c[k] == Some(t);
        assert(k == 0 || k == 1);
    }
    if m.mtoon matches Some(x) && x.reflection_cube == Some(t) {
        assert(c[0] == Some(t));
    }
    if m.liltoon matches Some(l) && l.reflection_cube_used && l.reflection_cube == Some(t) {
        assert(c[1] == Some(t));
    }
}

} // verus!
