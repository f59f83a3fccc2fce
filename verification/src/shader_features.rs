use vstd::prelude::*;

verus! {

/// Which shader variant a device can run.
#[derive(Clone, Copy, Debug, PartialEq, Eq, Structural)]
pub enum MeshShaderVariantTier {
    HighCapability,
    BaselineFallback,
}

impl MeshShaderVariantTier {
    pub fn is_high_capability(self) -> (r: bool)
        ensures
            r == (self == MeshShaderVariantTier::HighCapability),
    {
        match self {
            MeshShaderVariantTier::HighCapability => true,
            MeshShaderVariantTier::BaselineFallback => false,
        }
    }

    pub fn is_baseline_fallback(self) -> (r: bool)
        ensures
            r == (self == MeshShaderVariantTier::BaselineFallback),
    {
        match self {
            MeshShaderVariantTier::HighCapability => false,
            MeshShaderVariantTier::BaselineFallback => true,
        }
    }

    /// The label of the material bind group layout of this tier.
    pub fn material_layout_label(self) -> (label: &'static str)
        ensures
            label@ == (if self == MeshShaderVariantTier::HighCapability {
                "mesh_material"@
            } else {
                "mesh_material_baseline_fallback"@
            }),
    {
        if self.is_high_capability() {
            "mesh_material"
        } else {
            "mesh_material_baseline_fallback"
        }
    }
}

/// Whether a mesh pipeline uses alpha-to-coverage.
#[derive(Clone, Copy, Debug, PartialEq, Eq, Structural)]
pub enum MeshPipelineAlphaCoverage {
    Off,
    On,
}

impl MeshPipelineAlphaCoverage {
    pub fn enabled(self) -> (r: bool)
        ensures
            r == (self == MeshPipelineAlphaCoverage::On),
    {
        match self {
            MeshPipelineAlphaCoverage::Off => false,
            MeshPipelineAlphaCoverage::On => true,
        }
    }
}

/// The optional toon shader features a material (or a pipeline) needs.
#[derive(Clone, Copy, Debug, PartialEq, Eq, PartialOrd, Ord, Structural)]
pub struct UntoonShaderFeatures {
    pub profile_extensions: bool,
    pub main_layers: bool,
    pub alpha_mask: bool,
    pub dissolve: bool,
    pub parallax: bool,
    pub id_mask: bool,
    pub udim_discard: bool,
    pub audio_link: bool,
    pub shadow_layers: bool,
    pub matcap: bool,
    pub matcap_second: bool,
    pub matcap_custom_normal: bool,
    pub reflection: bool,
    pub reflection_cube: bool,
    pub anisotropy: bool,
    pub rim: bool,
    pub rim_shade: bool,
    pub backlight: bool,
    pub glitter: bool,
    pub emission: bool,
    pub emission_second: bool,
    pub distance_fade: bool,
    pub fur: bool,
    pub gem: bool,
    pub refraction: bool,
    pub normal_second: bool,
}

/// No optional feature.
pub open spec fn no_features() -> UntoonShaderFeatures {
    UntoonShaderFeatures {
        profile_extensions: false,
        main_layers: false,
        alpha_mask: false,
        dissolve: false,
        parallax: false,
        id_mask: false,
        udim_discard: false,
        audio_link: false,
        shadow_layers: false,
        matcap: false,
        matcap_second: false,
        matcap_custom_normal: false,
        reflection: false,
        reflection_cube: false,
        anisotropy: false,
        rim: false,
        rim_shade: false,
        backlight: false,
        glitter: false,
        emission: false,
        emission_second: false,
        distance_fade: false,
        fur: false,
        gem: false,
        refraction: false,
        normal_second: false,
    }
}

/// Every optional feature.
pub open spec fn all_features() -> UntoonShaderFeatures {
    UntoonShaderFeatures {
        profile_extensions: true,
        main_layers: true,
        alpha_mask: true,
        dissolve: true,
        parallax: true,
        id_mask: true,
        udim_discard: true,
        audio_link: true,
        shadow_layers: true,
        matcap: true,
        matcap_second: true,
        matcap_custom_normal: true,
        reflection: true,
        reflection_cube: true,
        anisotropy: true,
        rim: true,
        rim_shade: true,
        backlight: true,
        glitter: true,
        emission: true,
        emission_second: true,
        distance_fade: true,
        fur: true,
        gem: true,
        refraction: true,
        normal_second: true,
    }
}

/// The features needed by either of two users.
pub open spec fn features_union(a: UntoonShaderFeatures, b: UntoonShaderFeatures) -> UntoonShaderFeatures {
    UntoonShaderFeatures {
        profile_extensions: a.profile_extensions || b.profile_extensions,
        main_layers: a.main_layers || b.main_layers,
        alpha_mask: a.alpha_mask || b.alpha_mask,
        dissolve: a.dissolve || b.dissolve,
        parallax: a.parallax || b.parallax,
        id_mask: a.id_mask || b.id_mask,
        udim_discard: a.udim_discard || b.udim_discard,
        audio_link: a.audio_link || b.audio_link,
        shadow_layers: a.shadow_layers || b.shadow_layers,
        matcap: a.matcap || b.matcap,
        matcap_second: a.matcap_second || b.matcap_second,
        matcap_custom_normal: a.matcap_custom_normal || b.matcap_custom_normal,
        reflection: a.reflection || b.reflection,
        reflection_cube: a.reflection_cube || b.reflection_cube,
        anisotropy: a.anisotropy || b.anisotropy,
        rim: a.rim || b.rim,
        rim_shade: a.rim_shade || b.rim_shade,
        backlight: a.backlight || b.backlight,
        glitter: a.glitter || b.glitter,
        emission: a.emission || b.emission,
        emission_second: a.emission_second || b.emission_second,
        distance_fade: a.distance_fade || b.distance_fade,
        fur: a.fur || b.fur,
        gem: a.gem || b.gem,
        refraction: a.refraction || b.refraction,
        normal_second: a.normal_second || b.normal_second,
    }
}

/// `a` needs no feature that `b` does not.
pub open spec fn features_subset(a: UntoonShaderFeatures, b: UntoonShaderFeatures) -> bool {
    (a.profile_extensions ==> b.profile_extensions)
    && (a.main_layers ==> b.main_layers)
    && (a.alpha_mask ==> b.alpha_mask)
    && (a.dissolve ==> b.dissolve)
    && (a.parallax ==> b.parallax)
    && (a.id_mask ==> b.id_mask)
    && (a.udim_discard ==> b.udim_discard)
    && (a.audio_link ==> b.audio_link)
    && (a.shadow_layers ==> b.shadow_layers)
    && (a.matcap ==> b.matcap)
    && (a.matcap_second ==> b.matcap_second)
    && (a.matcap_custom_normal ==> b.matcap_custom_normal)
    && (a.reflection ==> b.reflection)
    && (a.reflection_cube ==> b.reflection_cube)
    && (a.anisotropy ==> b.anisotropy)
    && (a.rim ==> b.rim)
    && (a.rim_shade ==> b.rim_shade)
    && (a.backlight ==> b.backlight)
    && (a.glitter ==> b.glitter)
    && (a.emission ==> b.emission)
    && (a.emission_second ==> b.emission_second)
    && (a.distance_fade ==> b.distance_fade)
    && (a.fur ==> b.fur)
    && (a.gem ==> b.gem)
    && (a.refraction ==> b.refraction)
    && (a.normal_second ==> b.normal_second)
}

impl Default for UntoonShaderFeatures {
    fn default() -> (f: Self)
        ensures
            f == no_features(),
    {
        UntoonShaderFeatures::none()
    }
}

/// The feature flags in the order the shader declares them, each with its constant's name.
pub open spec fn feature_value_seq(f: UntoonShaderFeatures) -> Seq<(&'static str, bool)> {
    seq![
        ("UNTOON_FEATURE_PROFILE_EXTENSIONS", f.profile_extensions),
        ("UNTOON_FEATURE_MAIN_LAYERS", f.main_layers),
        ("UNTOON_FEATURE_ALPHA_MASK", f.alpha_mask),
        ("UNTOON_FEATURE_DISSOLVE", f.dissolve),
        ("UNTOON_FEATURE_PARALLAX", f.parallax),
        ("UNTOON_FEATURE_ID_MASK", f.id_mask),
        ("UNTOON_FEATURE_UDIM_DISCARD", f.udim_discard),
        ("UNTOON_FEATURE_AUDIO_LINK", f.audio_link),
        ("UNTOON_FEATURE_SHADOW_LAYERS", f.shadow_layers),
        ("UNTOON_FEATURE_MATCAP", f.matcap),
        ("UNTOON_FEATURE_MATCAP_SECOND", f.matcap_second),
        ("UNTOON_FEATURE_MATCAP_CUSTOM_NORMAL", f.matcap_custom_normal),
        ("UNTOON_FEATURE_REFLECTION", f.reflection),
        ("UNTOON_FEATURE_REFLECTION_CUBE", f.reflection_cube),
        ("UNTOON_FEATURE_ANISOTROPY", f.anisotropy),
        ("UNTOON_FEATURE_RIM", f.rim),
        ("UNTOON_FEATURE_RIM_SHADE", f.rim_shade),
        ("UNTOON_FEATURE_BACKLIGHT", f.backlight),
        ("UNTOON_FEATURE_GLITTER", f.glitter),
        ("UNTOON_FEATURE_EMISSION", f.emission),
        ("UNTOON_FEATURE_EMISSION_SECOND", f.emission_second),
        ("UNTOON_FEATURE_DISTANCE_FADE", f.distance_fade),
        ("UNTOON_FEATURE_FUR", f.fur),
        ("UNTOON_FEATURE_GEM", f.gem),
        ("UNTOON_FEATURE_REFRACTION", f.refraction),
        ("UNTOON_FEATURE_NORMAL_SECOND", f.normal_second),
    ]
}

proof fn lemma_table_entries(f: UntoonShaderFeatures)
    ensures
        feature_value_seq(f).len() == 26,
        feature_value_seq(f)[0].1 == f.profile_extensions,
        feature_value_seq(f)[1].1 == f.main_layers,
        feature_value_seq(f)[2].1 == f.alpha_mask,
        feature_value_seq(f)[3].1 == f.dissolve,
        feature_value_seq(f)[4].1 == f.parallax,
        feature_value_seq(f)[5].1 == f.id_mask,
        feature_value_seq(f)[6].1 == f.udim_discard,
        feature_value_seq(f)[7].1 == f.audio_link,
        feature_value_seq(f)[8].1 == f.shadow_layers,
        feature_value_seq(f)[9].1 == f.matcap,
        feature_value_seq(f)[10].1 == f.matcap_second,
        feature_value_seq(f)[11].1 == f.matcap_custom_normal,
        feature_value_seq(f)[12].1 == f.reflection,
        feature_value_seq(f)[13].1 == f.reflection_cube,
        feature_value_seq(f)[14].1 == f.anisotropy,
        feature_value_seq(f)[15].1 == f.rim,
        feature_value_seq(f)[16].1 == f.rim_shade,
        feature_value_seq(f)[17].1 == f.backlight,
        feature_value_seq(f)[18].1 == f.glitter,
        feature_value_seq(f)[19].1 == f.emission,
        feature_value_seq(f)[20].1 == f.emission_second,
        feature_value_seq(f)[21].1 == f.distance_fade,
        feature_value_seq(f)[22].1 == f.fur,
        feature_value_seq(f)[23].1 == f.gem,
        feature_value_seq(f)[24].1 == f.refraction,
        feature_value_seq(f)[25].1 == f.normal_second,
{
}

proof fn lemma_table_determines_flags(f: UntoonShaderFeatures, g: UntoonShaderFeatures)
    requires
        feature_value_seq(f) == feature_value_seq(g),
    ensures
        f == g,
{
    lemma_table_entries(f);
    lemma_table_entries(g);
}

/// The feature table names each of the 26 flags once, under a name that does not depend on
/// the flags: two feature sets give the same table exactly when they are equal.
pub proof fn lemma_feature_values_injective(f: UntoonShaderFeatures, g: UntoonShaderFeatures)
    ensures
        feature_value_seq(f).len() == 26,
        feature_value_seq(f) == feature_value_seq(g) <==> f == g,
{
    let a = feature_value_seq(f);
    let b = feature_value_seq(g);
    if a == b {
        lemma_table_determines_flags(f, g);
    }
}

/// A few characters that tell the feature names apart: the length, the three characters
/// after the prefix, and the seventh from the end.
spec fn name_key(s: Seq<char>) -> (nat, char, char, char, char) {
    (s.len(), s[15], s[16], s[17], s[s.len() - 7])
}

/// The feature names are pairwise distinct and all begin with `UNTOON_FEATURE_`.
pub proof fn lemma_feature_names_distinct(f: UntoonShaderFeatures)
    ensures
        forall|i: int, j: int|
            0 <= i < j < 26 ==> (#[trigger] feature_value_seq(f)[i]).0@ != (#[trigger] feature_value_seq(f)[j]).0@,
        forall|i: int| 0 <= i < 26 ==> (#[trigger] feature_value_seq(f)[i]).0@.take(15) == "UNTOON_FEATURE_"@,
{
    reveal_strlit("UNTOON_FEATURE_");
    reveal_strlit("UNTOON_FEATURE_PROFILE_EXTENSIONS");
    reveal_strlit("UNTOON_FEATURE_MAIN_LAYERS");
    reveal_strlit("UNTOON_FEATURE_ALPHA_MASK");
    reveal_strlit("UNTOON_FEATURE_DISSOLVE");
    reveal_strlit("UNTOON_FEATURE_PARALLAX");
    reveal_strlit("UNTOON_FEATURE_ID_MASK");
    reveal_strlit("UNTOON_FEATURE_UDIM_DISCARD");
    reveal_strlit("UNTOON_FEATURE_AUDIO_LINK");
    reveal_strlit("UNTOON_FEATURE_SHADOW_LAYERS");
    reveal_strlit("UNTOON_FEATURE_MATCAP");
    reveal_strlit("UNTOON_FEATURE_MATCAP_SECOND");
    reveal_strlit("UNTOON_FEATURE_MATCAP_CUSTOM_NORMAL");
    reveal_strlit("UNTOON_FEATURE_REFLECTION");
    reveal_strlit("UNTOON_FEATURE_REFLECTION_CUBE");
    reveal_strlit("UNTOON_FEATURE_ANISOTROPY");
    reveal_strlit("UNTOON_FEATURE_RIM");
    reveal_strlit("UNTOON_FEATURE_RIM_SHADE");
    reveal_strlit("UNTOON_FEATURE_BACKLIGHT");
    reveal_strlit("UNTOON_FEATURE_GLITTER");
    reveal_strlit("UNTOON_FEATURE_EMISSION");
    reveal_strlit("UNTOON_FEATURE_EMISSION_SECOND");
    reveal_strlit("UNTOON_FEATURE_DISTANCE_FADE");
    reveal_strlit("UNTOON_FEATURE_FUR");
    reveal_strlit("UNTOON_FEATURE_GEM");
    reveal_strlit("UNTOON_FEATURE_REFRACTION");
    reveal_strlit("UNTOON_FEATURE_NORMAL_SECOND");
    let a = feature_value_seq(f);
    assert(name_key(a[0].0@) == (33nat, 'P', 'R', 'O', 'E'));
    assert(name_key(a[1].0@) == (26nat, 'M', 'A', 'I', '_'));
    assert(name_key(a[2].0@) == (25nat, 'A', 'L', 'P', 'H'));
    assert(name_key(a[3].0@) == (23nat, 'D', 'I', 'S', 'I'));
    assert(name_key(a[4].0@) == (23nat, 'P', 'A', 'R', 'A'));
    assert(name_key(a[5].0@) == (22nat, 'I', 'D', '_', 'I'));
    assert(name_key(a[6].0@) == (27nat, 'U', 'D', 'I', 'D'));
    assert(name_key(a[7].0@) == (25nat, 'A', 'U', 'D', 'I'));
    assert(name_key(a[8].0@) == (28nat, 'S', 'H', 'A', '_'));
    assert(name_key(a[9].0@) == (21nat, 'M', 'A', 'T', '_'));
    assert(name_key(a[10].0@) == (28nat, 'M', 'A', 'T', '_'));
    assert(name_key(a[11].0@) == (35nat, 'M', 'A', 'T', '_'));
    assert(name_key(a[12].0@) == (25nat, 'R', 'E', 'F', 'L'));
    assert(name_key(a[13].0@) == (30nat, 'R', 'E', 'F', 'O'));
    assert(name_key(a[14].0@) == (25nat, 'A', 'N', 'I', 'S'));
    assert(name_key(a[15].0@) == (18nat, 'R', 'I', 'M', 'U'));
    assert(name_key(a[16].0@) == (24nat, 'R', 'I', 'M', 'M'));
    assert(name_key(a[17].0@) == (24nat, 'B', 'A', 'C', 'C'));
    assert(name_key(a[18].0@) == (22nat, 'G', 'L', 'I', 'G'));
    assert(name_key(a[19].0@) == (23nat, 'E', 'M', 'I', 'M'));
    assert(name_key(a[20].0@) == (30nat, 'E', 'M', 'I', '_'));
    assert(name_key(a[21].0@) == (28nat, 'D', 'I', 'S', 'C'));
    assert(name_key(a[22].0@) == (18nat, 'F', 'U', 'R', 'U'));
    assert(name_key(a[23].0@) == (18nat, 'G', 'E', 'M', 'U'));
    assert(name_key(a[24].0@) == (25nat, 'R', 'E', 'F', 'R'));
    assert(name_key(a[25].0@) == (28nat, 'N', 'O', 'R', '_'));
    assert forall|i: int| 0 <= i < 26 implies (#[trigger] a[i]).0@.take(15) == "UNTOON_FEATURE_"@ by {
        assert(a[i].0@.take(15) =~= "UNTOON_FEATURE_"@);
    }
    assert forall|i: int, j: int| 0 <= i < j < 26 implies (#[trigger] a[i]).0@ != (#[trigger] a[j]).0@ by {
        if a[i].0@ == a[j].0@ {
            assert(name_key(a[i].0@) == name_key(a[j].0@));
        }
    }
}

impl UntoonShaderFeatures {
    /// No optional feature.
    pub fn none() -> (f: Self)
        ensures
            f == no_features(),
    {
        UntoonShaderFeatures {
            profile_extensions: false,
            main_layers: false,
            alpha_mask: false,
            dissolve: false,
            parallax: false,
            id_mask: false,
            udim_discard: false,
            audio_link: false,
            shadow_layers: false,
            matcap: false,
            matcap_second: false,
            matcap_custom_normal: false,
            reflection: false,
            reflection_cube: false,
            anisotropy: false,
            rim: false,
            rim_shade: false,
            backlight: false,
            glitter: false,
            emission: false,
            emission_second: false,
            distance_fade: false,
            fur: false,
            gem: false,
            refraction: false,
            normal_second: false,
        }
    }

    /// Adds the features of `other` to `self`.
    pub fn merge(&mut self, other: Self)
        ensures
            *final(self) == features_union(*old(self), other),
    {
        *self = UntoonShaderFeatures {
            profile_extensions: self.profile_extensions || other.profile_extensions,
            main_layers: self.main_layers || other.main_layers,
            alpha_mask: self.alpha_mask || other.alpha_mask,
            dissolve: self.dissolve || other.dissolve,
            parallax: self.parallax || other.parallax,
            id_mask: self.id_mask || other.id_mask,
            udim_discard: self.udim_discard || other.udim_discard,
            audio_link: self.audio_link || other.audio_link,
            shadow_layers: self.shadow_layers || other.shadow_layers,
            matcap: self.matcap || other.matcap,
            matcap_second: self.matcap_second || other.matcap_second,
            matcap_custom_normal: self.matcap_custom_normal || other.matcap_custom_normal,
            reflection: self.reflection || other.reflection,
            reflection_cube: self.reflection_cube || other.reflection_cube,
            anisotropy: self.anisotropy || other.anisotropy,
            rim: self.rim || other.rim,
            rim_shade: self.rim_shade || other.rim_shade,
            backlight: self.backlight || other.backlight,
            glitter: self.glitter || other.glitter,
            emission: self.emission || other.emission,
            emission_second: self.emission_second || other.emission_second,
            distance_fade: self.distance_fade || other.distance_fade,
            fur: self.fur || other.fur,
            gem: self.gem || other.gem,
            refraction: self.refraction || other.refraction,
            normal_second: self.normal_second || other.normal_second,
        };
    }

    /// The shader override constants with the value each feature gives them.
    pub fn shader_feature_values(self) -> (values: [(&'static str, bool); 26])
        ensures
            values@ == feature_value_seq(self),
    {
        [
            ("UNTOON_FEATURE_PROFILE_EXTENSIONS", self.profile_extensions),
            ("UNTOON_FEATURE_MAIN_LAYERS", self.main_layers),
            ("UNTOON_FEATURE_ALPHA_MASK", self.alpha_mask),
            ("UNTOON_FEATURE_DISSOLVE", self.dissolve),
            ("UNTOON_FEATURE_PARALLAX", self.parallax),
            ("UNTOON_FEATURE_ID_MASK", self.id_mask),
            ("UNTOON_FEATURE_UDIM_DISCARD", self.udim_discard),
            ("UNTOON_FEATURE_AUDIO_LINK", self.audio_link),
            ("UNTOON_FEATURE_SHADOW_LAYERS", self.shadow_layers),
            ("UNTOON_FEATURE_MATCAP", self.matcap),
            ("UNTOON_FEATURE_MATCAP_SECOND", self.matcap_second),
            ("UNTOON_FEATURE_MATCAP_CUSTOM_NORMAL", self.matcap_custom_normal),
            ("UNTOON_FEATURE_REFLECTION", self.reflection),
            ("UNTOON_FEATURE_REFLECTION_CUBE", self.reflection_cube),
            ("UNTOON_FEATURE_ANISOTROPY", self.anisotropy),
            ("UNTOON_FEATURE_RIM", self.rim),
            ("UNTOON_FEATURE_RIM_SHADE", self.rim_shade),
            ("UNTOON_FEATURE_BACKLIGHT", self.backlight),
            ("UNTOON_FEATURE_GLITTER", self.glitter),
            ("UNTOON_FEATURE_EMISSION", self.emission),
            ("UNTOON_FEATURE_EMISSION_SECOND", self.emission_second),
            ("UNTOON_FEATURE_DISTANCE_FADE", self.distance_fade),
            ("UNTOON_FEATURE_FUR", self.fur),
            ("UNTOON_FEATURE_GEM", self.gem),
            ("UNTOON_FEATURE_REFRACTION", self.refraction),
            ("UNTOON_FEATURE_NORMAL_SECOND", self.normal_second),
        ]
    }
}

/// The features prewarmed for lilToon materials: all of them.
pub fn full_liltoon_prewarm_features() -> (f: UntoonShaderFeatures)
    ensures
        f == all_features(),
{
    UntoonShaderFeatures {
        profile_extensions: true,
        main_layers: true,
        alpha_mask: true,
        dissolve: true,
        parallax: true,
        id_mask: true,
        udim_discard: true,
        audio_link: true,
        shadow_layers: true,
        matcap: true,
        matcap_second: true,
        matcap_custom_normal: true,
        reflection: true,
        reflection_cube: true,
        anisotropy: true,
        rim: true,
        rim_shade: true,
        backlight: true,
        glitter: true,
        emission: true,
        emission_second: true,
        distance_fade: true,
        fur: true,
        gem: true,
        refraction: true,
        normal_second: true,
    }
}

/// The features prewarmed for MToon materials.
pub open spec fn mtoon_prewarm_spec() -> UntoonShaderFeatures {
    UntoonShaderFeatures {
        shadow_layers: true,
        matcap: true,
        reflection: true,
        reflection_cube: true,
        rim: true,
        emission: true,
        ..no_features()
    }
}

pub fn mtoon_prewarm_features() -> (f: UntoonShaderFeatures)
    ensures
        f == mtoon_prewarm_spec(),
{
    UntoonShaderFeatures {
        shadow_layers: true,
        matcap: true,
        reflection: true,
        reflection_cube: true,
        rim: true,
        emission: true,
        ..UntoonShaderFeatures::none()
    }
}

/// The shading family a material's feature plan comes from.
#[derive(Clone, Copy, Debug, PartialEq, Eq, Structural)]
pub enum UntoonSourceProfile {
    Plain,
    MToon,
    LilToon,
}

/// The source profile of a material and the shader features it needs.
#[derive(Clone, Copy, Debug, PartialEq, Eq, Structural)]
pub struct UntoonFeaturePlan {
    pub source_profile: UntoonSourceProfile,
    pub shader_features: UntoonShaderFeatures,
}

impl UntoonFeaturePlan {
    /// The plan of a material without toon features.
    pub fn none() -> (plan: Self)
        ensures
            plan.source_profile == UntoonSourceProfile::Plain,
            plan.shader_features == no_features(),
    {
        UntoonFeaturePlan { source_profile: UntoonSourceProfile::Plain, shader_features: UntoonShaderFeatures::none() }
    }
}

/// What the scene's draws need from the renderer at run time.
#[derive(Clone, Copy, Debug, PartialEq, Eq, Structural)]
pub struct SceneMeshRuntimeRequirements {
    pub audio_link_texture: bool,
    pub screen_refraction: bool,
    pub fur: bool,
    pub toon_shader_features: UntoonShaderFeatures,
}

pub open spec fn no_requirements() -> SceneMeshRuntimeRequirements {
    SceneMeshRuntimeRequirements {
        audio_link_texture: false,
        screen_refraction: false,
        fur: false,
        toon_shader_features: no_features(),
    }
}

pub open spec fn requirements_union(
    a: SceneMeshRuntimeRequirements,
    b: SceneMeshRuntimeRequirements,
) -> SceneMeshRuntimeRequirements {
    SceneMeshRuntimeRequirements {
        audio_link_texture: a.audio_link_texture || b.audio_link_texture,
        screen_refraction: a.screen_refraction || b.screen_refraction,
        fur: a.fur || b.fur,
        toon_shader_features: features_union(a.toon_shader_features, b.toon_shader_features),
    }
}

impl Default for SceneMeshRuntimeRequirements {
    fn default() -> (r: Self)
        ensures
            r == no_requirements(),
    {
        SceneMeshRuntimeRequirements::none()
    }
}

impl SceneMeshRuntimeRequirements {
    /// Nothing required.
    pub fn none() -> (r: Self)
        ensures
            r == no_requirements(),
    {
        SceneMeshRuntimeRequirements {
            audio_link_texture: false,
            screen_refraction: false,
            fur: false,
            toon_shader_features: UntoonShaderFeatures::none(),
        }
    }

    /// Adds the requirements of `other` to `self`.
    pub fn merge(&mut self, other: Self)
        ensures
            *final(self) == requirements_union(*old(self), other),
    {
        self.audio_link_texture = self.audio_link_texture || other.audio_link_texture;
        self.screen_refraction = self.screen_refraction || other.screen_refraction;
        self.fur = self.fur || other.fur;
        self.toon_shader_features.merge(other.toon_shader_features);
    }
}

/// Law: combining feature sets is commutative, associative and idempotent, the empty set
/// is its identity, and the combination contains both operands and nothing else.
pub proof fn lemma_features_union_laws(a: UntoonShaderFeatures, b: UntoonShaderFeatures, c: UntoonShaderFeatures)
    ensures
        features_union(a, b) == features_union(b, a),
        features_union(features_union(a, b), c) == features_union(a, features_union(b, c)),
        features_union(a, a) == a,
        features_union(a, no_features()) == a,
        features_subset(a, features_union(a, b)),
        features_subset(b, features_union(a, b)),
        features_subset(a, c) && features_subset(b, c) ==> features_subset(features_union(a, b), c),
{
}

/// Law: every feature set lies within the full lilToon prewarm set, and so does the MToon one.
pub proof fn lemma_prewarm_sets_cover(f: UntoonShaderFeatures)
    ensures
        features_subset(f, all_features()),
        features_subset(mtoon_prewarm_spec(), all_features()),
        features_union(f, all_features()) == all_features(),
{
}

/// Law: combining runtime requirements is commutative, associative and idempotent,
/// with no requirement as its identity.
pub proof fn lemma_requirements_union_laws(
    a: SceneMeshRuntimeRequirements,
    b: SceneMeshRuntimeRequirements,
    c: SceneMeshRuntimeRequirements,
)
    ensures
        requirements_union(a, b) == requirements_union(b, a),
        requirements_union(requirements_union(a, b), c) == requirements_union(a, requirements_union(b, c)),
        requirements_union(a, a) == a,
        requirements_union(a, no_requirements()) == a,
{
    lemma_features_union_laws(a.toon_shader_features, b.toon_shader_features, c.toon_shader_features);
}

} // verus!
