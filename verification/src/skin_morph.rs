use vstd::prelude::*;
use crate::residency::strictly_increasing;
use crate::stable_sort::{is_stable_sort_of, stable_sort_by_key, stable_sorted_by};
use crate::text::{chars_of, push_all, string_from_chars};

verus! {

/// Upper bound on the bones of one skin (the shader's palette size).
pub const MAX_BONES: usize = 512;

/// The palette node shared by every draw without a skin.
pub const STATIC_IDENTITY_SKIN_PALETTE_NODE: usize = usize::MAX;

/// Which skin palette a draw uses.
#[derive(Clone, Copy, Debug, PartialEq, Eq, Structural)]
pub struct SkinPaletteKey {
    pub world_node_index: usize,
    pub skin_index: Option<usize>,
}

pub open spec fn skin_palette_key_spec(world_node_index: usize, skin_index: Option<usize>) -> SkinPaletteKey {
    SkinPaletteKey {
        world_node_index: if skin_index is Some {
            world_node_index
        } else {
            STATIC_IDENTITY_SKIN_PALETTE_NODE
        },
        skin_index,
    }
}

/// A skinned draw gets the palette of its node and skin; every unskinned draw shares the
/// static identity palette.
pub fn skin_palette_key_for_node(world_node_index: usize, skin_index: Option<usize>) -> (key: SkinPaletteKey)
    ensures
        key == skin_palette_key_spec(world_node_index, skin_index),
{
    SkinPaletteKey {
        world_node_index: match skin_index {
            Some(_) => world_node_index,
            None => STATIC_IDENTITY_SKIN_PALETTE_NODE,
        },
        skin_index,
    }
}

/// Unskinned draws share one palette whatever their node; skinned draws of one skin share a
/// palette exactly when they are on the same node.
pub proof fn lemma_skin_palette_keys(a: usize, b: usize, skin: usize)
    ensures
        skin_palette_key_spec(a, None) == skin_palette_key_spec(b, None),
        skin_palette_key_spec(a, Some(skin)) == skin_palette_key_spec(b, Some(skin)) <==> a == b,
        skin_palette_key_spec(a, Some(skin)) != skin_palette_key_spec(b, None),
{
}

/// The joint and inverse-bind counts of a skin.
#[derive(Clone, Copy, Debug, PartialEq, Eq, Structural)]
pub struct SkinJointCounts {
    pub joint_nodes: usize,
    pub inverse_bind_matrices: usize,
}

pub open spec fn min_usize(a: usize, b: usize) -> usize {
    if a <= b {
        a
    } else {
        b
    }
}

pub open spec fn palette_capacity_spec(skin: Option<SkinJointCounts>) -> usize {
    match skin {
        None => 1,
        Some(s) => {
            let m = min_usize(min_usize(s.joint_nodes, s.inverse_bind_matrices), MAX_BONES);
            if m == 0 {
                1
            } else {
                m
            }
        },
    }
}

/// Palette matrices for a skin: its usable joints (those with an inverse bind matrix), at
/// most `MAX_BONES`, and at least one.
pub fn skin_palette_matrix_capacity(skin: Option<SkinJointCounts>) -> (n: usize)
    ensures
        n == palette_capacity_spec(skin),
        1 <= n <= MAX_BONES,
{
    match skin {
        None => 1,
        Some(s) => {
            let a = if s.joint_nodes <= s.inverse_bind_matrices { s.joint_nodes } else { s.inverse_bind_matrices };
            let m = if a <= MAX_BONES { a } else { MAX_BONES };
            if m == 0 { 1 } else { m }
        },
    }
}

/// The joints a skin's palette can address: its joint nodes, at most its inverse binds and
/// at most `MAX_BONES`.
pub open spec fn skin_joint_count(s: SkinJointCounts) -> usize {
    min_usize(min_usize(s.joint_nodes, s.inverse_bind_matrices), MAX_BONES)
}

/// A joint index past the palette is moved to its last joint.
pub open spec fn clamp_joint(j: u16, joint_count: usize) -> u16 {
    if (j as int) < joint_count {
        j
    } else {
        min_usize((joint_count - 1) as usize, u16::MAX as usize) as u16
    }
}

pub open spec fn clamp_joints(js: [u16; 4], joint_count: usize) -> [u16; 4] {
    [clamp_joint(js[0], joint_count), clamp_joint(js[1], joint_count), clamp_joint(js[2], joint_count), clamp_joint(js[3], joint_count)]
}

/// Clamping keeps every joint index that the palette has and moves every other one to the
/// palette's last joint, so all four indices afterwards address the palette.
pub proof fn lemma_clamp_joints_in_palette(js: [u16; 4], joint_count: usize)
    requires
        0 < joint_count <= MAX_BONES,
    ensures
        forall|k: int| 0 <= k < 4 ==> (#[trigger] clamp_joints(js, joint_count)[k]) < joint_count,
        forall|k: int| 0 <= k < 4 && (js[k] as int) < joint_count ==> #[trigger] clamp_joints(js, joint_count)[k] == js[k],
        forall|k: int| 0 <= k < 4 && (js[k] as int) >= joint_count ==> #[trigger] clamp_joints(js, joint_count)[k] == joint_count
            - 1,
{
    assert(MAX_BONES <= u16::MAX + 1);
}

/// What normalizing a primitive's skinning attributes did.
#[derive(Clone, Copy, Debug, PartialEq, Eq, Structural)]
pub enum SkinningNormalization {
    /// The primitive has no joint attributes: nothing changes.
    Untouched,
    /// No usable skin: every vertex is bound to joint 0 alone (weights `1, 0, 0, 0`).
    ResetToFirstJoint,
    /// Joint indices past the palette were moved to its last joint; weights are kept.
    Clamped,
}

/// Normalizes the joint indices of a primitive's vertices against its skin's palette.
pub fn normalize_skinning_joints(joints: &mut Vec<[u16; 4]>, primitive_has_joints: bool, skin: Option<SkinJointCounts>) -> (r: SkinningNormalization)
    ensures
        !primitive_has_joints ==> r == SkinningNormalization::Untouched && final(joints)@ == old(joints)@,
        primitive_has_joints && (skin is None || skin_joint_count(skin->0) == 0) ==> r
            == SkinningNormalization::ResetToFirstJoint && final(joints)@ == Seq::new(
            old(joints)@.len(),
            |k: int| [0u16, 0u16, 0u16, 0u16],
        ),
        primitive_has_joints && skin is Some && skin_joint_count(skin->0) > 0 ==> r == SkinningNormalization::Clamped
            && final(joints)@ == old(joints)@.map_values(|js: [u16; 4]| clamp_joints(js, skin_joint_count(skin->0))),
{
    if !primitive_has_joints {
        return SkinningNormalization::Untouched;
    }
    let joint_count: usize = match skin {
        None => 0,
        Some(s) => {
            let a = if s.joint_nodes <= s.inverse_bind_matrices { s.joint_nodes } else { s.inverse_bind_matrices };
            if a <= MAX_BONES { a } else { MAX_BONES }
        },
    };
    let ghost start = joints@;
    let n = joints.len();
    if joint_count == 0 {
        let mut k: usize = 0;
        while k < n
            invariant
                k <= n == joints@.len() == start.len(),
                forall|q: int| 0 <= q < k ==> joints@[q] == [0u16, 0u16, 0u16, 0u16],
            decreases n - k,
        {
            joints.set(k, [0, 0, 0, 0]);
            k = k + 1;
        }
        assert(joints@ =~= Seq::new(start.len(), |k: int| [0u16, 0u16, 0u16, 0u16]));
        return SkinningNormalization::ResetToFirstJoint;
    }
    let cap: u16 = if joint_count - 1 <= 0xffff { (joint_count - 1) as u16 } else { 0xffff };
    let mut k: usize = 0;
    while k < n
        invariant
            k <= n == joints@.len() == start.len(),
            0 < joint_count,
            skin is Some && joint_count == skin_joint_count(skin->0),
            cap == min_usize((joint_count - 1) as usize, u16::MAX as usize) as u16,
            forall|q: int| 0 <= q < k ==> joints@[q] == clamp_joints(start[q], joint_count),
            forall|q: int| k <= q < n ==> joints@[q] == start[q],
        decreases n - k,
    {
        let js = joints[k];
        let mut out: [u16; 4] = js;
        if (js[0] as usize) >= joint_count {
            out = [cap, out[1], out[2], out[3]];
        }
        if (js[1] as usize) >= joint_count {
            out = [out[0], cap, out[2], out[3]];
        }
        if (js[2] as usize) >= joint_count {
            out = [out[0], out[1], cap, out[3]];
        }
        if (js[3] as usize) >= joint_count {
            out = [out[0], out[1], out[2], cap];
        }
        assert(out == clamp_joints(js, joint_count));
        joints.set(k, out);
        k = k + 1;
    }
    assert(joints@ =~= start.map_values(|js: [u16; 4]| clamp_joints(js, joint_count)));
    SkinningNormalization::Clamped
}

/// Floats needed for `matrix_count` 4x4 matrices (saturating), and at least one matrix.
pub fn matrix_raw_capacity(matrix_count: usize) -> (n: usize)
    ensures
        n == (if matrix_count * 16 > usize::MAX {
            usize::MAX as int
        } else if matrix_count * 16 < 16 {
            16
        } else {
            matrix_count * 16
        }),
{
    let raw = match matrix_count.checked_mul(16) {
        Some(v) => v,
        None => usize::MAX,
    };
    if raw < 16 { 16 } else { raw }
}

/// The override key of a morph target: its node path and name joined by a NUL, or the bare
/// name for a node without a path.
pub open spec fn morph_override_key_spec(node_path: Seq<char>, morph_name: Seq<char>) -> Seq<char> {
    if node_path.len() == 0 {
        morph_name
    } else {
        node_path + seq!['\0'] + morph_name
    }
}

pub fn morph_override_key(node_path: &str, morph_name: &str) -> (key: String)
    ensures
        key@ == morph_override_key_spec(node_path@, morph_name@),
{
    let mut chars = chars_of(node_path);
    let name = chars_of(morph_name);
    if chars.len() == 0 {
        return string_from_chars(&name);
    }
    chars.push('\0');
    push_all(&mut chars, &name);
    string_from_chars(&chars)
}

/// The position of the first `c` in `s`, or -1.
pub open spec fn find_char(s: Seq<char>, c: char) -> int
    decreases s.len(),
{
    if s.len() == 0 {
        -1
    } else if s[0] == c {
        0
    } else {
        let r = find_char(s.drop_first(), c);
        if r < 0 {
            -1
        } else {
            r + 1
        }
    }
}

pub proof fn lemma_find_char(s: Seq<char>, c: char)
    ensures
        -1 <= find_char(s, c) < s.len(),
        find_char(s, c) >= 0 ==> s[find_char(s, c)] == c,
        forall|i: int| 0 <= i < s.len() && (find_char(s, c) < 0 || i < find_char(s, c)) ==> s[i] != c,
    decreases s.len(),
{
    if s.len() > 0 {
        lemma_find_char(s.drop_first(), c);
        assert forall|i: int| 0 <= i < s.len() && (find_char(s, c) < 0 || i < find_char(s, c)) implies s[i] != c by {
            if i > 0 {
                assert(s[i] == s.drop_first()[i - 1]);
            }
        }
    }
}

fn find_char_exec(s: &Vec<char>, c: char) -> (r: Option<usize>)
    ensures
        match r {
            Some(i) => find_char(s@, c) == i && i < s@.len(),
            None => find_char(s@, c) == -1,
        },
{
    proof {
        lemma_find_char(s@, c);
    }
    let mut i: usize = 0;
    while i < s.len()
        invariant
            i <= s@.len(),
            forall|j: int| 0 <= j < i ==> s@[j] != c,
            -1 <= find_char(s@, c) < s@.len(),
            find_char(s@, c) >= 0 ==> s@[find_char(s@, c)] == c,
            forall|j: int| 0 <= j < s@.len() && (find_char(s@, c) < 0 || j < find_char(s@, c)) ==> s@[j] != c,
        decreases s.len() - i,
    {
        if s[i] == c {
            return Some(i);
        }
        i = i + 1;
    }
    None
}

/// A key with its node path's first segment dropped: `root/rest\0name` becomes `rest\0name`.
/// `None` when the key has no NUL or its path has no `/`.
pub open spec fn path_suffix_key_spec(key: Seq<char>) -> Option<Seq<char>> {
    let z = find_char(key, '\0');
    if z < 0 {
        None
    } else {
        let path = key.take(z);
        let name = key.skip(z + 1);
        let s = find_char(path, '/');
        if s < 0 {
            None
        } else {
            Some(path.skip(s + 1) + seq!['\0'] + name)
        }
    }
}

fn subrange_chars(s: &Vec<char>, lo: usize, hi: usize) -> (out: Vec<char>)
    requires
        lo <= hi <= s@.len(),
    ensures
        out@ == s@.subrange(lo as int, hi as int),
{
    let mut out: Vec<char> = Vec::new();
    let mut k: usize = lo;
    while k < hi
        invariant
            lo <= k <= hi <= s@.len(),
            out@ == s@.subrange(lo as int, k as int),
        decreases hi - k,
    {
        out.push(s[k]);
        assert(s@.subrange(lo as int, k + 1) =~= s@.subrange(lo as int, k as int).push(s@[k as int]));
        k = k + 1;
    }
    out
}

pub fn morph_override_path_suffix_key(key: &str) -> (r: Option<String>)
    ensures
        match r {
            Some(v) => path_suffix_key_spec(key@) == Some(v@),
            None => path_suffix_key_spec(key@) is None,
        },
{
    let chars = chars_of(key);
    let z = match find_char_exec(&chars, '\0') {
        Some(z) => z,
        None => return None,
    };
    proof {
        lemma_find_char(key@, '\0');
    }
    let n = chars.len();
    let path = subrange_chars(&chars, 0, z);
    let name = subrange_chars(&chars, z + 1, n);
    assert(path@ =~= key@.take(z as int));
    assert(name@ =~= key@.skip(z + 1));
    let s = match find_char_exec(&path, '/') {
        Some(s) => s,
        None => return None,
    };
    proof {
        lemma_find_char(path@, '/');
    }
    let mut out = subrange_chars(&path, s + 1, path.len());
    assert(out@ =~= path@.skip(s + 1));
    out.push('\0');
    push_all(&mut out, &name);
    Some(string_from_chars(&out))
}

/// For a key built from a node path with a `/` and no NUL, the suffix key is the path after its
/// first `/`, a NUL and the morph name.
pub proof fn lemma_suffix_of_override_key(node_path: Seq<char>, morph_name: Seq<char>)
    requires
        find_char(node_path, '\0') < 0,
        find_char(node_path, '/') >= 0,
    ensures
        path_suffix_key_spec(morph_override_key_spec(node_path, morph_name)) == Some(
            node_path.skip(find_char(node_path, '/') + 1) + seq!['\0'] + morph_name,
        ),
{
    lemma_find_char(node_path, '\0');
    lemma_find_char(node_path, '/');
    let key = morph_override_key_spec(node_path, morph_name);
    assert(node_path.len() > 0);
    assert(key == node_path + seq!['\0'] + morph_name);
    lemma_find_char(key, '\0');
    let z = find_char(key, '\0');
    assert(key[node_path.len() as int] == '\0');
    assert forall|i: int| 0 <= i < node_path.len() implies key[i] != '\0' by {
        assert(key[i] == node_path[i]);
    }
    assert(z == node_path.len());
    assert(key.take(z) =~= node_path);
    assert(key.skip(z + 1) =~= morph_name);
}

/// A morph target driven by an expression preset, with its weight scale carried as the bits of
/// an `f32`.
#[derive(Clone, Copy, Debug, PartialEq, Eq, Structural)]
pub struct ExpressionBinding {
    pub preset_index: usize,
    pub morph_target_index: usize,
    pub weight_scale_bits: u32,
}

/// The position of `v` in `s`, or -1.
pub open spec fn position_of(s: Seq<usize>, v: usize) -> int {
    if exists|i: int| 0 <= i < s.len() && s[i] == v {
        choose|i: int| 0 <= i < s.len() && s[i] == v
    } else {
        -1
    }
}

/// The bindings whose morph target is among the draw's source morphs, renumbered to that
/// morph's position there, in order.
pub open spec fn remap_spec(bindings: Seq<ExpressionBinding>, sources: Seq<usize>) -> Seq<ExpressionBinding>
    decreases bindings.len(),
{
    if bindings.len() == 0 {
        Seq::empty()
    } else {
        let earlier = remap_spec(bindings.drop_last(), sources);
        let b = bindings.last();
        let p = position_of(sources, b.morph_target_index);
        if p < 0 {
            earlier
        } else {
            earlier.push(
                ExpressionBinding {
                    preset_index: b.preset_index,
                    morph_target_index: p as usize,
                    weight_scale_bits: b.weight_scale_bits,
                },
            )
        }
    }
}

/// Binary search in a strictly increasing list.
pub fn search_sorted(sources: &[usize], v: usize) -> (r: Option<usize>)
    requires
        strictly_increasing(sources@),
    ensures
        match r {
            Some(p) => p < sources@.len() && sources@[p as int] == v && position_of(sources@, v) == p,
            None => position_of(sources@, v) == -1,
        },
{
    let mut lo: usize = 0;
    let mut hi: usize = sources.len();
    while lo < hi
        invariant
            lo <= hi <= sources@.len(),
            strictly_increasing(sources@),
            forall|i: int| 0 <= i < lo ==> sources@[i] < v,
            forall|i: int| hi <= i < sources@.len() ==> sources@[i] > v,
        decreases hi - lo,
    {
        let mid = lo + (hi - lo) / 2;
        if sources[mid] == v {
            proof {
                assert forall|i: int| 0 <= i < sources@.len() && sources@[i] == v implies i == mid by {
                    if i < mid {
                        assert(sources@[i] < sources@[mid as int]);
                    } else if i > mid {
                        assert(sources@[mid as int] < sources@[i]);
                    }
                }
            }
            return Some(mid);
        } else if sources[mid] < v {
            proof {
                assert forall|i: int| 0 <= i < mid + 1 implies sources@[i] < v by {
                    if i < mid {
                        assert(sources@[i] < sources@[mid as int]);
                    }
                }
            }
            lo = mid + 1;
        } else {
            proof {
                assert forall|i: int| mid <= i < sources@.len() implies sources@[i] > v by {
                    if i > mid {
                        assert(sources@[mid as int] < sources@[i]);
                    }
                }
            }
            hi = mid;
        }
    }
    None
}

/// Renumbers expression bindings to a draw's source morphs (sorted, without repeats), dropping
/// those whose morph the draw does not have.
pub fn remap_expression_bindings(bindings: &[ExpressionBinding], morph_source_indices: &[usize]) -> (out: Vec<
    ExpressionBinding,
>)
    requires
        strictly_increasing(morph_source_indices@),
    ensures
        out@ == remap_spec(bindings@, morph_source_indices@),
{
    let mut out: Vec<ExpressionBinding> = Vec::new();
    if bindings.len() == 0 || morph_source_indices.len() == 0 {
        proof {
            lemma_remap_without_sources(bindings@, morph_source_indices@);
        }
        return out;
    }
    let mut k: usize = 0;
    while k < bindings.len()
        invariant
            k <= bindings@.len(),
            strictly_increasing(morph_source_indices@),
            out@ == remap_spec(bindings@.take(k as int), morph_source_indices@),
        decreases bindings.len() - k,
    {
        let b = bindings[k];
        proof {
            assert(bindings@.take(k + 1).drop_last() =~= bindings@.take(k as int));
            assert(bindings@.take(k + 1).last() == b);
        }
        match search_sorted(morph_source_indices, b.morph_target_index) {
            Some(p) => {
                out.push(
                    ExpressionBinding {
                        preset_index: b.preset_index,
                        morph_target_index: p,
                        weight_scale_bits: b.weight_scale_bits,
                    },
                );
            },
            None => {},
        }
        k = k + 1;
    }
    assert(bindings@.take(bindings@.len() as int) =~= bindings@);
    out
}

proof fn lemma_remap_without_sources(bindings: Seq<ExpressionBinding>, sources: Seq<usize>)
    requires
        bindings.len() == 0 || sources.len() == 0,
    ensures
        remap_spec(bindings, sources) == Seq::<ExpressionBinding>::empty(),
    decreases bindings.len(),
{
    if bindings.len() > 0 {
        lemma_remap_without_sources(bindings.drop_last(), sources);
    }
}

/// The material property name `_` + prefix + suffix (Unity's `_Prefix` + `Suffix` naming).
pub fn prefixed_material_name(prefix: &str, suffix: &str) -> (name: String)
    ensures
        name@ == seq!['_'] + prefix@ + suffix@,
{
    let mut chars: Vec<char> = Vec::new();
    chars.push('_');
    let p = chars_of(prefix);
    let s = chars_of(suffix);
    push_all(&mut chars, &p);
    push_all(&mut chars, &s);
    assert(chars@ =~= seq!['_'] + prefix@ + suffix@);
    string_from_chars(&chars)
}


/// Each draw index paired with the skin palette of its draw, the palette as the sort key.
pub open spec fn keyed_by_palette(draw_skin_palettes: Seq<usize>, draw_indices: Seq<usize>) -> Seq<(u128, usize)> {
    draw_indices.map_values(|d: usize| (draw_skin_palettes[d as int] as u128, d))
}

/// Orders the draw indices by the skin palette of their draws, keeping the order of draws
/// that share a palette, so that each palette is bound once per run.
pub fn group_draw_indices_by_skin_palette(draw_skin_palettes: &Vec<usize>, draw_indices: &mut Vec<usize>)
    requires
        forall|k: int| 0 <= k < old(draw_indices)@.len() ==> #[trigger] old(draw_indices)@[k] < draw_skin_palettes@.len(),
    ensures
        final(draw_indices)@.len() == old(draw_indices)@.len(),
        is_stable_sort_of(
            keyed_by_palette(draw_skin_palettes@, final(draw_indices)@),
            keyed_by_palette(draw_skin_palettes@, old(draw_indices)@),
        ),
{
    let ghost inp = keyed_by_palette(draw_skin_palettes@, draw_indices@);
    let mut keyed: Vec<(u128, usize)> = Vec::new();
    let mut k: usize = 0;
    while k < draw_indices.len()
        invariant
            k <= draw_indices@.len(),
            inp == keyed_by_palette(draw_skin_palettes@, draw_indices@),
            forall|q: int| 0 <= q < draw_indices@.len() ==> #[trigger] draw_indices@[q] < draw_skin_palettes@.len(),
            keyed@ == inp.take(k as int),
        decreases draw_indices.len() - k,
    {
        let d = draw_indices[k];
        keyed.push((draw_skin_palettes[d] as u128, d));
        assert(keyed@ =~= inp.take(k + 1));
        k = k + 1;
    }
    assert(keyed@ =~= inp);
    stable_sort_by_key(&mut keyed);
    let ghost sorted = keyed@;
    let ghost p = choose|p: Seq<int>| stable_sorted_by(sorted, inp, p);
    assert forall|q: int| 0 <= q < sorted.len() implies #[trigger] sorted[q].0 == draw_skin_palettes@[sorted[q].1 as int] as u128 by {
        assert(sorted[q] == inp[p[q]]);
    }
    let mut out: Vec<usize> = Vec::new();
    let mut j: usize = 0;
    while j < keyed.len()
        invariant
            j <= keyed@.len(),
            keyed@ == sorted,
            forall|q: int| 0 <= q < sorted.len() ==> #[trigger] sorted[q].0 == draw_skin_palettes@[sorted[q].1 as int] as u128,
            out@ == sorted.take(j as int).map_values(|e: (u128, usize)| e.1),
        decreases keyed.len() - j,
    {
        out.push(keyed[j].1);
        assert(out@ =~= sorted.take(j + 1).map_values(|e: (u128, usize)| e.1));
        j = j + 1;
    }
    assert(keyed_by_palette(draw_skin_palettes@, out@) =~= sorted);
    *draw_indices = out;
}

/// The value of the override named `name`, if the table has one (names are unique in it).
pub open spec fn override_named<V>(overrides: Seq<(String, V)>, name: Seq<char>) -> Option<V> {
    if exists|k: int| 0 <= k < overrides.len() && (#[trigger] overrides[k]).0@ == name {
        Some(overrides[choose|k: int| 0 <= k < overrides.len() && (#[trigger] overrides[k]).0@ == name].1)
    } else {
        None
    }
}

pub open spec fn override_names_unique<V>(overrides: Seq<(String, V)>) -> bool {
    forall|i: int, j: int| 0 <= i < j < overrides.len() ==> (#[trigger] overrides[i]).0@ != (#[trigger] overrides[j]).0@
}

/// The override that applies to a morph target: the one under its node-path key, else the one
/// under its path-suffix key, else the one under its bare name.
pub open spec fn morph_override_spec<V>(
    overrides: Seq<(String, V)>,
    key: Option<Seq<char>>,
    suffix_key: Option<Seq<char>>,
    name: Seq<char>,
) -> Option<V> {
    match key {
        Some(k) if override_named(overrides, k) is Some => override_named(overrides, k),
        _ => match suffix_key {
            Some(k) if override_named(overrides, k) is Some => override_named(overrides, k),
            _ => override_named(overrides, name),
        },
    }
}

proof fn lemma_override_named_entry<V>(overrides: Seq<(String, V)>, name: Seq<char>)
    requires
        override_names_unique(overrides),
    ensures
        forall|i: int| 0 <= i < overrides.len() && (#[trigger] overrides[i]).0@ == name ==> override_named(overrides, name)
            == Some(overrides[i].1),
        (forall|i: int| 0 <= i < overrides.len() ==> (#[trigger] overrides[i]).0@ != name) ==> override_named(overrides, name)
            is None,
{
    assert forall|i: int| 0 <= i < overrides.len() && (#[trigger] overrides[i]).0@ == name implies override_named(
        overrides,
        name,
    ) == Some(overrides[i].1) by {
        let c = choose|k: int| 0 <= k < overrides.len() && (#[trigger] overrides[k]).0@ == name;
        if c != i {
            if c < i {
                assert(overrides[c].0@ != overrides[i].0@);
            } else {
                assert(overrides[i].0@ != overrides[c].0@);
            }
        }
    }
}

/// The lookup order of a morph target's override: an override under its node-path key wins;
/// failing that, one under its path-suffix key wins over any under its bare name; failing
/// both, the bare name's override applies, and without one there is none.
pub proof fn lemma_morph_override_lookup_order<V>(
    overrides: Seq<(String, V)>,
    key: Option<Seq<char>>,
    suffix_key: Option<Seq<char>>,
    name: Seq<char>,
)
    requires
        override_names_unique(overrides),
    ensures
        forall|i: int|
            0 <= i < overrides.len() && key == Some((#[trigger] overrides[i]).0@) ==> morph_override_spec(
                overrides,
                key,
                suffix_key,
                name,
            ) == Some(overrides[i].1),
        forall|j: int|
            0 <= j < overrides.len() && suffix_key == Some((#[trigger] overrides[j]).0@) && (forall|i: int|
                0 <= i < overrides.len() ==> key != Some((#[trigger] overrides[i]).0@)) ==> morph_override_spec(
                overrides,
                key,
                suffix_key,
                name,
            ) == Some(overrides[j].1),
        forall|m: int|
            0 <= m < overrides.len() && name == (#[trigger] overrides[m]).0@ && (forall|i: int|
                0 <= i < overrides.len() ==> key != Some((#[trigger] overrides[i]).0@) && suffix_key != Some(
                    overrides[i].0@,
                )) ==> morph_override_spec(overrides, key, suffix_key, name) == Some(overrides[m].1),
        (forall|i: int|
            0 <= i < overrides.len() ==> key != Some((#[trigger] overrides[i]).0@) && suffix_key != Some(overrides[i].0@)
                && name != overrides[i].0@) ==> morph_override_spec(overrides, key, suffix_key, name) is None,
{
    lemma_override_named_entry(overrides, name);
    match key {
        Some(k) => lemma_override_named_entry(overrides, k),
        None => {},
    }
    match suffix_key {
        Some(k) => lemma_override_named_entry(overrides, k),
        None => {},
    }
}

fn find_override<V: Copy>(overrides: &Vec<(String, V)>, name: &String) -> (r: Option<V>)
    requires
        override_names_unique(overrides@),
    ensures
        r == override_named(overrides@, name@),
{
    let mut k: usize = 0;
    while k < overrides.len()
        invariant
            k <= overrides@.len(),
            override_names_unique(overrides@),
            forall|q: int| 0 <= q < k ==> (#[trigger] overrides@[q]).0@ != name@,
        decreases overrides.len() - k,
    {
        if overrides[k].0.eq(name) {
            proof {
                let c = choose|c: int| 0 <= c < overrides@.len() && (#[trigger] overrides@[c]).0@ == name@;
                if c != k {
                    if c < k {
                        assert(overrides@[c].0@ != overrides@[k as int].0@);
                    } else {
                        assert(overrides@[k as int].0@ != overrides@[c].0@);
                    }
                }
            }
            return Some(overrides[k].1);
        }
        k = k + 1;
    }
    None
}

/// The override value of a morph target, looked up by its node-path key, then its
/// path-suffix key, then its name.
pub fn morph_override_value<V: Copy>(
    overrides: &Vec<(String, V)>,
    key: Option<&String>,
    suffix_key: Option<&String>,
    name: &String,
) -> (r: Option<V>)
    requires
        override_names_unique(overrides@),
    ensures
        r == morph_override_spec(
            overrides@,
            match key {
                Some(k) => Some(k@),
                None => None,
            },
            match suffix_key {
                Some(k) => Some(k@),
                None => None,
            },
            name@,
        ),
{
    if let Some(k) = key {
        let v = find_override(overrides, k);
        if v.is_some() {
            return v;
        }
    }
    if let Some(k) = suffix_key {
        let v = find_override(overrides, k);
        if v.is_some() {
            return v;
        }
    }
    find_override(overrides, name)
}


/// Every index is below `n`.
pub open spec fn all_below(indices: Seq<usize>, n: usize) -> bool {
    forall|k: int| 0 <= k < indices.len() ==> indices[k] < n
}

/// Which morph targets a primitive's expansion carries, and whether a cached morph payload
/// supplies them. A cached payload is used when it names only targets the primitive has;
/// otherwise the dynamic selection's in-range targets are used, or, without one, every target.
pub open spec fn morph_source_indices_spec(
    num_morph: usize,
    cached: Option<Seq<usize>>,
    dynamic: Option<Seq<usize>>,
) -> (Seq<usize>, bool) {
    match cached {
        Some(c) if all_below(c, num_morph) => (c, true),
        _ => (
            match dynamic {
                Some(d) => d.filter(below_pred(num_morph)),
                None => Seq::new(num_morph as nat, |i: int| i as usize),
            },
            false,
        ),
    }
}

pub open spec fn below_pred(n: usize) -> spec_fn(usize) -> bool {
    |i: usize| i < n
}

pub open spec fn opt_vec_view(o: Option<&Vec<usize>>) -> Option<Seq<usize>> {
    match o {
        Some(v) => Some(v@),
        None => None,
    }
}

/// Every morph target an expansion carries exists on the primitive. A cached payload is used
/// exactly when it names only existing targets, and then as it is; otherwise the dynamic
/// selection's existing targets are kept, in their order, or, without a selection, every
/// target in order.
pub proof fn lemma_morph_sources_exist(num_morph: usize, cached: Option<Seq<usize>>, dynamic: Option<Seq<usize>>)
    ensures
        ({
            let (r, from_cache) = morph_source_indices_spec(num_morph, cached, dynamic);
            &&& forall|k: int| 0 <= k < r.len() ==> #[trigger] r[k] < num_morph
            &&& from_cache == (cached matches Some(c) && forall|k: int| 0 <= k < c.len() ==> #[trigger] c[k] < num_morph)
            &&& from_cache ==> cached == Some(r)
            &&& !from_cache && dynamic is Some ==> (forall|v: usize| r.contains(v) <==> dynamic->0.contains(v) && v < num_morph)
            &&& !from_cache && dynamic is None ==> r.len() == num_morph && forall|k: int| 0 <= k < r.len() ==> #[trigger] r[k]
                == k
        }),
{
    let (r, from_cache) = morph_source_indices_spec(num_morph, cached, dynamic);
    if !from_cache {
        if let Some(d) = dynamic {
            let pred = below_pred(num_morph);
            d.filter_lemma(pred);
            assert forall|v: usize| r.contains(v) <==> d.contains(v) && v < num_morph by {
                if r.contains(v) {
                    d.lemma_filter_contains_rev(pred, v);
                    let k = choose|k: int| 0 <= k < r.len() && r[k] == v;
                    assert(pred(r[k]));
                }
                if d.contains(v) && v < num_morph {
                    let k = choose|k: int| 0 <= k < d.len() && d[k] == v;
                    assert(pred(d[k]));
                }
            }
        }
    }
}

fn indices_below(indices: &Vec<usize>, n: usize) -> (r: bool)
    ensures
        r == all_below(indices@, n),
{
    let mut k: usize = 0;
    while k < indices.len()
        invariant
            k <= indices@.len(),
            forall|q: int| 0 <= q < k ==> indices@[q] < n,
        decreases indices.len() - k,
    {
        if indices[k] >= n {
            return false;
        }
        k = k + 1;
    }
    true
}

/// The morph targets a primitive's expansion carries (see `morph_source_indices_spec`), with
/// whether the cached payload supplies them.
pub fn morph_source_indices(num_morph: usize, cached: Option<&Vec<usize>>, dynamic: Option<&Vec<usize>>) -> (r: (
    Vec<usize>,
    bool,
))
    ensures
        (r.0@, r.1) == morph_source_indices_spec(num_morph, opt_vec_view(cached), opt_vec_view(dynamic)),
{
    if let Some(c) = cached {
        if indices_below(c, num_morph) {
            return (c.clone(), true);
        }
    }
    let mut out: Vec<usize> = Vec::new();
    match dynamic {
        Some(d) => {
            let ghost pred = below_pred(num_morph);
            let mut k: usize = 0;
            while k < d.len()
                invariant
                    k <= d@.len(),
                    pred == below_pred(num_morph),
                    out@ == d@.take(k as int).filter(pred),
                decreases d.len() - k,
            {
                proof {
                    assert(d@.take(k + 1) =~= d@.take(k as int).push(d@[k as int]));
                    d@.take(k as int).lemma_filter_push(d@[k as int], pred);
                    assert(pred(d@[k as int]) == (d@[k as int] < num_morph));
                }
                if d[k] < num_morph {
                    out.push(d[k]);
                }
                k = k + 1;
            }
            assert(d@.take(d@.len() as int) =~= d@);
        },
        None => {
            let mut k: usize = 0;
            while k < num_morph
                invariant
                    k <= num_morph,
                    out@ == Seq::new(k as nat, |i: int| i as usize),
                decreases num_morph - k,
            {
                out.push(k);
                assert(out@ =~= Seq::new((k + 1) as nat, |i: int| i as usize));
                k = k + 1;
            }
        },
    }
    (out, false)
}

} // verus!
