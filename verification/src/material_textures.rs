use vstd::prelude::*;
use crate::residency::{push_texture_index, sorted_unique_indices, strictly_increasing, SceneAssetResidencySets};

verus! {

/// Texture slots of a material that are used together: the base PBR slots, the MToon slots, or
/// the slots of one lilToon feature, with whether that feature is on for the material.
#[derive(Debug)]
pub struct MaterialTextureSlotGroup {
    pub enabled: bool,
    pub texture_indices: Vec<Option<usize>>,
}

/// The textures named by the enabled groups.
pub open spec fn group_textures(groups: Seq<MaterialTextureSlotGroup>) -> Set<usize> {
    Set::new(
        |t: usize|
            exists|g: int|
                0 <= g < groups.len() && (#[trigger] groups[g]).enabled && slot_textures(groups[g].texture_indices@).contains(t),
    )
}

/// The present slots of a list.
pub open spec fn slot_textures(slots: Seq<Option<usize>>) -> Set<usize> {
    Set::new(|t: usize| exists|k: int| 0 <= k < slots.len() && slots[k] == Some(t))
}

fn push_slots(indices: &mut Vec<usize>, slots: &Vec<Option<usize>>)
    ensures
        final(indices)@.to_set() == old(indices)@.to_set().union(slot_textures(slots@)),
{
    let mut k: usize = 0;
    while k < slots.len()
        invariant
            k <= slots@.len(),
            indices@.to_set() == old(indices)@.to_set().union(slot_textures(slots@.take(k as int))),
        decreases slots.len() - k,
    {
        let ghost before = indices@;
        let slot = slots[k];
        push_texture_index(indices, slot);
        proof {
            let pre = slots@.take(k as int);
            let post = slots@.take(k + 1);
            assert(post =~= pre.push(slot));
            match slot {
                Some(t) => {
                    before.lemma_push_to_set_commute(t);
                    assert(slot_textures(post) =~= slot_textures(pre).insert(t)) by {
                        assert(post[k as int] == Some(t));
                        assert forall|x: usize| slot_textures(post).contains(x) implies slot_textures(pre).insert(t).contains(x) by {
                            let q = choose|q: int| 0 <= q < post.len() && post[q] == Some(x);
                            if q < k {
                                assert(pre[q] == Some(x));
                            }
                        }
                        assert forall|x: usize| slot_textures(pre).contains(x) implies slot_textures(post).contains(x) by {
                            let q = choose|q: int| 0 <= q < pre.len() && pre[q] == Some(x);
                            assert(post[q] == Some(x));
                        }
                    }
                    if before.contains(t) {
                        assert(before.to_set().contains(t));
                        assert(indices@.to_set() =~= before.to_set().insert(t));
                    }
                    assert(indices@.to_set() =~= old(indices)@.to_set().union(slot_textures(post)));
                },
                None => {
                    assert(slot_textures(post) =~= slot_textures(pre)) by {
                        assert forall|x: usize| slot_textures(post).contains(x) implies slot_textures(pre).contains(x) by {
                            let q = choose|q: int| 0 <= q < post.len() && post[q] == Some(x);
                            if q < k {
                                assert(pre[q] == Some(x));
                            }
                        }
                        assert forall|x: usize| slot_textures(pre).contains(x) implies slot_textures(post).contains(x) by {
                            let q = choose|q: int| 0 <= q < pre.len() && pre[q] == Some(x);
                            assert(post[q] == Some(x));
                        }
                    }
                },
            }
        }
        k = k + 1;
    }
    assert(slots@.take(slots@.len() as int) =~= slots@);
}

/// The 2D textures a material samples: the slots of its enabled slot groups, ascending and
/// without repeats.
pub fn material_texture_indices(groups: &Vec<MaterialTextureSlotGroup>) -> (out: Vec<usize>)
    ensures
        strictly_increasing(out@),
        out@.to_set() == group_textures(groups@),
{
    let mut indices: Vec<usize> = Vec::new();
    let mut g: usize = 0;
    while g < groups.len()
        invariant
            g <= groups@.len(),
            indices@.to_set() == group_textures(groups@.take(g as int)),
        decreases groups.len() - g,
    {
        let group = &groups[g];
        let ghost before = indices@;
        if group.enabled {
            push_slots(&mut indices, &group.texture_indices);
        }
        proof {
            let pre = groups@.take(g as int);
            let post = groups@.take(g + 1);
            assert(post =~= pre.push(*group));
            assert(indices@.to_set() =~= group_textures(post)) by {
                assert forall|x: usize| group_textures(post).contains(x) implies indices@.to_set().contains(x) by {
                    let h = choose|h: int|
                        0 <= h < post.len() && (#[trigger] post[h]).enabled && slot_textures(post[h].texture_indices@).contains(x);
                    if h < g {
                        assert(pre[h] == post[h]);
                        assert(group_textures(pre).contains(x));
                    } else {
                        assert(slot_textures(group.texture_indices@).contains(x));
                    }
                }
                assert forall|x: usize| indices@.to_set().contains(x) implies group_textures(post).contains(x) by {
                    if before.to_set().contains(x) {
                        let h = choose|h: int|
                            0 <= h < pre.len() && (#[trigger] pre[h]).enabled && slot_textures(pre[h].texture_indices@).contains(x);
                        assert(post[h] == pre[h]);
                    } else {
                        assert(group.enabled);
                        assert(slot_textures(group.texture_indices@).contains(x));
                        assert(post[g as int] == *group);
                    }
                }
            }
        }
        g = g + 1;
    }
    assert(groups@.take(groups@.len() as int) =~= groups@);
    sorted_unique_indices(indices)
}

/// The cube textures a material samples (its MToon and lilToon reflection cubes), ascending
/// and without repeats.
pub fn material_cube_texture_indices(cube_slots: &Vec<Option<usize>>) -> (out: Vec<usize>)
    ensures
        strictly_increasing(out@),
        out@.to_set() == slot_textures(cube_slots@),
{
    let mut indices: Vec<usize> = Vec::new();
    push_slots(&mut indices, cube_slots);
    assert(indices@.to_set() =~= slot_textures(cube_slots@));
    sorted_unique_indices(indices)
}

/// Every texture a material keeps resident: its 2D and its cube textures.
pub fn material_resident_texture_indices(groups: &Vec<MaterialTextureSlotGroup>, cube_slots: &Vec<Option<usize>>) -> (out:
    Vec<usize>)
    ensures
        strictly_increasing(out@),
        out@.to_set() == group_textures(groups@).union(slot_textures(cube_slots@)),
{
    let mut indices = material_texture_indices(groups);
    let cubes = material_cube_texture_indices(cube_slots);
    let ghost a = indices@;
    let mut k: usize = 0;
    while k < cubes.len()
        invariant
            k <= cubes@.len(),
            indices@.to_set() == a.to_set().union(cubes@.take(k as int).to_set()),
        decreases cubes.len() - k,
    {
        let ghost before = indices@;
        indices.push(cubes[k]);
        proof {
            before.lemma_push_to_set_commute(cubes@[k as int]);
            assert(cubes@.take(k + 1) =~= cubes@.take(k as int).push(cubes@[k as int]));
            cubes@.take(k as int).lemma_push_to_set_commute(cubes@[k as int]);
            assert(indices@.to_set() =~= a.to_set().union(cubes@.take(k + 1).to_set()));
        }
        k = k + 1;
    }
    assert(cubes@.take(cubes@.len() as int) =~= cubes@);
    sorted_unique_indices(indices)
}

/// A mesh primitive that might be drawn when the scene loads: whether its node is visible,
/// whether its assets are resident, whether its material is fully invisible, and the
/// textures its material uses.
#[derive(Debug)]
pub struct PrimitiveTextureUse {
    pub node_visible: bool,
    pub asset_resident: bool,
    pub material_invisible: bool,
    pub texture_indices: Vec<usize>,
}

pub open spec fn drawn_at_load(p: PrimitiveTextureUse) -> bool {
    p.node_visible && p.asset_resident && !p.material_invisible
}

/// The textures of the primitives drawn at load.
pub open spec fn load_textures(ps: Seq<PrimitiveTextureUse>) -> Set<usize> {
    Set::new(
        |t: usize| exists|p: int| 0 <= p < ps.len() && drawn_at_load(#[trigger] ps[p]) && ps[p].texture_indices@.contains(t),
    )
}

/// The textures to make resident when a scene loads: those of visible, resident primitives
/// whose material is not fully invisible, ascending and without repeats.
pub fn initial_active_texture_indices_for_scene(primitives: &Vec<PrimitiveTextureUse>) -> (out: Vec<usize>)
    ensures
        strictly_increasing(out@),
        out@.to_set() == load_textures(primitives@),
{
    let mut indices: Vec<usize> = Vec::new();
    let mut p: usize = 0;
    while p < primitives.len()
        invariant
            p <= primitives@.len(),
            indices@.to_set() == load_textures(primitives@.take(p as int)),
        decreases primitives.len() - p,
    {
        let prim = &primitives[p];
        let ghost before = indices@;
        if prim.node_visible && prim.asset_resident && !prim.material_invisible {
            let mut k: usize = 0;
            while k < prim.texture_indices.len()
                invariant
                    k <= prim.texture_indices@.len(),
                    indices@.to_set() == before.to_set().union(prim.texture_indices@.take(k as int).to_set()),
                decreases prim.texture_indices.len() - k,
            {
                let ghost b2 = indices@;
                let t = prim.texture_indices[k];
                indices.push(t);
                proof {
                    b2.lemma_push_to_set_commute(t);
                    assert(prim.texture_indices@.take(k + 1) =~= prim.texture_indices@.take(k as int).push(t));
                    prim.texture_indices@.take(k as int).lemma_push_to_set_commute(t);
                    assert(indices@.to_set() =~= before.to_set().union(prim.texture_indices@.take(k + 1).to_set()));
                }
                k = k + 1;
            }
            assert(prim.texture_indices@.take(prim.texture_indices@.len() as int) =~= prim.texture_indices@);
        }
        proof {
            let pre = primitives@.take(p as int);
            let post = primitives@.take(p + 1);
            assert(post =~= pre.push(*prim));
            assert(indices@.to_set() =~= load_textures(post)) by {
                assert forall|x: usize| load_textures(post).contains(x) implies indices@.to_set().contains(x) by {
                    let h = choose|h: int|
                        0 <= h < post.len() && drawn_at_load(#[trigger] post[h]) && post[h].texture_indices@.contains(x);
                    if h < p {
                        assert(pre[h] == post[h]);
                        assert(load_textures(pre).contains(x));
                    } else {
                        assert(prim.texture_indices@.to_set().contains(x));
                    }
                }
                assert forall|x: usize| indices@.to_set().contains(x) implies load_textures(post).contains(x) by {
                    if before.to_set().contains(x) {
                        let h = choose|h: int|
                            0 <= h < pre.len() && drawn_at_load(#[trigger] pre[h]) && pre[h].texture_indices@.contains(x);
                        assert(post[h] == pre[h]);
                    } else {
                        assert(prim.texture_indices@.to_set().contains(x));
                        assert(post[p as int] == *prim);
                    }
                }
            }
        }
        p = p + 1;
    }
    assert(primitives@.take(primitives@.len() as int) =~= primitives@);
    sorted_unique_indices(indices)
}

/// The 2D and cube textures used by one active draw.
#[derive(Debug)]
pub struct DrawTextureUse {
    pub texture_indices: Vec<usize>,
    pub cube_texture_indices: Vec<usize>,
}

/// Image `i` is used (as a 2D texture, or as a cube texture when `cube`) by some active draw.
pub open spec fn used_by_draws(draws: Seq<DrawTextureUse>, i: usize, cube: bool) -> bool {
    exists|d: int|
        0 <= d < draws.len() && (if cube {
            (#[trigger] draws[d]).cube_texture_indices@.contains(i)
        } else {
            draws[d].texture_indices@.contains(i)
        })
}

/// Which images the active draws need resident, as 2D textures and as cube textures: an image
/// is needed when an active draw uses it, its asset is resident, and (for a cube) its source
/// is a cube texture.
pub fn texture_residency_for_active_draws(
    image_count: usize,
    asset_residency: &SceneAssetResidencySets,
    draws: &Vec<DrawTextureUse>,
    image_is_cube: &Vec<bool>,
) -> (r: (Vec<bool>, Vec<bool>))
    requires
        asset_residency.wf(),
    ensures
        r.0@.len() == image_count,
        r.1@.len() == image_count,
        forall|i: int|
            0 <= i < image_count ==> #[trigger] r.0@[i] == (used_by_draws(draws@, i as usize, false)
                && asset_residency.image_resident_spec(i as usize)),
        forall|i: int|
            0 <= i < image_count ==> #[trigger] r.1@[i] == (used_by_draws(draws@, i as usize, true)
                && asset_residency.image_resident_spec(i as usize) && i < image_is_cube@.len() && image_is_cube@[i]),
{
    let mut image_residency: Vec<bool> = Vec::new();
    let mut cube_residency: Vec<bool> = Vec::new();
    let mut i: usize = 0;
    while i < image_count
        invariant
            i <= image_count,
            asset_residency.wf(),
            image_residency@.len() == i,
            cube_residency@.len() == i,
            forall|j: int|
                0 <= j < i ==> #[trigger] image_residency@[j] == (used_by_draws(draws@, j as usize, false)
                    && asset_residency.image_resident_spec(j as usize)),
            forall|j: int|
                0 <= j < i ==> #[trigger] cube_residency@[j] == (used_by_draws(draws@, j as usize, true)
                    && asset_residency.image_resident_spec(j as usize) && j < image_is_cube@.len() && image_is_cube@[j]),
        decreases image_count - i,
    {
        let resident = asset_residency.image_resident(i);
        let mut used = false;
        let mut used_cube = false;
        let mut d: usize = 0;
        while d < draws.len()
            invariant
                d <= draws@.len(),
                used == exists|e: int| 0 <= e < d && (#[trigger] draws@[e]).texture_indices@.contains(i),
                used_cube == exists|e: int| 0 <= e < d && (#[trigger] draws@[e]).cube_texture_indices@.contains(i),
            decreases draws.len() - d,
        {
            let draw = &draws[d];
            let mut k: usize = 0;
            let mut here = false;
            while k < draw.texture_indices.len()
                invariant
                    k <= draw.texture_indices@.len(),
                    here == exists|q: int| 0 <= q < k && draw.texture_indices@[q] == i,
                decreases draw.texture_indices.len() - k,
            {
                if draw.texture_indices[k] == i {
                    here = true;
                }
                k = k + 1;
            }
            let mut k2: usize = 0;
            let mut here_cube = false;
            while k2 < draw.cube_texture_indices.len()
                invariant
                    k2 <= draw.cube_texture_indices@.len(),
                    here_cube == exists|q: int| 0 <= q < k2 && draw.cube_texture_indices@[q] == i,
                decreases draw.cube_texture_indices.len() - k2,
            {
                if draw.cube_texture_indices[k2] == i {
                    here_cube = true;
                }
                k2 = k2 + 1;
            }
            proof {
                assert(here == draw.texture_indices@.contains(i));
                assert(here_cube == draw.cube_texture_indices@.contains(i));
                assert(draws@[d as int] == *draw);
                if used || here {
                    if here {
                        assert(exists|e: int| 0 <= e < d + 1 && (#[trigger] draws@[e]).texture_indices@.contains(i));
                    }
                }
                if !(used || here) {
                    assert forall|e: int| 0 <= e < d + 1 implies !(#[trigger] draws@[e]).texture_indices@.contains(i) by {
                        if e == d {
                        }
                    }
                }
                if here_cube {
                    assert(exists|e: int| 0 <= e < d + 1 && (#[trigger] draws@[e]).cube_texture_indices@.contains(i));
                }
                if !(used_cube || here_cube) {
                    assert forall|e: int| 0 <= e < d + 1 implies !(#[trigger] draws@[e]).cube_texture_indices@.contains(i) by {
                        if e == d {
                        }
                    }
                }
            }
            used = used || here;
            used_cube = used_cube || here_cube;
            d = d + 1;
        }
        let is_cube = i < image_is_cube.len() && image_is_cube[i];
        image_residency.push(used && resident);
        cube_residency.push(used_cube && resident && is_cube);
        proof {
            assert(used == used_by_draws(draws@, i, false));
            assert(used_cube == used_by_draws(draws@, i, true));
        }
        i = i + 1;
    }
    (image_residency, cube_residency)
}

} // verus!
