use vstd::prelude::*;
use crate::fur_cards::MeshIndexFormat;
use crate::residency::{push_unique_index, sorted_unique_indices, strictly_increasing};
use crate::skin_morph::ExpressionBinding;

verus! {

/// The primitive count of the mesh a node shows (0 without a mesh or for an unknown mesh).
pub open spec fn node_primitive_count(node_mesh: Option<usize>, mesh_primitive_counts: Seq<usize>) -> nat {
    match node_mesh {
        Some(m) => if m < mesh_primitive_counts.len() {
            mesh_primitive_counts[m as int] as nat
        } else {
            0
        },
        None => 0,
    }
}

/// The primitives drawn for the first `n` nodes.
pub open spec fn primitives_of_nodes(node_meshes: Seq<Option<usize>>, mesh_primitive_counts: Seq<usize>) -> nat
    decreases node_meshes.len(),
{
    if node_meshes.len() == 0 {
        0
    } else {
        primitives_of_nodes(node_meshes.drop_last(), mesh_primitive_counts) + node_primitive_count(
            node_meshes.last(),
            mesh_primitive_counts,
        )
    }
}

/// The same count with each mesh's count cut to 32 bits and the sum saturating at `u32::MAX`.
pub open spec fn primitive_count_u32(node_meshes: Seq<Option<usize>>, mesh_primitive_counts: Seq<usize>) -> u32
    decreases node_meshes.len(),
{
    if node_meshes.len() == 0 {
        0
    } else {
        let earlier = primitive_count_u32(node_meshes.drop_last(), mesh_primitive_counts);
        let here = (node_primitive_count(node_meshes.last(), mesh_primitive_counts) as usize) as u32;
        if earlier + here > u32::MAX {
            u32::MAX
        } else {
            (earlier + here) as u32
        }
    }
}

/// The number of mesh primitives the scene's nodes draw, as a saturating `u32` (each mesh's
/// count taken modulo 2^32).
pub fn scene_primitive_count(node_meshes: &Vec<Option<usize>>, mesh_primitive_counts: &Vec<usize>) -> (count: u32)
    ensures
        count == primitive_count_u32(node_meshes@, mesh_primitive_counts@),
{
    let mut count: u32 = 0;
    let mut k: usize = 0;
    while k < node_meshes.len()
        invariant
            k <= node_meshes@.len(),
            count == primitive_count_u32(node_meshes@.take(k as int), mesh_primitive_counts@),
        decreases node_meshes.len() - k,
    {
        assert(node_meshes@.take(k + 1).drop_last() =~= node_meshes@.take(k as int));
        let here: u32 = match node_meshes[k] {
            Some(m) => if m < mesh_primitive_counts.len() {
                mesh_primitive_counts[m] as u32
            } else {
                0
            },
            None => 0,
        };
        count = count.saturating_add(here);
        k = k + 1;
    }
    assert(node_meshes@.take(node_meshes@.len() as int) =~= node_meshes@);
    count
}

/// The number of mesh primitives the scene's nodes draw (the capacity of its draw list).
pub fn mesh_draw_capacity(node_meshes: &Vec<Option<usize>>, mesh_primitive_counts: &Vec<usize>) -> (n: usize)
    requires
        primitives_of_nodes(node_meshes@, mesh_primitive_counts@) <= usize::MAX,
    ensures
        n == primitives_of_nodes(node_meshes@, mesh_primitive_counts@),
{
    let mut n: usize = 0;
    let mut k: usize = 0;
    while k < node_meshes.len()
        invariant
            k <= node_meshes@.len(),
            primitives_of_nodes(node_meshes@, mesh_primitive_counts@) <= usize::MAX,
            n == primitives_of_nodes(node_meshes@.take(k as int), mesh_primitive_counts@),
        decreases node_meshes.len() - k,
    {
        assert(node_meshes@.take(k + 1).drop_last() =~= node_meshes@.take(k as int));
        proof {
            lemma_primitives_prefix(node_meshes@, mesh_primitive_counts@, k + 1);
        }
        let here: usize = match node_meshes[k] {
            Some(m) => if m < mesh_primitive_counts.len() {
                mesh_primitive_counts[m]
            } else {
                0
            },
            None => 0,
        };
        n = n + here;
        k = k + 1;
    }
    assert(node_meshes@.take(node_meshes@.len() as int) =~= node_meshes@);
    n
}

proof fn lemma_primitives_prefix(node_meshes: Seq<Option<usize>>, counts: Seq<usize>, k: int)
    requires
        0 <= k <= node_meshes.len(),
    ensures
        primitives_of_nodes(node_meshes.take(k), counts) <= primitives_of_nodes(node_meshes, counts),
    decreases node_meshes.len() - k,
{
    if k < node_meshes.len() {
        lemma_primitives_prefix(node_meshes, counts, k + 1);
        assert(node_meshes.take(k + 1).drop_last() =~= node_meshes.take(k));
    } else {
        assert(node_meshes.take(k) =~= node_meshes);
    }
}

/// The number of nodes that show a mesh.
pub open spec fn nodes_with_mesh(node_meshes: Seq<Option<usize>>) -> nat
    decreases node_meshes.len(),
{
    if node_meshes.len() == 0 {
        0
    } else {
        nodes_with_mesh(node_meshes.drop_last()) + if node_meshes.last() is Some {
            1nat
        } else {
            0nat
        }
    }
}

/// One skin palette per node that shows a mesh.
pub fn skin_palette_capacity(node_meshes: &Vec<Option<usize>>) -> (n: usize)
    ensures
        n == nodes_with_mesh(node_meshes@),
{
    let mut n: usize = 0;
    let mut k: usize = 0;
    while k < node_meshes.len()
        invariant
            k <= node_meshes@.len(),
            n == nodes_with_mesh(node_meshes@.take(k as int)),
            n <= k,
        decreases node_meshes.len() - k,
    {
        assert(node_meshes@.take(k + 1).drop_last() =~= node_meshes@.take(k as int));
        if node_meshes[k].is_some() {
            n = n + 1;
        }
        k = k + 1;
    }
    assert(node_meshes@.take(node_meshes@.len() as int) =~= node_meshes@);
    n
}

/// Some primitive of some mesh has morph targets.
pub fn scene_has_morph_targets(mesh_primitive_morph_counts: &Vec<Vec<usize>>) -> (r: bool)
    ensures
        r == exists|m: int, p: int|
            0 <= m < mesh_primitive_morph_counts@.len() && 0 <= p < mesh_primitive_morph_counts@[m]@.len()
                && #[trigger] mesh_primitive_morph_counts@[m]@[p] > 0,
{
    let mut m: usize = 0;
    while m < mesh_primitive_morph_counts.len()
        invariant
            m <= mesh_primitive_morph_counts@.len(),
            forall|mm: int, p: int|
                0 <= mm < m && 0 <= p < mesh_primitive_morph_counts@[mm]@.len() ==> #[trigger] mesh_primitive_morph_counts@[mm]@[p]
                    == 0,
        decreases mesh_primitive_morph_counts.len() - m,
    {
        let prims = &mesh_primitive_morph_counts[m];
        let mut p: usize = 0;
        while p < prims.len()
            invariant
                m < mesh_primitive_morph_counts@.len(),
                prims@ == mesh_primitive_morph_counts@[m as int]@,
                p <= prims@.len(),
                forall|q: int| 0 <= q < p ==> prims@[q] == 0,
            decreases prims.len() - p,
        {
            if prims[p] > 0 {
                assert(mesh_primitive_morph_counts@[m as int]@[p as int] > 0);
                return true;
            }
            p = p + 1;
        }
        m = m + 1;
    }
    false
}

/// The narrowest index format that holds every index.
pub fn compact_index_format(indices: &[u32]) -> (format: MeshIndexFormat)
    ensures
        format == (if forall|k: int| 0 <= k < indices@.len() ==> #[trigger] indices@[k] <= u16::MAX {
            MeshIndexFormat::Uint16
        } else {
            MeshIndexFormat::Uint32
        }),
{
    let mut k: usize = 0;
    while k < indices.len()
        invariant
            k <= indices@.len(),
            forall|q: int| 0 <= q < k ==> #[trigger] indices@[q] <= u16::MAX,
        decreases indices.len() - k,
    {
        if indices[k] > 0xffff {
            assert(indices@[k as int] > u16::MAX);
            return MeshIndexFormat::Uint32;
        }
        k = k + 1;
    }
    MeshIndexFormat::Uint16
}

/// The indices below `vertex_count`, in order.
pub open spec fn in_range_indices(indices: Seq<u32>, vertex_count: nat) -> Seq<u32> {
    indices.filter(|i: u32| (i as nat) < vertex_count)
}

/// A primitive's triangle indices: its index list without out-of-range entries, or, without an
/// index list, `0..vertex_count` (the count cut to 32 bits).
pub fn primitive_indices(vertex_count: usize, indices: Option<&Vec<u32>>) -> (out: Vec<u32>)
    ensures
        match indices {
            Some(idx) => out@ == in_range_indices(idx@, vertex_count as nat),
            None => out@ == Seq::new((vertex_count as u32) as nat, |i: int| i as u32),
        },
{
    match indices {
        Some(idx) => {
            let mut out: Vec<u32> = Vec::new();
            let mut k: usize = 0;
            while k < idx.len()
                invariant
                    k <= idx@.len(),
                    out@ == in_range_indices(idx@.take(k as int), vertex_count as nat),
                decreases idx.len() - k,
            {
                proof {
                    reveal(Seq::filter);
                    assert(idx@.take(k + 1).drop_last() =~= idx@.take(k as int));
                }
                if (idx[k] as usize) < vertex_count {
                    out.push(idx[k]);
                }
                k = k + 1;
            }
            assert(idx@.take(idx@.len() as int) =~= idx@);
            out
        },
        None => {
            let n = vertex_count as u32;
            let mut out: Vec<u32> = Vec::new();
            let mut i: u32 = 0;
            while i < n
                invariant
                    i <= n,
                    out@ == Seq::new(i as nat, |j: int| j as u32),
                decreases n - i,
            {
                out.push(i);
                assert(out@ =~= Seq::new((i + 1) as nat, |j: int| j as u32));
                i = i + 1;
            }
            out
        },
    }
}

/// `a` sorts before or with `b` when compared character by character (the order of `str`).
pub open spec fn chars_le(a: Seq<char>, b: Seq<char>) -> bool
    decreases a.len(),
{
    if a.len() == 0 {
        true
    } else if b.len() == 0 {
        false
    } else if (a[0] as u32) != (b[0] as u32) {
        (a[0] as u32) < (b[0] as u32)
    } else {
        chars_le(a.drop_first(), b.drop_first())
    }
}

pub open spec fn names_sorted(names: Seq<String>) -> bool {
    forall|i: int, j: int| 0 <= i < j < names.len() ==> chars_le(#[trigger] names[i]@, #[trigger] names[j]@)
}

/// The morph targets of a primitive that must be blended every frame.
pub open spec fn dynamic_target(
    target_count: nat,
    default_weight_nonzero: Seq<bool>,
    binding_targets: Seq<ExpressionBinding>,
    target_names: Seq<String>,
    dynamic_names: Seq<String>,
    t: usize,
) -> bool {
    &&& (t as nat) < target_count
    &&& {
        ||| ((t as int) < default_weight_nonzero.len() && default_weight_nonzero[t as int])
        ||| (exists|b: int| 0 <= b < binding_targets.len() && (#[trigger] binding_targets[b]).morph_target_index == t)
        ||| ((t as int) < target_names.len() && exists|n: int|
            0 <= n < dynamic_names.len() && (#[trigger] dynamic_names[n])@ == target_names[t as int]@)
    }
}

fn names_contain(names: &Vec<String>, name: &String) -> (r: bool)
    ensures
        r == exists|n: int| 0 <= n < names@.len() && (#[trigger] names@[n])@ == name@,
{
    let mut k: usize = 0;
    while k < names.len()
        invariant
            k <= names@.len(),
            forall|n: int| 0 <= n < k ==> (#[trigger] names@[n])@ != name@,
        decreases names.len() - k,
    {
        if names[k].eq(name) {
            return true;
        }
        k = k + 1;
    }
    false
}

/// The morph targets to blend on the GPU every frame: all of them with `include_all`, else
/// those with a nonzero default weight, those an expression binds, and those named by the
/// animator (the names sorted); ascending, without repeats.
pub fn dynamic_morph_target_indices(
    target_count: usize,
    default_weight_nonzero: &Vec<bool>,
    bindings: &[ExpressionBinding],
    target_names: &Vec<String>,
    dynamic_names: &Vec<String>,
    include_all: bool,
) -> (out: Vec<usize>)
    requires
        names_sorted(dynamic_names@),
    ensures
        strictly_increasing(out@),
        include_all ==> out@ == Seq::new(target_count as nat, |i: int| i as usize),
        !include_all ==> forall|t: usize|
            #![trigger out@.contains(t)]
            out@.contains(t) <==> dynamic_target(
                target_count as nat,
                default_weight_nonzero@,
                bindings@,
                target_names@,
                dynamic_names@,
                t,
            ),
{
    if target_count == 0 {
        let out: Vec<usize> = Vec::new();
        assert(out@ =~= Seq::new(target_count as nat, |i: int| i as usize));
        return out;
    }
    if include_all {
        let mut out: Vec<usize> = Vec::new();
        let mut i: usize = 0;
        while i < target_count
            invariant
                i <= target_count,
                out@ == Seq::new(i as nat, |j: int| j as usize),
            decreases target_count - i,
        {
            out.push(i);
            assert(out@ =~= Seq::new((i + 1) as nat, |j: int| j as usize));
            i = i + 1;
        }
        assert forall|a: int, b: int| 0 <= a < b < out@.len() implies out@[a] < out@[b] by {}
        return out;
    }
    let mut indices: Vec<usize> = Vec::new();
    let mut i: usize = 0;
    while i < default_weight_nonzero.len()
        invariant
            i <= default_weight_nonzero@.len(),
            forall|t: usize| #[trigger] indices@.contains(t) ==> dynamic_target(target_count as nat, default_weight_nonzero@, bindings@, target_names@, dynamic_names@, t),
            forall|t: usize|
                (t as int) < i && (t as nat) < target_count && default_weight_nonzero@[t as int] ==> #[trigger] indices@.contains(
                    t,
                ),
        decreases default_weight_nonzero.len() - i,
    {
        if i < target_count && default_weight_nonzero[i] {
            push_unique_index(&mut indices, i);
            assert(indices@.contains(i));
        }
        i = i + 1;
    }
    let mut b: usize = 0;
    while b < bindings.len()
        invariant
            b <= bindings@.len(),
            forall|t: usize| #[trigger] indices@.contains(t) ==> dynamic_target(target_count as nat, default_weight_nonzero@, bindings@, target_names@, dynamic_names@, t),
            forall|t: usize|
                (t as int) < default_weight_nonzero@.len() && (t as nat) < target_count && default_weight_nonzero@[t as int]
                    ==> #[trigger] indices@.contains(t),
            forall|c: int|
                0 <= c < b && (bindings@[c].morph_target_index as nat) < target_count ==> indices@.contains(
                    (#[trigger] bindings@[c]).morph_target_index,
                ),
        decreases bindings.len() - b,
    {
        let t = bindings[b].morph_target_index;
        if t < target_count {
            assert(dynamic_target(target_count as nat, default_weight_nonzero@, bindings@, target_names@, dynamic_names@, t)) by {
                assert(bindings@[b as int].morph_target_index == t);
            }
            push_unique_index(&mut indices, t);
            assert(indices@.contains(t));
        }
        b = b + 1;
    }
    let mut n: usize = 0;
    if dynamic_names.len() > 0 {
        while n < target_names.len()
            invariant
                n <= target_names@.len(),
                forall|t: usize| #[trigger] indices@.contains(t) ==> dynamic_target(target_count as nat, default_weight_nonzero@, bindings@, target_names@, dynamic_names@, t),
                forall|t: usize|
                    (t as int) < default_weight_nonzero@.len() && (t as nat) < target_count
                        && default_weight_nonzero@[t as int] ==> #[trigger] indices@.contains(t),
                forall|c: int|
                    0 <= c < bindings@.len() && (bindings@[c].morph_target_index as nat) < target_count ==> indices@.contains(
                        (#[trigger] bindings@[c]).morph_target_index,
                    ),
                forall|t: usize|
                    (t as int) < n && (t as nat) < target_count && (exists|q: int|
                        0 <= q < dynamic_names@.len() && (#[trigger] dynamic_names@[q])@ == target_names@[t as int]@)
                        ==> #[trigger] indices@.contains(t),
            decreases target_names.len() - n,
        {
            if n < target_count && names_contain(dynamic_names, &target_names[n]) {
                push_unique_index(&mut indices, n);
                assert(indices@.contains(n));
            }
            n = n + 1;
        }
    }
    let out = sorted_unique_indices(indices);
    proof {
        assert forall|t: usize| #![trigger out@.contains(t)] out@.contains(t) <==> dynamic_target(target_count as nat, default_weight_nonzero@, bindings@, target_names@, dynamic_names@, t) by {
            assert(out@.to_set().contains(t) == indices@.to_set().contains(t));
            if dynamic_target(target_count as nat, default_weight_nonzero@, bindings@, target_names@, dynamic_names@, t) {
                if (t as int) < default_weight_nonzero@.len() && default_weight_nonzero@[t as int] {
                    assert(indices@.contains(t));
                } else if exists|c: int| 0 <= c < bindings@.len() && (#[trigger] bindings@[c]).morph_target_index == t {
                    let c = choose|c: int| 0 <= c < bindings@.len() && (#[trigger] bindings@[c]).morph_target_index == t;
                    assert(indices@.contains(bindings@[c].morph_target_index));
                } else {
                    assert(dynamic_names@.len() > 0);
                    assert(indices@.contains(t));
                }
            }
        }
    }
    out
}

} // verus!
