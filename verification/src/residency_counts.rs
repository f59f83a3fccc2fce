use vstd::prelude::*;
use crate::residency::{
    active_residency_gaps_from_draws, count_draws, count_true, cube_gap_set, draw_uses_cube_gap, draw_uses_image_gap,
    draw_uses_material_gap, image_gap_set, is_gap, material_gap_set, strictly_increasing, uses_gap, DrawResidencyUse,
};

verus! {

/// The mesh buffers of one draw and whether its assets are resident.
#[derive(Clone, Copy, Debug, PartialEq, Eq, Structural)]
pub struct DrawAssetFootprint {
    pub asset_resident: bool,
    pub vertex_buffer_bytes: u64,
    pub index_buffer_bytes: u64,
}

/// Residency statistics of a scene's draws, textures and material slots.
#[derive(Debug)]
pub struct SceneMeshAssetResidencyCounts {
    pub total_draw_mesh_primitive_count: usize,
    pub resident_draw_mesh_primitive_count: usize,
    pub inactive_draw_mesh_primitive_count: usize,
    pub total_draw_mesh_buffer_bytes: u64,
    pub resident_draw_mesh_buffer_bytes: u64,
    pub inactive_draw_mesh_buffer_bytes: u64,
    pub total_image_texture_count: usize,
    pub resident_image_texture_count: usize,
    pub inactive_image_texture_count: usize,
    pub draws_using_inactive_image_texture_count: usize,
    pub active_draws_using_inactive_image_texture_count: usize,
    pub inactive_image_textures_used_by_active_draw_count: usize,
    pub inactive_image_textures_used_by_active_draw: Vec<usize>,
    pub active_draws_using_inactive_cube_texture_count: usize,
    pub inactive_cube_textures_used_by_active_draw_count: usize,
    pub inactive_cube_textures_used_by_active_draw: Vec<usize>,
    pub total_material_slot_count: usize,
    pub resident_material_slot_count: usize,
    pub inactive_material_slot_count: usize,
    pub active_draws_using_inactive_material_slot_count: usize,
    pub inactive_material_slots_used_by_active_draw_count: usize,
    pub inactive_material_slots_used_by_active_draw: Vec<usize>,
}

/// The number of draws whose assets are resident.
pub open spec fn resident_draw_count(fs: Seq<DrawAssetFootprint>) -> nat
    decreases fs.len(),
{
    if fs.len() == 0 {
        0
    } else {
        resident_draw_count(fs.drop_last()) + if fs.last().asset_resident {
            1nat
        } else {
            0nat
        }
    }
}

/// The mesh buffer bytes of the draws (only the resident ones when `resident_only`).
pub open spec fn buffer_bytes_sum(fs: Seq<DrawAssetFootprint>, resident_only: bool) -> nat
    decreases fs.len(),
{
    if fs.len() == 0 {
        0
    } else {
        buffer_bytes_sum(fs.drop_last(), resident_only) + if !resident_only || fs.last().asset_resident {
            fs.last().vertex_buffer_bytes as nat + fs.last().index_buffer_bytes as nat
        } else {
            0nat
        }
    }
}

pub proof fn lemma_resident_bytes_bounded(fs: Seq<DrawAssetFootprint>)
    ensures
        buffer_bytes_sum(fs, true) <= buffer_bytes_sum(fs, false),
        resident_draw_count(fs) <= fs.len(),
    decreases fs.len(),
{
    if fs.len() > 0 {
        lemma_resident_bytes_bounded(fs.drop_last());
    }
}

/// A draw (active or not) uses a non-resident image.
pub open spec fn draw_uses_any_image_gap(residency: Seq<bool>) -> spec_fn(DrawResidencyUse) -> bool {
    |d: DrawResidencyUse| uses_gap(residency, d.texture_indices@)
}

fn slots_use_gap(indices: &Vec<usize>, residency: &Vec<bool>) -> (r: bool)
    ensures
        r == uses_gap(residency@, indices@),
{
    let mut k: usize = 0;
    while k < indices.len()
        invariant
            k <= indices@.len(),
            forall|q: int| 0 <= q < k ==> !is_gap(residency@, #[trigger] indices@[q]),
        decreases indices.len() - k,
    {
        let t = indices[k];
        if t < residency.len() && !residency[t] {
            assert(is_gap(residency@, indices@[k as int]));
            return true;
        }
        k = k + 1;
    }
    false
}

fn count_resident_slots(residency: &Vec<bool>) -> (n: usize)
    ensures
        n == count_true(residency@),
{
    let mut n: usize = 0;
    let mut k: usize = 0;
    while k < residency.len()
        invariant
            k <= residency@.len(),
            n == count_true(residency@.take(k as int)),
            n <= k,
        decreases residency.len() - k,
    {
        assert(residency@.take(k + 1).drop_last() =~= residency@.take(k as int));
        if residency[k] {
            n = n + 1;
        }
        k = k + 1;
    }
    assert(residency@.take(residency@.len() as int) =~= residency@);
    n
}

/// The residency statistics: draws and their mesh buffer bytes in total, resident and not
/// resident; texture and material slots in total, resident and not; the draws (active or
/// not) that use a non-resident image; and the gaps of the active draws.
pub fn asset_residency_counts(
    footprints: &Vec<DrawAssetFootprint>,
    draws: &Vec<DrawResidencyUse>,
    image_texture_residency: &Vec<bool>,
    cube_texture_residency: &Vec<bool>,
    material_slot_residency: &Vec<bool>,
) -> (c: SceneMeshAssetResidencyCounts)
    requires
        footprints@.len() == draws@.len(),
        buffer_bytes_sum(footprints@, false) <= u64::MAX,
    ensures
        c.total_draw_mesh_primitive_count == footprints@.len(),
        c.resident_draw_mesh_primitive_count == resident_draw_count(footprints@),
        c.inactive_draw_mesh_primitive_count == footprints@.len() - resident_draw_count(footprints@),
        c.total_draw_mesh_buffer_bytes == buffer_bytes_sum(footprints@, false),
        c.resident_draw_mesh_buffer_bytes == buffer_bytes_sum(footprints@, true),
        c.inactive_draw_mesh_buffer_bytes == buffer_bytes_sum(footprints@, false) - buffer_bytes_sum(footprints@, true),
        c.total_image_texture_count == image_texture_residency@.len(),
        c.resident_image_texture_count == count_true(image_texture_residency@),
        c.inactive_image_texture_count == image_texture_residency@.len() - count_true(image_texture_residency@),
        c.draws_using_inactive_image_texture_count == count_draws(
            draws@,
            draw_uses_any_image_gap(image_texture_residency@),
        ),
        c.active_draws_using_inactive_image_texture_count == count_draws(
            draws@,
            draw_uses_image_gap(image_texture_residency@),
        ),
        strictly_increasing(c.inactive_image_textures_used_by_active_draw@),
        c.inactive_image_textures_used_by_active_draw@.to_set() == image_gap_set(draws@, image_texture_residency@),
        c.inactive_image_textures_used_by_active_draw_count == c.inactive_image_textures_used_by_active_draw@.len(),
        c.active_draws_using_inactive_cube_texture_count == count_draws(
            draws@,
            draw_uses_cube_gap(cube_texture_residency@),
        ),
        strictly_increasing(c.inactive_cube_textures_used_by_active_draw@),
        c.inactive_cube_textures_used_by_active_draw@.to_set() == cube_gap_set(draws@, cube_texture_residency@),
        c.inactive_cube_textures_used_by_active_draw_count == c.inactive_cube_textures_used_by_active_draw@.len(),
        c.total_material_slot_count == material_slot_residency@.len(),
        c.resident_material_slot_count == count_true(material_slot_residency@),
        c.inactive_material_slot_count == material_slot_residency@.len() - count_true(material_slot_residency@),
        c.active_draws_using_inactive_material_slot_count == count_draws(
            draws@,
            draw_uses_material_gap(material_slot_residency@),
        ),
        strictly_increasing(c.inactive_material_slots_used_by_active_draw@),
        c.inactive_material_slots_used_by_active_draw@.to_set() == material_gap_set(draws@, material_slot_residency@),
        c.inactive_material_slots_used_by_active_draw_count == c.inactive_material_slots_used_by_active_draw@.len(),
{
    let n = footprints.len();
    let mut resident_draws: usize = 0;
    let mut total_bytes: u64 = 0;
    let mut resident_bytes: u64 = 0;
    let mut k: usize = 0;
    while k < n
        invariant
            k <= n == footprints@.len(),
            buffer_bytes_sum(footprints@, false) <= u64::MAX,
            resident_draws == resident_draw_count(footprints@.take(k as int)),
            resident_draws <= k,
            total_bytes == buffer_bytes_sum(footprints@.take(k as int), false),
            resident_bytes == buffer_bytes_sum(footprints@.take(k as int), true),
        decreases n - k,
    {
        let f = footprints[k];
        proof {
            assert(footprints@.take(k + 1).drop_last() =~= footprints@.take(k as int));
            lemma_bytes_prefix(footprints@, k + 1);
            lemma_resident_bytes_bounded(footprints@.take(k + 1));
        }
        let bytes = f.vertex_buffer_bytes + f.index_buffer_bytes;
        total_bytes = total_bytes + bytes;
        if f.asset_resident {
            resident_draws = resident_draws + 1;
            resident_bytes = resident_bytes + bytes;
        }
        k = k + 1;
    }
    proof {
        assert(footprints@.take(n as int) =~= footprints@);
        lemma_resident_bytes_bounded(footprints@);
    }
    let mut using_image_gap: usize = 0;
    let mut d: usize = 0;
    while d < draws.len()
        invariant
            d <= draws@.len(),
            using_image_gap == count_draws(draws@.take(d as int), draw_uses_any_image_gap(image_texture_residency@)),
            using_image_gap <= d,
        decreases draws.len() - d,
    {
        assert(draws@.take(d + 1).drop_last() =~= draws@.take(d as int));
        if slots_use_gap(&draws[d].texture_indices, image_texture_residency) {
            using_image_gap = using_image_gap + 1;
        }
        d = d + 1;
    }
    assert(draws@.take(draws@.len() as int) =~= draws@);
    let resident_images = count_resident_slots(image_texture_residency);
    let resident_slots = count_resident_slots(material_slot_residency);
    proof {
        lemma_count_true_bounded(image_texture_residency@);
        lemma_count_true_bounded(material_slot_residency@);
    }
    let gaps = active_residency_gaps_from_draws(
        draws,
        image_texture_residency,
        cube_texture_residency,
        material_slot_residency,
    );
    let image_gap_count = gaps.inactive_image_texture_indices.len();
    let cube_gap_count = gaps.inactive_cube_texture_indices.len();
    let material_gap_count = gaps.inactive_material_slot_indices.len();
    SceneMeshAssetResidencyCounts {
        total_draw_mesh_primitive_count: n,
        resident_draw_mesh_primitive_count: resident_draws,
        inactive_draw_mesh_primitive_count: n - resident_draws,
        total_draw_mesh_buffer_bytes: total_bytes,
        resident_draw_mesh_buffer_bytes: resident_bytes,
        inactive_draw_mesh_buffer_bytes: total_bytes - resident_bytes,
        total_image_texture_count: image_texture_residency.len(),
        resident_image_texture_count: resident_images,
        inactive_image_texture_count: image_texture_residency.len() - resident_images,
        draws_using_inactive_image_texture_count: using_image_gap,
        active_draws_using_inactive_image_texture_count: gaps.active_draws_using_inactive_image_texture_count,
        inactive_image_textures_used_by_active_draw_count: image_gap_count,
        inactive_image_textures_used_by_active_draw: gaps.inactive_image_texture_indices,
        active_draws_using_inactive_cube_texture_count: gaps.active_draws_using_inactive_cube_texture_count,
        inactive_cube_textures_used_by_active_draw_count: cube_gap_count,
        inactive_cube_textures_used_by_active_draw: gaps.inactive_cube_texture_indices,
        total_material_slot_count: material_slot_residency.len(),
        resident_material_slot_count: resident_slots,
        inactive_material_slot_count: material_slot_residency.len() - resident_slots,
        active_draws_using_inactive_material_slot_count: gaps.active_draws_using_inactive_material_slot_count,
        inactive_material_slots_used_by_active_draw_count: material_gap_count,
        inactive_material_slots_used_by_active_draw: gaps.inactive_material_slot_indices,
    }
}

proof fn lemma_bytes_prefix(fs: Seq<DrawAssetFootprint>, k: int)
    requires
        0 <= k <= fs.len(),
    ensures
        buffer_bytes_sum(fs.take(k), false) <= buffer_bytes_sum(fs, false),
    decreases fs.len() - k,
{
    if k < fs.len() {
        lemma_bytes_prefix(fs, k + 1);
        assert(fs.take(k + 1).drop_last() =~= fs.take(k));
    } else {
        assert(fs.take(k) =~= fs);
    }
}

proof fn lemma_count_true_bounded(s: Seq<bool>)
    ensures
        count_true(s) <= s.len(),
    decreases s.len(),
{
    if s.len() > 0 {
        lemma_count_true_bounded(s.drop_last());
    }
}

} // verus!
