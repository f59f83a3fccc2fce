use vstd::prelude::*;

verus! {

/// What a texture is used for, which decides its upload format and how it is reported.
#[derive(Clone, Copy, Debug, PartialEq, Eq, Structural)]
pub enum TextureRole {
    Face,
    Eyes,
    Clothing,
    Normal,
    Occlusion,
    Emissive,
    GenericColor,
    Data,
}

pub const TEXTURE_PREPARE_ROLE_COUNT: usize = 8;

pub open spec fn role_index_spec(role: TextureRole) -> nat {
    match role {
        TextureRole::Face => 0,
        TextureRole::Eyes => 1,
        TextureRole::Clothing => 2,
        TextureRole::Normal => 3,
        TextureRole::Occlusion => 4,
        TextureRole::Emissive => 5,
        TextureRole::GenericColor => 6,
        TextureRole::Data => 7,
    }
}

pub open spec fn role_label_spec(index: nat) -> Seq<char> {
    if index == 0 {
        "Face"@
    } else if index == 1 {
        "Eyes"@
    } else if index == 2 {
        "Clothing"@
    } else if index == 3 {
        "Normal"@
    } else if index == 4 {
        "Occlusion"@
    } else if index == 5 {
        "Emissive"@
    } else if index == 6 {
        "GenericColor"@
    } else if index == 7 {
        "Data"@
    } else {
        "Unknown"@
    }
}

/// The slot of a role in the per-role summary.
pub fn texture_prepare_role_index(role: TextureRole) -> (index: usize)
    ensures
        index == role_index_spec(role),
        index < TEXTURE_PREPARE_ROLE_COUNT,
{
    match role {
        TextureRole::Face => 0,
        TextureRole::Eyes => 1,
        TextureRole::Clothing => 2,
        TextureRole::Normal => 3,
        TextureRole::Occlusion => 4,
        TextureRole::Emissive => 5,
        TextureRole::GenericColor => 6,
        TextureRole::Data => 7,
    }
}

/// The name reported for a per-role summary slot; `Unknown` past the last role.
pub fn texture_prepare_role_label(index: usize) -> (label: &'static str)
    ensures
        label@ == role_label_spec(index as nat),
{
    match index {
        0 => "Face",
        1 => "Eyes",
        2 => "Clothing",
        3 => "Normal",
        4 => "Occlusion",
        5 => "Emissive",
        6 => "GenericColor",
        7 => "Data",
        _ => "Unknown",
    }
}

/// Distinct roles get distinct slots, every slot is below the role count, and no slot of a
/// role is reported as `Unknown`.
pub proof fn lemma_role_slots_are_distinct(a: TextureRole, b: TextureRole)
    ensures
        role_index_spec(a) < TEXTURE_PREPARE_ROLE_COUNT,
        role_index_spec(a) == role_index_spec(b) <==> a == b,
        role_label_spec(role_index_spec(a)) != "Unknown"@,
{
    reveal_strlit("Unknown");
    reveal_strlit("Face");
    reveal_strlit("Eyes");
    reveal_strlit("Clothing");
    reveal_strlit("Normal");
    reveal_strlit("Occlusion");
    reveal_strlit("Emissive");
    reveal_strlit("GenericColor");
    reveal_strlit("Data");
    assert("Face"@.len() != "Unknown"@.len());
    assert("Eyes"@.len() != "Unknown"@.len());
    assert("Clothing"@[0] != "Unknown"@[0]);
    assert("Normal"@.len() != "Unknown"@.len());
    assert("Occlusion"@.len() != "Unknown"@.len());
    assert("Emissive"@[0] != "Unknown"@[0]);
    assert("GenericColor"@.len() != "Unknown"@.len());
    assert("Data"@.len() != "Unknown"@.len());
}

/// The encoding of an uploaded texture's mips.
#[derive(Clone, Copy, Debug, PartialEq, Eq, Structural)]
pub enum TextureUploadKind {
    Rgba,
    Bc1Srgb,
    Bc5Unorm,
    Bc7Unorm,
    Bc7Srgb,
}

pub open spec fn div_ceil4(v: nat) -> nat {
    (v + 3) / 4
}

/// Bytes per row and rows of one mip of the given size: RGBA is four bytes per texel and one
/// row per texel row; block formats count 4x4 blocks of 8 (BC1) or 16 bytes.
pub open spec fn mip_copy_layout_spec(kind: TextureUploadKind, width: nat, height: nat) -> (int, int) {
    match kind {
        TextureUploadKind::Rgba => ((4 * width) as int, height as int),
        TextureUploadKind::Bc1Srgb => ((div_ceil4(width) * 8) as int, div_ceil4(height) as int),
        _ => ((div_ceil4(width) * 16) as int, div_ceil4(height) as int),
    }
}

/// The bytes of one block of a block-compressed upload: 8 for BC1, 16 for BC5 and BC7.
pub open spec fn block_bytes(kind: TextureUploadKind) -> int {
    if kind == TextureUploadKind::Bc1Srgb {
        8
    } else {
        16
    }
}

/// A mip's copy layout covers its texels exactly: RGBA rows hold four bytes per texel and
/// there is one row per texel row; a block format uses the fewest 4x4 blocks that cover the
/// mip, each row of blocks holding the block size (8 bytes for BC1, 16 for BC5 and BC7) per block.
pub proof fn lemma_mip_copy_layout_covers(kind: TextureUploadKind, width: nat, height: nat)
    ensures
        ({
            let (row_bytes, rows) = mip_copy_layout_spec(kind, width, height);
            &&& kind == TextureUploadKind::Rgba ==> row_bytes == 4 * width && rows == height
            &&& kind != TextureUploadKind::Rgba ==> {
                &&& row_bytes % block_bytes(kind) == 0
                &&& 4 * (row_bytes / block_bytes(kind)) >= width && 4 * (row_bytes / block_bytes(kind)) < width + 4
                &&& 4 * rows >= height && 4 * rows < height + 4
            }
        }),
{
    let bw = div_ceil4(width) as int;
    let bh = div_ceil4(height) as int;
    assert(4 * bw >= width && 4 * bw < width + 4);
    assert(4 * bh >= height && 4 * bh < height + 4);
    assert((bw * 8) % 8 == 0 && (bw * 8) / 8 == bw) by (nonlinear_arith)
        requires
            bw >= 0,
    ;
    assert((bw * 16) % 16 == 0 && (bw * 16) / 16 == bw) by (nonlinear_arith)
        requires
            bw >= 0,
    ;
}

fn div_ceil_4(v: u32) -> (r: u32)
    ensures
        r == div_ceil4(v as nat),
{
    v / 4 + if v % 4 != 0 { 1 } else { 0 }
}

/// Copy layout (bytes per row, rows) of one mip of `width` x `height` texels.
pub fn texture_mip_copy_layout(kind: TextureUploadKind, width: u32, height: u32) -> (layout: (u32, u32))
    requires
        mip_copy_layout_spec(kind, width as nat, height as nat).0 <= u32::MAX,
    ensures
        layout.0 == mip_copy_layout_spec(kind, width as nat, height as nat).0,
        layout.1 == mip_copy_layout_spec(kind, width as nat, height as nat).1,
{
    match kind {
        TextureUploadKind::Rgba => (4 * width, height),
        TextureUploadKind::Bc1Srgb => (div_ceil_4(width) * 8, div_ceil_4(height)),
        TextureUploadKind::Bc5Unorm | TextureUploadKind::Bc7Unorm | TextureUploadKind::Bc7Srgb => (
            div_ceil_4(width) * 16,
            div_ceil_4(height),
        ),
    }
}

/// One encoded mip of a texture payload.
#[derive(Debug)]
pub struct TextureUploadMip {
    pub width: u32,
    pub height: u32,
    pub data: Vec<u8>,
}

/// The encoded mips of one texture, top mip first.
#[derive(Debug)]
pub struct TextureUploadPayload {
    pub kind: TextureUploadKind,
    pub mips: Vec<TextureUploadMip>,
}

/// The size of the payload's top mip, or the fallback size when it has no mips.
pub fn payload_top_mip_dimensions(payload: &TextureUploadPayload, fallback_width: u32, fallback_height: u32) -> (dims: (
    u32,
    u32,
))
    ensures
        payload.mips@.len() == 0 ==> dims == (fallback_width, fallback_height),
        payload.mips@.len() > 0 ==> dims == (payload.mips@[0].width, payload.mips@[0].height),
{
    if payload.mips.len() == 0 {
        (fallback_width, fallback_height)
    } else {
        (payload.mips[0].width, payload.mips[0].height)
    }
}

/// Counters reported for the textures of a scene.
#[derive(Clone, Copy, Debug, PartialEq, Eq, Structural)]
pub struct TextureUploadSummary {
    pub image_count: u32,
    pub deferred_image_upload_count: u32,
    pub deferred_image_mip_bytes: u64,
    pub resized_count: u32,
    pub cubemap_count: u32,
    pub deferred_cubemap_upload_count: u32,
    pub cubemap_converted_count: u32,
    pub cubemap_fallback_count: u32,
    pub cubemap_cache_hits: u32,
    pub cubemap_cache_misses: u32,
    pub cubemap_cache_writes: u32,
    pub compression_bc_supported: bool,
    pub compression_astc_supported: bool,
    pub compression_etc2_supported: bool,
    pub compressed_count: u32,
    pub compression_fallback_count: u32,
    pub compressed_mip_bytes: u64,
    pub cache_enabled: bool,
    pub cache_hits: u32,
    pub cache_misses: u32,
    pub cache_writes: u32,
    pub compressed_cache_hits: u32,
    pub compressed_cache_misses: u32,
    pub compressed_cache_writes: u32,
    pub source_bytes: u64,
    pub uploaded_mip_bytes: u64,
    pub cubemap_uploaded_bytes: u64,
    pub deferred_cubemap_mip_bytes: u64,
    pub max_source_dimension: u32,
    pub max_uploaded_dimension: u32,
    pub limit_max_dimension: Option<u32>,
}

pub open spec fn max_u32(a: u32, b: u32) -> u32 {
    if a >= b {
        a
    } else {
        b
    }
}

/// The summary after recording one image; the counters it does not concern stay as they are.
pub open spec fn record_image_spec(
    s: TextureUploadSummary,
    source_width: u32,
    source_height: u32,
    uploaded_width: u32,
    uploaded_height: u32,
    uploaded_mip_bytes: u64,
    uploaded: bool,
) -> TextureUploadSummary {
    TextureUploadSummary {
        image_count: (s.image_count + 1) as u32,
        source_bytes: (s.source_bytes + source_width * source_height * 4) as u64,
        uploaded_mip_bytes: if uploaded {
            (s.uploaded_mip_bytes + uploaded_mip_bytes) as u64
        } else {
            s.uploaded_mip_bytes
        },
        deferred_image_upload_count: if uploaded {
            s.deferred_image_upload_count
        } else {
            (s.deferred_image_upload_count + 1) as u32
        },
        deferred_image_mip_bytes: if uploaded {
            s.deferred_image_mip_bytes
        } else {
            (s.deferred_image_mip_bytes + uploaded_mip_bytes) as u64
        },
        max_source_dimension: max_u32(s.max_source_dimension, max_u32(source_width, source_height)),
        max_uploaded_dimension: max_u32(s.max_uploaded_dimension, max_u32(uploaded_width, uploaded_height)),
        resized_count: if source_width != uploaded_width || source_height != uploaded_height {
            (s.resized_count + 1) as u32
        } else {
            s.resized_count
        },
        ..s
    }
}

/// The counters of `record_image` do not overflow.
pub open spec fn record_image_fits(
    s: TextureUploadSummary,
    source_width: u32,
    source_height: u32,
    uploaded_mip_bytes: u64,
    uploaded: bool,
    resized: bool,
) -> bool {
    &&& s.image_count + 1 <= u32::MAX
    &&& s.source_bytes + source_width * source_height * 4 <= u64::MAX
    &&& uploaded ==> s.uploaded_mip_bytes + uploaded_mip_bytes <= u64::MAX
    &&& !uploaded ==> s.deferred_image_upload_count + 1 <= u32::MAX
    &&& !uploaded ==> s.deferred_image_mip_bytes + uploaded_mip_bytes <= u64::MAX
    &&& resized ==> s.resized_count + 1 <= u32::MAX
}

pub open spec fn empty_texture_upload_summary() -> TextureUploadSummary {
    TextureUploadSummary {
        image_count: 0,
        deferred_image_upload_count: 0,
        deferred_image_mip_bytes: 0,
        resized_count: 0,
        cubemap_count: 0,
        deferred_cubemap_upload_count: 0,
        cubemap_converted_count: 0,
        cubemap_fallback_count: 0,
        cubemap_cache_hits: 0,
        cubemap_cache_misses: 0,
        cubemap_cache_writes: 0,
        compression_bc_supported: false,
        compression_astc_supported: false,
        compression_etc2_supported: false,
        compressed_count: 0,
        compression_fallback_count: 0,
        compressed_mip_bytes: 0,
        cache_enabled: false,
        cache_hits: 0,
        cache_misses: 0,
        cache_writes: 0,
        compressed_cache_hits: 0,
        compressed_cache_misses: 0,
        compressed_cache_writes: 0,
        source_bytes: 0,
        uploaded_mip_bytes: 0,
        cubemap_uploaded_bytes: 0,
        deferred_cubemap_mip_bytes: 0,
        max_source_dimension: 0,
        max_uploaded_dimension: 0,
        limit_max_dimension: None,
    }
}

impl Default for TextureUploadSummary {
    fn default() -> (s: Self)
        ensures
            s == empty_texture_upload_summary(),
    {
        TextureUploadSummary {
            image_count: 0,
            deferred_image_upload_count: 0,
            deferred_image_mip_bytes: 0,
            resized_count: 0,
            cubemap_count: 0,
            deferred_cubemap_upload_count: 0,
            cubemap_converted_count: 0,
            cubemap_fallback_count: 0,
            cubemap_cache_hits: 0,
            cubemap_cache_misses: 0,
            cubemap_cache_writes: 0,
            compression_bc_supported: false,
            compression_astc_supported: false,
            compression_etc2_supported: false,
            compressed_count: 0,
            compression_fallback_count: 0,
            compressed_mip_bytes: 0,
            cache_enabled: false,
            cache_hits: 0,
            cache_misses: 0,
            cache_writes: 0,
            compressed_cache_hits: 0,
            compressed_cache_misses: 0,
            compressed_cache_writes: 0,
            source_bytes: 0,
            uploaded_mip_bytes: 0,
            cubemap_uploaded_bytes: 0,
            deferred_cubemap_mip_bytes: 0,
            max_source_dimension: 0,
            max_uploaded_dimension: 0,
            limit_max_dimension: None,
        }
    }
}

impl TextureUploadSummary {
    /// Counts one image: its source bytes (four per texel), its mip bytes as uploaded or as
    /// deferred, the largest dimensions seen, and whether it was resized.
    pub fn record_image(
        &mut self,
        source_width: u32,
        source_height: u32,
        uploaded_width: u32,
        uploaded_height: u32,
        uploaded_mip_bytes: u64,
        uploaded: bool,
    )
        requires
            record_image_fits(
                *old(self),
                source_width,
                source_height,
                uploaded_mip_bytes,
                uploaded,
                source_width != uploaded_width || source_height != uploaded_height,
            ),
        ensures
            *final(self) == record_image_spec(
                *old(self),
                source_width,
                source_height,
                uploaded_width,
                uploaded_height,
                uploaded_mip_bytes,
                uploaded,
            ),
    {
        self.image_count += 1;
        self.source_bytes += (source_width as u64) * (source_height as u64) * 4;
        if uploaded {
            self.uploaded_mip_bytes += uploaded_mip_bytes;
        } else {
            self.deferred_image_upload_count += 1;
            self.deferred_image_mip_bytes += uploaded_mip_bytes;
        }
        let source_max = if source_width >= source_height { source_width } else { source_height };
        let uploaded_max = if uploaded_width >= uploaded_height { uploaded_width } else { uploaded_height };
        if source_max > self.max_source_dimension {
            self.max_source_dimension = source_max;
        }
        if uploaded_max > self.max_uploaded_dimension {
            self.max_uploaded_dimension = uploaded_max;
        }
        if source_width != uploaded_width || source_height != uploaded_height {
            self.resized_count += 1;
        }
    }
}

/// Time spent in each stage of preparing one primitive, in nanoseconds.
#[derive(Clone, Copy, Debug, PartialEq, Eq, Structural)]
pub struct MeshPrepareTimings {
    pub material: u128,
    pub dynamic_morphs: u128,
    pub expand: u128,
    pub skinning: u128,
    pub skin_palette: u128,
    pub buffer_upload: u128,
    pub material_bind: u128,
    pub morph_resources: u128,
    pub fur_resources: u128,
    pub draw_push: u128,
}

/// Totals over the primitives prepared for a scene; times in nanoseconds.
#[derive(Clone, Copy, Debug, PartialEq, Eq, Structural)]
pub struct MeshPrepareSummary {
    pub prepared_primitives: u32,
    pub resident_primitives: u32,
    pub deferred_primitives: u32,
    pub skipped_invisible_primitives: u32,
    pub skipped_empty_primitives: u32,
    pub expanded_cache_hits: u32,
    pub expanded_cache_misses: u32,
    pub expanded_uncacheable: u32,
    pub vertices: u64,
    pub indices: u64,
    pub resident_vertex_bytes: u64,
    pub resident_index_bytes: u64,
    pub deferred_vertex_bytes: u64,
    pub deferred_index_bytes: u64,
    pub mesh_cloth_assist_vertices: u64,
    pub material_elapsed: u128,
    pub dynamic_morph_elapsed: u128,
    pub expand_elapsed: u128,
    pub skinning_elapsed: u128,
    pub skin_palette_elapsed: u128,
    pub buffer_upload_elapsed: u128,
    pub material_bind_elapsed: u128,
    pub morph_resource_elapsed: u128,
    pub fur_resource_elapsed: u128,
    pub draw_push_elapsed: u128,
}

/// The stage totals after adding one primitive's timings; the counters stay as they are.
pub open spec fn record_timings_spec(s: MeshPrepareSummary, t: MeshPrepareTimings) -> MeshPrepareSummary {
    MeshPrepareSummary {
        material_elapsed: (s.material_elapsed + t.material) as u128,
        dynamic_morph_elapsed: (s.dynamic_morph_elapsed + t.dynamic_morphs) as u128,
        expand_elapsed: (s.expand_elapsed + t.expand) as u128,
        skinning_elapsed: (s.skinning_elapsed + t.skinning) as u128,
        skin_palette_elapsed: (s.skin_palette_elapsed + t.skin_palette) as u128,
        buffer_upload_elapsed: (s.buffer_upload_elapsed + t.buffer_upload) as u128,
        material_bind_elapsed: (s.material_bind_elapsed + t.material_bind) as u128,
        morph_resource_elapsed: (s.morph_resource_elapsed + t.morph_resources) as u128,
        fur_resource_elapsed: (s.fur_resource_elapsed + t.fur_resources) as u128,
        draw_push_elapsed: (s.draw_push_elapsed + t.draw_push) as u128,
        ..s
    }
}

pub open spec fn record_timings_fits(s: MeshPrepareSummary, t: MeshPrepareTimings) -> bool {
    &&& s.material_elapsed + t.material <= u128::MAX
    &&& s.dynamic_morph_elapsed + t.dynamic_morphs <= u128::MAX
    &&& s.expand_elapsed + t.expand <= u128::MAX
    &&& s.skinning_elapsed + t.skinning <= u128::MAX
    &&& s.skin_palette_elapsed + t.skin_palette <= u128::MAX
    &&& s.buffer_upload_elapsed + t.buffer_upload <= u128::MAX
    &&& s.material_bind_elapsed + t.material_bind <= u128::MAX
    &&& s.morph_resource_elapsed + t.morph_resources <= u128::MAX
    &&& s.fur_resource_elapsed + t.fur_resources <= u128::MAX
    &&& s.draw_push_elapsed + t.draw_push <= u128::MAX
}

impl MeshPrepareSummary {
    /// Adds one primitive's stage timings to the totals.
    pub fn record_timings(&mut self, timings: MeshPrepareTimings)
        requires
            record_timings_fits(*old(self), timings),
        ensures
            *final(self) == record_timings_spec(*old(self), timings),
    {
        self.material_elapsed += timings.material;
        self.dynamic_morph_elapsed += timings.dynamic_morphs;
        self.expand_elapsed += timings.expand;
        self.skinning_elapsed += timings.skinning;
        self.skin_palette_elapsed += timings.skin_palette;
        self.buffer_upload_elapsed += timings.buffer_upload;
        self.material_bind_elapsed += timings.material_bind;
        self.morph_resource_elapsed += timings.morph_resources;
        self.fur_resource_elapsed += timings.fur_resources;
        self.draw_push_elapsed += timings.draw_push;
    }
}

/// The time since `*step_start` (zero if the clock reads earlier), restarting the step at `now`;
/// instants are nanoseconds on one monotonic clock.
pub fn take_gpu_scene_step_elapsed(step_start: &mut u128, now: u128) -> (elapsed: u128)
    ensures
        elapsed == (if now >= *old(step_start) { now - *old(step_start) } else { 0 }),
        *final(step_start) == now,
{
    let elapsed = if now >= *step_start { now - *step_start } else { 0 };
    *step_start = now;
    elapsed
}

/// What the processed-texture cache did for one image; times in nanoseconds.
#[derive(Clone, Copy, Debug, PartialEq, Eq, Structural)]
pub struct TextureCacheEvent {
    pub hit: bool,
    pub miss: bool,
    pub write: bool,
    pub read_bytes: u64,
    pub read_elapsed: u128,
}

/// Time spent in each stage of preparing one texture, in nanoseconds.
#[derive(Clone, Copy, Debug, PartialEq, Eq, Structural)]
pub struct TextureImagePrepareTimings {
    pub cube: u128,
    pub source: u128,
    pub rgba: u128,
    pub cache_lookup: u128,
    pub cache_read: u128,
    pub processed: u128,
    pub payload: u128,
    pub upload: u128,
}

/// Per-role totals of texture preparation; times in nanoseconds.
#[derive(Clone, Copy, Debug, PartialEq, Eq, Structural)]
pub struct TexturePrepareRoleSummary {
    pub images: u32,
    pub resident_images: u32,
    pub cache_read_elapsed: u128,
    pub upload_elapsed: u128,
    pub cache_read_bytes: u64,
    pub cache_hits: u32,
    pub compressed_cache_hits: u32,
}

/// Totals of texture preparation for a scene, with one role summary per texture role;
/// times in nanoseconds.
#[derive(Debug)]
pub struct TexturePrepareSummary {
    pub images: u32,
    pub resident_images: u32,
    pub deferred_images: u32,
    pub resident_elapsed: u128,
    pub deferred_elapsed: u128,
    pub cube_elapsed: u128,
    pub source_elapsed: u128,
    pub rgba_elapsed: u128,
    pub cache_lookup_elapsed: u128,
    pub cache_read_elapsed: u128,
    pub processed_elapsed: u128,
    pub payload_elapsed: u128,
    pub upload_elapsed: u128,
    pub cache_hits: u32,
    pub cache_misses: u32,
    pub cache_writes: u32,
    pub cache_read_bytes: u64,
    pub compressed_cache_hits: u32,
    pub compressed_cache_misses: u32,
    pub compressed_cache_writes: u32,
    pub roles: Vec<TexturePrepareRoleSummary>,
}

pub open spec fn sat_add_u64(a: u64, b: u64) -> u64 {
    if a + b > u64::MAX {
        u64::MAX
    } else {
        (a + b) as u64
    }
}

pub open spec fn sat_sub_u128(a: u128, b: u128) -> u128 {
    if a >= b {
        (a - b) as u128
    } else {
        0
    }
}

pub open spec fn inc_if(v: u32, c: bool) -> u32 {
    if c {
        (v + 1) as u32
    } else {
        v
    }
}

/// A role summary after recording one image of that role.
pub open spec fn record_role_spec(
    r: TexturePrepareRoleSummary,
    resident: bool,
    timings: TextureImagePrepareTimings,
    cache_event: TextureCacheEvent,
    compressed_cache_event: TextureCacheEvent,
) -> TexturePrepareRoleSummary {
    TexturePrepareRoleSummary {
        images: (r.images + 1) as u32,
        resident_images: inc_if(r.resident_images, resident),
        cache_read_elapsed: (r.cache_read_elapsed + timings.cache_read + cache_event.read_elapsed) as u128,
        upload_elapsed: (r.upload_elapsed + timings.upload) as u128,
        cache_read_bytes: sat_add_u64(r.cache_read_bytes, cache_event.read_bytes),
        cache_hits: inc_if(r.cache_hits, cache_event.hit),
        compressed_cache_hits: inc_if(r.compressed_cache_hits, compressed_cache_event.hit),
    }
}

pub open spec fn role_record_fits(
    r: TexturePrepareRoleSummary,
    timings: TextureImagePrepareTimings,
    cache_event: TextureCacheEvent,
) -> bool {
    &&& r.images < u32::MAX
    &&& r.resident_images < u32::MAX
    &&& r.cache_read_elapsed + timings.cache_read + cache_event.read_elapsed <= u128::MAX
    &&& r.upload_elapsed + timings.upload <= u128::MAX
    &&& r.cache_hits < u32::MAX
    &&& r.compressed_cache_hits < u32::MAX
}

/// None of the totals that recording an image adds to overflows.
pub open spec fn prepare_record_fits(
    s: TexturePrepareSummary,
    role: TextureRole,
    elapsed: u128,
    timings: TextureImagePrepareTimings,
    cache_event: TextureCacheEvent,
) -> bool {
    &&& s.roles@.len() == TEXTURE_PREPARE_ROLE_COUNT
    &&& s.images < u32::MAX
    &&& s.resident_images < u32::MAX
    &&& s.deferred_images < u32::MAX
    &&& s.resident_elapsed + elapsed <= u128::MAX
    &&& s.deferred_elapsed + elapsed <= u128::MAX
    &&& s.cube_elapsed + timings.cube <= u128::MAX
    &&& s.source_elapsed + timings.source <= u128::MAX
    &&& s.rgba_elapsed + timings.rgba <= u128::MAX
    &&& s.cache_lookup_elapsed + timings.cache_lookup <= u128::MAX
    &&& s.cache_read_elapsed + timings.cache_read + cache_event.read_elapsed <= u128::MAX
    &&& s.processed_elapsed + timings.processed <= u128::MAX
    &&& s.payload_elapsed + timings.payload <= u128::MAX
    &&& s.upload_elapsed + timings.upload <= u128::MAX
    &&& s.cache_hits < u32::MAX
    &&& s.cache_misses < u32::MAX
    &&& s.cache_writes < u32::MAX
    &&& s.compressed_cache_hits < u32::MAX
    &&& s.compressed_cache_misses < u32::MAX
    &&& s.compressed_cache_writes < u32::MAX
    &&& role_record_fits(s.roles@[role_index_spec(role) as int], timings, cache_event)
}

impl TexturePrepareSummary {
    /// Records one prepared image: the image counts (resident or deferred), the stage times
    /// (the processed time without the cache read it contains, counted as cache read
    /// instead), the cache counters, and the same for the image's role.
    pub fn record(
        &mut self,
        role: TextureRole,
        resident: bool,
        elapsed: u128,
        timings: TextureImagePrepareTimings,
        cache_event: TextureCacheEvent,
        compressed_cache_event: TextureCacheEvent,
    )
        requires
            prepare_record_fits(*old(self), role, elapsed, timings, cache_event),
        ensures
            final(self).roles@ == old(self).roles@.update(
                role_index_spec(role) as int,
                record_role_spec(
                    old(self).roles@[role_index_spec(role) as int],
                    resident,
                    timings,
                    cache_event,
                    compressed_cache_event,
                ),
            ),
            final(self).images == old(self).images + 1,
            final(self).resident_images == inc_if(old(self).resident_images, resident),
            final(self).deferred_images == inc_if(old(self).deferred_images, !resident),
            final(self).resident_elapsed == old(self).resident_elapsed + if resident { elapsed } else { 0 },
            final(self).deferred_elapsed == old(self).deferred_elapsed + if resident { 0 } else { elapsed },
            final(self).cube_elapsed == old(self).cube_elapsed + timings.cube,
            final(self).source_elapsed == old(self).source_elapsed + timings.source,
            final(self).rgba_elapsed == old(self).rgba_elapsed + timings.rgba,
            final(self).cache_lookup_elapsed == old(self).cache_lookup_elapsed + timings.cache_lookup,
            final(self).cache_read_elapsed == old(self).cache_read_elapsed + timings.cache_read + cache_event.read_elapsed,
            final(self).processed_elapsed == old(self).processed_elapsed + sat_sub_u128(
                timings.processed,
                cache_event.read_elapsed,
            ),
            final(self).payload_elapsed == old(self).payload_elapsed + timings.payload,
            final(self).upload_elapsed == old(self).upload_elapsed + timings.upload,
            final(self).cache_hits == inc_if(old(self).cache_hits, cache_event.hit),
            final(self).cache_misses == inc_if(old(self).cache_misses, cache_event.miss),
            final(self).cache_writes == inc_if(old(self).cache_writes, cache_event.write),
            final(self).cache_read_bytes == sat_add_u64(old(self).cache_read_bytes, cache_event.read_bytes),
            final(self).compressed_cache_hits == inc_if(old(self).compressed_cache_hits, compressed_cache_event.hit),
            final(self).compressed_cache_misses == inc_if(old(self).compressed_cache_misses, compressed_cache_event.miss),
            final(self).compressed_cache_writes == inc_if(old(self).compressed_cache_writes, compressed_cache_event.write),
    {
        self.images = self.images + 1;
        if resident {
            self.resident_images = self.resident_images + 1;
            self.resident_elapsed = self.resident_elapsed + elapsed;
        } else {
            self.deferred_images = self.deferred_images + 1;
            self.deferred_elapsed = self.deferred_elapsed + elapsed;
        }
        self.cube_elapsed = self.cube_elapsed + timings.cube;
        self.source_elapsed = self.source_elapsed + timings.source;
        self.rgba_elapsed = self.rgba_elapsed + timings.rgba;
        self.cache_lookup_elapsed = self.cache_lookup_elapsed + timings.cache_lookup;
        let processed_cache_read_elapsed = cache_event.read_elapsed;
        self.cache_read_elapsed = self.cache_read_elapsed + timings.cache_read + processed_cache_read_elapsed;
        let processed = if timings.processed >= processed_cache_read_elapsed {
            timings.processed - processed_cache_read_elapsed
        } else {
            0
        };
        self.processed_elapsed = self.processed_elapsed + processed;
        self.payload_elapsed = self.payload_elapsed + timings.payload;
        self.upload_elapsed = self.upload_elapsed + timings.upload;
        let index = texture_prepare_role_index(role);
        let mut r = self.roles[index];
        r.images = r.images + 1;
        if resident {
            r.resident_images = r.resident_images + 1;
        }
        r.cache_read_elapsed = r.cache_read_elapsed + timings.cache_read + processed_cache_read_elapsed;
        r.upload_elapsed = r.upload_elapsed + timings.upload;
        r.cache_read_bytes = r.cache_read_bytes.saturating_add(cache_event.read_bytes);
        if cache_event.hit {
            self.cache_hits = self.cache_hits + 1;
            r.cache_hits = r.cache_hits + 1;
        }
        if cache_event.miss {
            self.cache_misses = self.cache_misses + 1;
        }
        if cache_event.write {
            self.cache_writes = self.cache_writes + 1;
        }
        self.cache_read_bytes = self.cache_read_bytes.saturating_add(cache_event.read_bytes);
        if compressed_cache_event.hit {
            self.compressed_cache_hits = self.compressed_cache_hits + 1;
            r.compressed_cache_hits = r.compressed_cache_hits + 1;
        }
        if compressed_cache_event.miss {
            self.compressed_cache_misses = self.compressed_cache_misses + 1;
        }
        if compressed_cache_event.write {
            self.compressed_cache_writes = self.compressed_cache_writes + 1;
        }
        self.roles.set(index, r);
    }
}

pub open spec fn empty_role_summary() -> TexturePrepareRoleSummary {
    TexturePrepareRoleSummary {
        images: 0,
        resident_images: 0,
        cache_read_elapsed: 0,
        upload_elapsed: 0,
        cache_read_bytes: 0,
        cache_hits: 0,
        compressed_cache_hits: 0,
    }
}

impl Default for TexturePrepareSummary {
    /// No images recorded: every total zero and one empty summary per role.
    fn default() -> (s: Self)
        ensures
            s.roles@ == Seq::new(TEXTURE_PREPARE_ROLE_COUNT as nat, |i: int| empty_role_summary()),
            s.images == 0 && s.resident_images == 0 && s.deferred_images == 0,
            s.resident_elapsed == 0 && s.deferred_elapsed == 0 && s.cube_elapsed == 0 && s.source_elapsed == 0,
            s.rgba_elapsed == 0 && s.cache_lookup_elapsed == 0 && s.cache_read_elapsed == 0,
            s.processed_elapsed == 0 && s.payload_elapsed == 0 && s.upload_elapsed == 0,
            s.cache_hits == 0 && s.cache_misses == 0 && s.cache_writes == 0 && s.cache_read_bytes == 0,
            s.compressed_cache_hits == 0 && s.compressed_cache_misses == 0 && s.compressed_cache_writes == 0,
    {
        let mut roles: Vec<TexturePrepareRoleSummary> = Vec::new();
        let mut k: usize = 0;
        while k < TEXTURE_PREPARE_ROLE_COUNT
            invariant
                k <= TEXTURE_PREPARE_ROLE_COUNT,
                roles@ == Seq::new(k as nat, |i: int| empty_role_summary()),
            decreases TEXTURE_PREPARE_ROLE_COUNT - k,
        {
            roles.push(
                TexturePrepareRoleSummary {
                    images: 0,
                    resident_images: 0,
                    cache_read_elapsed: 0,
                    upload_elapsed: 0,
                    cache_read_bytes: 0,
                    cache_hits: 0,
                    compressed_cache_hits: 0,
                },
            );
            assert(roles@ =~= Seq::new((k + 1) as nat, |i: int| empty_role_summary()));
            k = k + 1;
        }
        TexturePrepareSummary {
            images: 0,
            resident_images: 0,
            deferred_images: 0,
            resident_elapsed: 0,
            deferred_elapsed: 0,
            cube_elapsed: 0,
            source_elapsed: 0,
            rgba_elapsed: 0,
            cache_lookup_elapsed: 0,
            cache_read_elapsed: 0,
            processed_elapsed: 0,
            payload_elapsed: 0,
            upload_elapsed: 0,
            cache_hits: 0,
            cache_misses: 0,
            cache_writes: 0,
            cache_read_bytes: 0,
            compressed_cache_hits: 0,
            compressed_cache_misses: 0,
            compressed_cache_writes: 0,
            roles,
        }
    }
}

} // verus!
