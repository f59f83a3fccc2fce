use vstd::prelude::*;

verus! {

pub open spec fn wrap_mul_u32(a: u32, b: u32) -> u32 {
    ((a as nat * b as nat) % 0x1_0000_0000) as u32
}

/// The integer hash that seeds fur card placement (two xorshift-multiply rounds).
pub open spec fn fur_hash_spec(x: u32) -> u32 {
    let a = x ^ (x >> 16u32);
    let b = wrap_mul_u32(a, 0x7feb_352d);
    let c = b ^ (b >> 15u32);
    let d = wrap_mul_u32(c, 0x846c_a68b);
    d ^ (d >> 16u32)
}

pub fn compute_fur_cards_hash_u32(x: u32) -> (h: u32)
    ensures
        h == fur_hash_spec(x),
{
    let mut x = x;
    x ^= x >> 16;
    x = x.wrapping_mul(0x7feb_352d);
    x ^= x >> 15;
    x = x.wrapping_mul(0x846c_a68b);
    x ^ (x >> 16)
}

/// The fur hash with each of its steps undone in reverse order.
pub open spec fn fur_unhash_spec(h: u32) -> u32 {
    let d = h ^ (h >> 16u32);
    let c = wrap_mul_u32(d, 0x4302_1123);
    let b = c ^ (c >> 15u32) ^ (c >> 30u32);
    let a = wrap_mul_u32(b, 0x1d69_e2a5);
    a ^ (a >> 16u32)
}

proof fn lemma_xorshift16_undone(x: u32)
    ensures
        (x ^ (x >> 16u32)) ^ ((x ^ (x >> 16u32)) >> 16u32) == x,
{
    assert((x ^ (x >> 16u32)) ^ ((x ^ (x >> 16u32)) >> 16u32) == x) by (bit_vector);
}

proof fn lemma_xorshift15_undone(x: u32)
    ensures
        (x ^ (x >> 15u32)) ^ ((x ^ (x >> 15u32)) >> 15u32) ^ ((x ^ (x >> 15u32)) >> 30u32) == x,
{
    assert((x ^ (x >> 15u32)) ^ ((x ^ (x >> 15u32)) >> 15u32) ^ ((x ^ (x >> 15u32)) >> 30u32) == x) by (bit_vector);
}

proof fn lemma_wrap_mul_undone(x: u32, c: u32, inverse: u32)
    requires
        (c as nat * inverse as nat) % 0x1_0000_0000 == 1,
    ensures
        wrap_mul_u32(wrap_mul_u32(x, c), inverse) == x,
{
    let m: int = 0x1_0000_0000;
    let xc: int = x as int * c as int;
    assert(wrap_mul_u32(x, c) as int == xc % m);
    vstd::arithmetic::div_mod::lemma_mul_mod_noop_left(xc, inverse as int, m);
    assert((xc % m) * (inverse as int) % m == xc * (inverse as int) % m);
    vstd::arithmetic::mul::lemma_mul_is_associative(x as int, c as int, inverse as int);
    vstd::arithmetic::div_mod::lemma_mul_mod_noop_right(x as int, c as int * inverse as int, m);
    assert(x as int * ((c as int * inverse as int) % m) == x as int);
    vstd::arithmetic::div_mod::lemma_small_mod(x as nat, m as nat);
}

/// The fur hash is a bijection on `u32`: different inputs always hash differently, and undoing
/// its steps gives the input back. It maps zero to zero.
pub proof fn lemma_fur_hash_injective(x: u32, y: u32)
    ensures
        fur_unhash_spec(fur_hash_spec(x)) == x,
        fur_hash_spec(x) == fur_hash_spec(y) ==> x == y,
        fur_hash_spec(0) == 0,
{
    assert(fur_unhash_spec(fur_hash_spec(x)) == x) by {
        let a = x ^ (x >> 16u32);
        let b = wrap_mul_u32(a, 0x7feb_352d);
        let c = b ^ (b >> 15u32);
        let d = wrap_mul_u32(c, 0x846c_a68b);
        lemma_xorshift16_undone(d);
        assert((0x846c_a68b as nat * 0x4302_1123 as nat) % 0x1_0000_0000 == 1);
        lemma_wrap_mul_undone(c, 0x846c_a68b, 0x4302_1123);
        lemma_xorshift15_undone(b);
        assert((0x7feb_352d as nat * 0x1d69_e2a5 as nat) % 0x1_0000_0000 == 1);
        lemma_wrap_mul_undone(a, 0x7feb_352d, 0x1d69_e2a5);
        lemma_xorshift16_undone(x);
    }
    assert(fur_unhash_spec(fur_hash_spec(y)) == y) by {
        let a = y ^ (y >> 16u32);
        let b = wrap_mul_u32(a, 0x7feb_352d);
        let c = b ^ (b >> 15u32);
        let d = wrap_mul_u32(c, 0x846c_a68b);
        lemma_xorshift16_undone(d);
        assert((0x846c_a68b as nat * 0x4302_1123 as nat) % 0x1_0000_0000 == 1);
        lemma_wrap_mul_undone(c, 0x846c_a68b, 0x4302_1123);
        lemma_xorshift15_undone(b);
        assert((0x7feb_352d as nat * 0x1d69_e2a5 as nat) % 0x1_0000_0000 == 1);
        lemma_wrap_mul_undone(a, 0x7feb_352d, 0x1d69_e2a5);
        lemma_xorshift16_undone(y);
    }
    assert(0u32 ^ (0u32 >> 16u32) == 0u32) by (bit_vector);
    assert(wrap_mul_u32(0, 0x7feb_352d) == 0);
    assert(wrap_mul_u32(0, 0x846c_a68b) == 0);
    assert(0u32 ^ (0u32 >> 15u32) == 0u32) by (bit_vector);
}

/// Number of dispatch workgroups of 64 triangles for `triangle_count` triangles. The rounding
/// up saturates at `u32::MAX`, so for the top 63 counts (4294967233 and above) the result is
/// one workgroup short of covering every triangle; every smaller count is covered exactly.
pub fn compute_fur_cards_dispatch_workgroups(triangle_count: u32) -> (groups: u32)
    ensures
        groups as int == (if triangle_count as int + 63 > u32::MAX { u32::MAX as int } else { triangle_count as int + 63 }) / 64,
{
    triangle_count.saturating_add(63) / 64
}

/// Size in bytes of one generated fur card vertex.
pub const FUR_GENERATED_VERTEX_BYTES: u64 = 80;

/// Size in bytes of one fur source vertex.
pub const FUR_SOURCE_VERTEX_BYTES: u64 = 112;

/// Size in bytes of one fur source triangle.
pub const FUR_SOURCE_TRIANGLE_BYTES: u64 = 16;

/// Buffer sizes for `card_count` generated cards: four vertices and six indices each.
#[derive(Clone, Copy, Debug, PartialEq, Eq, Structural)]
pub struct ComputeFurCardsBufferRequirements {
    pub card_count: u32,
    pub vertex_count: u32,
    pub index_count: u32,
    pub vertex_bytes: u64,
    pub index_bytes: u64,
}

/// `None` exactly when a count does not fit in `u32`.
pub fn compute_fur_cards_buffer_requirements(card_count: u32) -> (r: Option<ComputeFurCardsBufferRequirements>)
    ensures
        card_count * 6 > u32::MAX ==> r is None,
        card_count * 6 <= u32::MAX ==> r == Some(
            ComputeFurCardsBufferRequirements {
                card_count,
                vertex_count: (card_count * 4) as u32,
                index_count: (card_count * 6) as u32,
                vertex_bytes: (card_count * 4 * 80) as u64,
                index_bytes: (card_count * 6 * 4) as u64,
            },
        ),
{
    let vertex_count = match card_count.checked_mul(4) {
        Some(v) => v,
        None => return None,
    };
    let index_count = match card_count.checked_mul(6) {
        Some(v) => v,
        None => return None,
    };
    let vertex_bytes = match (vertex_count as u64).checked_mul(FUR_GENERATED_VERTEX_BYTES) {
        Some(v) => v,
        None => return None,
    };
    let index_bytes = match (index_count as u64).checked_mul(4) {
        Some(v) => v,
        None => return None,
    };
    Some(ComputeFurCardsBufferRequirements { card_count, vertex_count, index_count, vertex_bytes, index_bytes })
}

/// Buffer sizes for the source vertices and triangles of a fur mesh.
#[derive(Clone, Copy, Debug, PartialEq, Eq, Structural)]
pub struct ComputeFurCardsSourceBufferRequirements {
    pub vertex_count: u32,
    pub triangle_count: u32,
    pub vertex_bytes: u64,
    pub triangle_bytes: u64,
}

/// Always `Some`: 112 bytes per source vertex and 16 per source triangle cannot overflow `u64`.
pub fn compute_fur_cards_source_buffer_requirements(vertex_count: u32, triangle_count: u32) -> (r: Option<
    ComputeFurCardsSourceBufferRequirements,
>)
    ensures
        r == Some(
            ComputeFurCardsSourceBufferRequirements {
                vertex_count,
                triangle_count,
                vertex_bytes: (vertex_count * 112) as u64,
                triangle_bytes: (triangle_count * 16) as u64,
            },
        ),
{
    let vertex_bytes = match (vertex_count as u64).checked_mul(FUR_SOURCE_VERTEX_BYTES) {
        Some(v) => v,
        None => return None,
    };
    let triangle_bytes = match (triangle_count as u64).checked_mul(FUR_SOURCE_TRIANGLE_BYTES) {
        Some(v) => v,
        None => return None,
    };
    Some(ComputeFurCardsSourceBufferRequirements { vertex_count, triangle_count, vertex_bytes, triangle_bytes })
}

/// A source triangle for the fur compute pass: three vertex indices and a zero pad.
#[derive(Clone, Copy, Debug)]
pub struct ComputeFurCardsSourceTriangleGpu {
    pub indices: [u32; 4],
}

pub open spec fn tri_view(t: ComputeFurCardsSourceTriangleGpu) -> Seq<u32> {
    t.indices@
}

pub open spec fn tris_view(ts: Seq<ComputeFurCardsSourceTriangleGpu>) -> Seq<Seq<u32>> {
    ts.map_values(|t: ComputeFurCardsSourceTriangleGpu| tri_view(t))
}

/// The source triangles of the first `n` complete index triples, keeping those whose three
/// indices are all below `vertex_count`, in order.
pub open spec fn source_triangles_spec(indices: Seq<u32>, vertex_count: nat, n: nat) -> Seq<Seq<u32>>
    decreases n,
{
    if n == 0 {
        Seq::empty()
    } else {
        let k = 3 * (n - 1);
        let earlier = source_triangles_spec(indices, vertex_count, (n - 1) as nat);
        if indices[k] < vertex_count && indices[k + 1] < vertex_count && indices[k + 2] < vertex_count {
            earlier.push(seq![indices[k], indices[k + 1], indices[k + 2], 0u32])
        } else {
            earlier
        }
    }
}

/// The in-range source triangles of a `u32` index list; a trailing partial triple is ignored.
pub fn compute_fur_cards_source_triangles_from_indices(indices: &[u32], vertex_count: usize) -> (out: Vec<
    ComputeFurCardsSourceTriangleGpu,
>)
    ensures
        tris_view(out@) == source_triangles_spec(indices@, vertex_count as nat, indices@.len() / 3),
{
    let mut out: Vec<ComputeFurCardsSourceTriangleGpu> = Vec::new();
    let n = indices.len() / 3;
    let mut t: usize = 0;
    while t < n
        invariant
            t <= n == indices@.len() / 3,
            indices@.len() == indices.len(),
            tris_view(out@) == source_triangles_spec(indices@, vertex_count as nat, t as nat),
        decreases n - t,
    {
        assert(3 * t + 2 < indices@.len());
        let k = 3 * t;
        let i0 = indices[k];
        let i1 = indices[k + 1];
        let i2 = indices[k + 2];
        let ghost before = out@;
        if (i0 as usize) < vertex_count && (i1 as usize) < vertex_count && (i2 as usize) < vertex_count {
            let tri = ComputeFurCardsSourceTriangleGpu { indices: [i0, i1, i2, 0] };
            out.push(tri);
            assert(tri_view(tri) =~= seq![i0, i1, i2, 0u32]);
            assert(tris_view(out@) =~= tris_view(before).push(tri_view(tri)));
        }
        t = t + 1;
    }
    out
}

/// The `u16` index list widened to `u32`.
pub open spec fn widen_u16(indices: Seq<u16>) -> Seq<u32> {
    indices.map_values(|i: u16| i as u32)
}

/// The in-range source triangles of a `u16` index list (see the `u32` form).
pub fn compute_fur_cards_source_triangles_from_indices_u16(indices: &[u16], vertex_count: usize) -> (out: Vec<
    ComputeFurCardsSourceTriangleGpu,
>)
    ensures
        tris_view(out@) == source_triangles_spec(widen_u16(indices@), vertex_count as nat, indices@.len() / 3),
{
    let ghost wide = widen_u16(indices@);
    let mut out: Vec<ComputeFurCardsSourceTriangleGpu> = Vec::new();
    let n = indices.len() / 3;
    let mut t: usize = 0;
    while t < n
        invariant
            t <= n == indices@.len() / 3,
            indices@.len() == indices.len(),
            wide == widen_u16(indices@),
            tris_view(out@) == source_triangles_spec(wide, vertex_count as nat, t as nat),
        decreases n - t,
    {
        assert(3 * t + 2 < indices@.len());
        let k = 3 * t;
        let i0 = indices[k] as u32;
        let i1 = indices[k + 1] as u32;
        let i2 = indices[k + 2] as u32;
        assert(wide[k as int] == i0 && wide[k + 1] == i1 && wide[k + 2] == i2);
        let ghost before = out@;
        if (i0 as usize) < vertex_count && (i1 as usize) < vertex_count && (i2 as usize) < vertex_count {
            let tri = ComputeFurCardsSourceTriangleGpu { indices: [i0, i1, i2, 0] };
            out.push(tri);
            assert(tri_view(tri) =~= seq![i0, i1, i2, 0u32]);
            assert(tris_view(out@) =~= tris_view(before).push(tri_view(tri)));
        }
        t = t + 1;
    }
    out
}

/// The index width of a mesh's index buffer.
#[derive(Clone, Copy, Debug, PartialEq, Eq, Structural)]
pub enum MeshIndexFormat {
    Uint16,
    Uint32,
}

/// Byte `k` (0 the lowest) of a 16-bit value.
pub open spec fn u16_byte(x: u16, k: int) -> u8 {
    if k == 0 {
        (x & 0xff) as u8
    } else {
        (x >> 8u16) as u8
    }
}

/// Byte `k` (0 the lowest) of a 32-bit value.
pub open spec fn u32_byte(x: u32, k: int) -> u8 {
    if k == 0 {
        (x & 0xff) as u8
    } else if k == 1 {
        ((x >> 8u32) & 0xff) as u8
    } else if k == 2 {
        ((x >> 16u32) & 0xff) as u8
    } else {
        (x >> 24u32) as u8
    }
}

/// The values' bytes one value after another, each lowest byte first.
pub open spec fn u16_le_bytes(values: Seq<u16>) -> Seq<u8> {
    Seq::new(values.len() * 2, |i: int| u16_byte(values[i / 2], i % 2))
}

/// The values' bytes one value after another, each highest byte first.
pub open spec fn u16_be_bytes(values: Seq<u16>) -> Seq<u8> {
    Seq::new(values.len() * 2, |i: int| u16_byte(values[i / 2], 1 - i % 2))
}

/// The values' bytes one value after another, each lowest byte first.
pub open spec fn u32_le_bytes(values: Seq<u32>) -> Seq<u8> {
    Seq::new(values.len() * 4, |i: int| u32_byte(values[i / 4], i % 4))
}

/// The values' bytes one value after another, each highest byte first.
pub open spec fn u32_be_bytes(values: Seq<u32>) -> Seq<u8> {
    Seq::new(values.len() * 4, |i: int| u32_byte(values[i / 4], 3 - i % 4))
}

/// `bytemuck::cast_slice` from `u16` to bytes, copied out: each value's two bytes in the
/// machine's byte order, which is little-endian or big-endian.
#[verifier::external_body]
fn u16_slice_bytes(values: &[u16]) -> (bytes: Vec<u8>)
    ensures
        bytes@ == u16_le_bytes(values@) || bytes@ == u16_be_bytes(values@),
{
    bytemuck::cast_slice::<u16, u8>(values).to_vec()
}

/// `bytemuck::cast_slice` from `u32` to bytes, copied out: each value's four bytes in the
/// machine's byte order, which is little-endian or big-endian.
#[verifier::external_body]
fn u32_slice_bytes(values: &[u32]) -> (bytes: Vec<u8>)
    ensures
        bytes@ == u32_le_bytes(values@) || bytes@ == u32_be_bytes(values@),
{
    bytemuck::cast_slice::<u32, u8>(values).to_vec()
}

/// A mesh's indices in the width its index buffer uses.
#[derive(Debug)]
pub enum SceneMeshIndexUpload {
    U16(Vec<u16>),
    U32(Vec<u32>),
}

/// The indices narrowed to `u16` (each keeps its low 16 bits).
pub open spec fn narrow_u32(indices: Seq<u32>) -> Seq<u16> {
    indices.map_values(|i: u32| i as u16)
}

/// Bytes per index in an index buffer of the given width.
pub open spec fn index_width_bytes(format: MeshIndexFormat) -> nat {
    match format {
        MeshIndexFormat::Uint16 => 2,
        MeshIndexFormat::Uint32 => 4,
    }
}

impl SceneMeshIndexUpload {
    pub open spec fn len_spec(&self) -> nat {
        match self {
            SceneMeshIndexUpload::U16(v) => v@.len(),
            SceneMeshIndexUpload::U32(v) => v@.len(),
        }
    }

    /// The index buffer's size in bytes: two per 16-bit index, four per 32-bit index.
    pub open spec fn buffer_bytes_spec(&self) -> nat {
        match self {
            SceneMeshIndexUpload::U16(v) => v@.len() * 2,
            SceneMeshIndexUpload::U32(v) => v@.len() * 4,
        }
    }

    /// The upload holds `indices` in the given width, each narrowed to its low 16 bits when
    /// the width is 16 bits.
    pub open spec fn holds_indices(&self, format: MeshIndexFormat, indices: Seq<u32>) -> bool {
        match format {
            MeshIndexFormat::Uint32 => self matches SceneMeshIndexUpload::U32(v) && v@ == indices,
            MeshIndexFormat::Uint16 => self matches SceneMeshIndexUpload::U16(v) && v@ == narrow_u32(indices),
        }
    }

    /// The indices in the given width; narrowing to 16 bits keeps each index's low bits.
    pub fn from_indices(format: MeshIndexFormat, indices: Vec<u32>) -> (r: Self)
        ensures
            r.holds_indices(format, indices@),
    {
        match format {
            MeshIndexFormat::Uint32 => SceneMeshIndexUpload::U32(indices),
            MeshIndexFormat::Uint16 => {
                let mut narrow: Vec<u16> = Vec::new();
                let mut k: usize = 0;
                while k < indices.len()
                    invariant
                        k <= indices@.len(),
                        narrow@ == narrow_u32(indices@.take(k as int)),
                    decreases indices.len() - k,
                {
                    narrow.push(indices[k] as u16);
                    assert(narrow_u32(indices@.take(k + 1)) =~= narrow_u32(indices@.take(k as int)).push(
                        indices@[k as int] as u16,
                    ));
                    k = k + 1;
                }
                assert(indices@.take(indices@.len() as int) =~= indices@);
                SceneMeshIndexUpload::U16(narrow)
            },
        }
    }

    pub fn len(&self) -> (n: usize)
        ensures
            n == self.len_spec(),
    {
        match self {
            SceneMeshIndexUpload::U16(v) => v.len(),
            SceneMeshIndexUpload::U32(v) => v.len(),
        }
    }

    /// Size of the index buffer: two bytes per 16-bit index, four per 32-bit index.
    pub fn buffer_bytes(&self) -> (bytes: u64)
        requires
            self.len_spec() * 4 <= usize::MAX,
        ensures
            bytes == self.buffer_bytes_spec(),
    {
        match self {
            SceneMeshIndexUpload::U16(v) => (v.len() * 2) as u64,
            SceneMeshIndexUpload::U32(v) => (v.len() * 4) as u64,
        }
    }

    /// The index buffer's contents: each index's bytes in turn, in the machine's byte order
    /// (all little-endian or all big-endian).
    pub fn index_bytes(&self) -> (bytes: Vec<u8>)
        ensures
            self matches SceneMeshIndexUpload::U16(v) ==> bytes@ == u16_le_bytes(v@) || bytes@ == u16_be_bytes(v@),
            self matches SceneMeshIndexUpload::U32(v) ==> bytes@ == u32_le_bytes(v@) || bytes@ == u32_be_bytes(v@),
    {
        match self {
            SceneMeshIndexUpload::U16(v) => u16_slice_bytes(v.as_slice()),
            SceneMeshIndexUpload::U32(v) => u32_slice_bytes(v.as_slice()),
        }
    }

    /// The in-range source triangles of these indices.
    pub fn source_triangles(&self, vertex_count: usize) -> (out: Vec<ComputeFurCardsSourceTriangleGpu>)
        ensures
            self matches SceneMeshIndexUpload::U16(v) ==> tris_view(out@) == source_triangles_spec(
                widen_u16(v@),
                vertex_count as nat,
                v@.len() / 3,
            ),
            self matches SceneMeshIndexUpload::U32(v) ==> tris_view(out@) == source_triangles_spec(
                v@,
                vertex_count as nat,
                v@.len() / 3,
            ),
    {
        match self {
            SceneMeshIndexUpload::U16(v) => compute_fur_cards_source_triangles_from_indices_u16(v.as_slice(), vertex_count),
            SceneMeshIndexUpload::U32(v) => compute_fur_cards_source_triangles_from_indices(v.as_slice(), vertex_count),
        }
    }
}

/// An upload made from `indices` keeps one index for each of them, and its buffer takes two
/// bytes per index in the 16-bit width and four in the 32-bit width.
pub proof fn lemma_index_upload_size(format: MeshIndexFormat, indices: Seq<u32>, upload: SceneMeshIndexUpload)
    requires
        upload.holds_indices(format, indices),
    ensures
        upload.len_spec() == indices.len(),
        upload.buffer_bytes_spec() == indices.len() * index_width_bytes(format),
{
}

/// Fur samples per strand for lilToon's layer number (1, 2, or 3 and above).
pub open spec fn fur_sample_count_spec(layer: u32) -> u32 {
    if layer == 1 {
        4
    } else if layer == 2 {
        7
    } else {
        13
    }
}

pub fn fur_sample_count_for_layer(layer: u32) -> (n: u32)
    ensures
        n == fur_sample_count_spec(layer),
{
    match layer {
        1 => 4,
        2 => 7,
        _ => 13,
    }
}

/// Segments between the samples of a strand.
pub fn fur_segment_count_for_layer(layer: u32) -> (n: u32)
    ensures
        n == fur_sample_count_spec(layer) - 1,
{
    fur_sample_count_for_layer(layer) - 1
}

/// The bit-reversal network of the van der Corput sequence: swap halves, then bytes,
/// nibbles, pairs and single bits.
pub open spec fn reverse_bits_network(x: u32) -> u32 {
    let a = (x >> 16u32) | (x << 16u32);
    let b = ((a & 0x5555_5555u32) << 1u32) | ((a & 0xaaaa_aaaau32) >> 1u32);
    let c = ((b & 0x3333_3333u32) << 2u32) | ((b & 0xcccc_ccccu32) >> 2u32);
    let d = ((c & 0x0f0f_0f0fu32) << 4u32) | ((c & 0xf0f0_f0f0u32) >> 4u32);
    ((d & 0x00ff_00ffu32) << 8u32) | ((d & 0xff00_ff00u32) >> 8u32)
}

/// The network reverses the bit order: bit `i` of the result is bit `31 - i` of the input.
pub proof fn lemma_reverse_bits_network(x: u32, i: u32)
    requires
        i < 32,
    ensures
        (reverse_bits_network(x) >> i) & 1u32 == (x >> ((31 - i) as u32)) & 1u32,
{
    assert((reverse_bits_network(x) >> i) & 1u32 == (x >> ((31 - i) as u32)) & 1u32) by (bit_vector)
        requires
            i < 32,
    ;
}

/// The bits of `bits` in reverse order (the integer part of the radical inverse).
pub fn compute_fur_cards_radical_inverse_bits(bits: u32) -> (r: u32)
    ensures
        r == reverse_bits_network(bits),
        forall|i: u32| i < 32 ==> (#[trigger] (r >> i) & 1u32) == (bits >> ((31 - i) as u32)) & 1u32,
{
    let mut b = (bits >> 16) | (bits << 16);
    b = ((b & 0x5555_5555) << 1) | ((b & 0xaaaa_aaaa) >> 1);
    b = ((b & 0x3333_3333) << 2) | ((b & 0xcccc_cccc) >> 2);
    b = ((b & 0x0f0f_0f0f) << 4) | ((b & 0xf0f0_f0f0) >> 4);
    b = ((b & 0x00ff_00ff) << 8) | ((b & 0xff00_ff00) >> 8);
    proof {
        assert forall|i: u32| i < 32 implies (#[trigger] (b >> i) & 1u32) == (bits >> ((31 - i) as u32)) & 1u32 by {
            lemma_reverse_bits_network(bits, i);
        }
    }
    b
}

} // verus!
