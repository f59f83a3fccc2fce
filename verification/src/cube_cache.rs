use vstd::prelude::*;
use crate::text::{chars_of, push_all, string_from_chars};

verus! {

/// How the six faces of a cube map are packed into a source image.
#[derive(Clone, Copy, Debug, PartialEq, Eq, Structural)]
pub enum CubeSourceLayout {
    Latlong,
    SphereMap,
    HorizontalStrip,
    VerticalStrip,
    HorizontalCross,
    VerticalCross,
}

pub open spec fn layout_name_spec(layout: CubeSourceLayout) -> Seq<char> {
    match layout {
        CubeSourceLayout::Latlong => "latlong"@,
        CubeSourceLayout::SphereMap => "sphere_map"@,
        CubeSourceLayout::HorizontalStrip => "horizontal_strip"@,
        CubeSourceLayout::VerticalStrip => "vertical_strip"@,
        CubeSourceLayout::HorizontalCross => "horizontal_cross"@,
        CubeSourceLayout::VerticalCross => "vertical_cross"@,
    }
}

/// The byte that stands for a layout in the cube cache file.
pub open spec fn layout_tag_spec(layout: CubeSourceLayout) -> u8 {
    match layout {
        CubeSourceLayout::Latlong => 1,
        CubeSourceLayout::SphereMap => 2,
        CubeSourceLayout::HorizontalStrip => 3,
        CubeSourceLayout::VerticalStrip => 4,
        CubeSourceLayout::HorizontalCross => 5,
        CubeSourceLayout::VerticalCross => 6,
    }
}

/// The layout a cache tag stands for; tags outside `1..=6` stand for none.
pub open spec fn layout_from_tag_spec(tag: u8) -> Option<CubeSourceLayout> {
    if tag == 1 {
        Some(CubeSourceLayout::Latlong)
    } else if tag == 2 {
        Some(CubeSourceLayout::SphereMap)
    } else if tag == 3 {
        Some(CubeSourceLayout::HorizontalStrip)
    } else if tag == 4 {
        Some(CubeSourceLayout::VerticalStrip)
    } else if tag == 5 {
        Some(CubeSourceLayout::HorizontalCross)
    } else if tag == 6 {
        Some(CubeSourceLayout::VerticalCross)
    } else {
        None
    }
}

impl CubeSourceLayout {
    pub fn name(self) -> (name: &'static str)
        ensures
            name@ == layout_name_spec(self),
    {
        match self {
            CubeSourceLayout::Latlong => "latlong",
            CubeSourceLayout::SphereMap => "sphere_map",
            CubeSourceLayout::HorizontalStrip => "horizontal_strip",
            CubeSourceLayout::VerticalStrip => "vertical_strip",
            CubeSourceLayout::HorizontalCross => "horizontal_cross",
            CubeSourceLayout::VerticalCross => "vertical_cross",
        }
    }

    pub fn cache_tag(self) -> (tag: u8)
        ensures
            tag == layout_tag_spec(self),
    {
        match self {
            CubeSourceLayout::Latlong => 1,
            CubeSourceLayout::SphereMap => 2,
            CubeSourceLayout::HorizontalStrip => 3,
            CubeSourceLayout::VerticalStrip => 4,
            CubeSourceLayout::HorizontalCross => 5,
            CubeSourceLayout::VerticalCross => 6,
        }
    }

    pub fn from_cache_tag(tag: u8) -> (layout: Option<CubeSourceLayout>)
        ensures
            layout == layout_from_tag_spec(tag),
    {
        match tag {
            1 => Some(CubeSourceLayout::Latlong),
            2 => Some(CubeSourceLayout::SphereMap),
            3 => Some(CubeSourceLayout::HorizontalStrip),
            4 => Some(CubeSourceLayout::VerticalStrip),
            5 => Some(CubeSourceLayout::HorizontalCross),
            6 => Some(CubeSourceLayout::VerticalCross),
            _ => None,
        }
    }
}

/// Every layout's tag reads back as that layout, and a tag that reads as a layout is that
/// layout's tag: the tag is a bijection between the layouts and `1..=6`.
pub proof fn lemma_layout_tag_roundtrip(layout: CubeSourceLayout, tag: u8)
    ensures
        layout_from_tag_spec(layout_tag_spec(layout)) == Some(layout),
        layout_from_tag_spec(tag) == Some(layout) <==> layout_tag_spec(layout) == tag,
        layout_from_tag_spec(tag) is Some <==> 1 <= tag <= 6,
{
}

pub const CUBE_CACHE_FNV64_OFFSET: u64 = 0xcbf29ce484222325;

pub const CUBE_CACHE_FNV64_PRIME: u64 = 0x100000001b3;

/// One FNV-1a step: xor the byte in, then multiply by the prime modulo 2^64.
pub open spec fn fnv_step(hash: u64, byte: u8) -> u64 {
    (((hash ^ (byte as u64)) as nat * CUBE_CACHE_FNV64_PRIME as nat) % 0x1_0000_0000_0000_0000) as u64
}

/// FNV-1a over a byte sequence, starting from `hash`.
pub open spec fn fnv_fold(hash: u64, bytes: Seq<u8>) -> u64
    decreases bytes.len(),
{
    if bytes.len() == 0 {
        hash
    } else {
        fnv_step(fnv_fold(hash, bytes.drop_last()), bytes.last())
    }
}

/// Feeds `bytes` into an FNV-1a hash.
pub fn cube_cache_hash_update(hash: u64, bytes: &[u8]) -> (out: u64)
    ensures
        out == fnv_fold(hash, bytes@),
{
    let mut h = hash;
    let mut i: usize = 0;
    while i < bytes.len()
        invariant
            i <= bytes@.len(),
            h == fnv_fold(hash, bytes@.take(i as int)),
        decreases bytes.len() - i,
    {
        let b = bytes[i];
        proof {
            assert(bytes@.take(i + 1).drop_last() =~= bytes@.take(i as int));
        }
        h = (h ^ (b as u64)).wrapping_mul(CUBE_CACHE_FNV64_PRIME);
        i = i + 1;
    }
    proof {
        assert(bytes@.take(i as int) =~= bytes@);
    }
    h
}

/// Hashing two byte strings one after the other is hashing their concatenation.
pub proof fn lemma_fnv_concat(hash: u64, a: Seq<u8>, b: Seq<u8>)
    ensures
        fnv_fold(hash, a + b) == fnv_fold(fnv_fold(hash, a), b),
    decreases b.len(),
{
    if b.len() == 0 {
        assert(a + b =~= a);
    } else {
        lemma_fnv_concat(hash, a, b.drop_last());
        assert((a + b).drop_last() =~= a + b.drop_last());
        assert((a + b).last() == b.last());
    }
}

/// The `n` little-endian bytes of `v` (its low `8 * n` bits).
pub open spec fn le_bytes(v: nat, n: nat) -> Seq<u8>
    decreases n,
{
    if n == 0 {
        Seq::empty()
    } else {
        seq![(v % 256) as u8] + le_bytes(v / 256, (n - 1) as nat)
    }
}

/// The number whose little-endian bytes are `s`.
pub open spec fn le_value(s: Seq<u8>) -> nat
    decreases s.len(),
{
    if s.len() == 0 {
        0
    } else {
        s[0] as nat + 256 * le_value(s.drop_first())
    }
}

pub open spec fn byte_range(n: nat) -> nat
    decreases n,
{
    if n == 0 {
        1
    } else {
        256 * byte_range((n - 1) as nat)
    }
}

pub proof fn lemma_le_roundtrip(v: nat, n: nat)
    requires
        v < byte_range(n),
    ensures
        le_value(le_bytes(v, n)) == v,
        le_bytes(v, n).len() == n,
    decreases n,
{
    if n > 0 {
        lemma_le_roundtrip(v / 256, (n - 1) as nat);
        let s = le_bytes(v, n);
        assert(s.drop_first() =~= le_bytes(v / 256, (n - 1) as nat));
    }
}

pub proof fn lemma_le_value_bound(s: Seq<u8>)
    ensures
        le_value(s) < byte_range(s.len()),
    decreases s.len(),
{
    if s.len() > 0 {
        lemma_le_value_bound(s.drop_first());
    }
}

/// Appends the four little-endian bytes of `value`.
pub fn cube_write_u32_le(out: &mut Vec<u8>, value: u32)
    ensures
        final(out)@ == old(out)@ + le_bytes(value as nat, 4),
{
    let mut x = value;
    let mut k: usize = 0;
    proof {
        assert(byte_range(0) == 1);
        assert(out@ + le_bytes(x as nat, 4) == old(out)@ + le_bytes(value as nat, 4));
    }
    while k < 4
        invariant
            k <= 4,
            x as nat == value as nat / byte_range(k as nat),
            byte_range(k as nat) > 0,
            out@ + le_bytes(x as nat, (4 - k) as nat) == old(out)@ + le_bytes(value as nat, 4),
        decreases 4 - k,
    {
        let ghost before = out@;
        out.push((x % 256) as u8);
        proof {
            assert(le_bytes(x as nat, (4 - k) as nat) == seq![(x % 256) as u8] + le_bytes(
                x as nat / 256,
                (4 - k - 1) as nat,
            ));
            assert(out@ + le_bytes(x as nat / 256, (4 - k - 1) as nat) =~= before + le_bytes(
                x as nat,
                (4 - k) as nat,
            ));
            vstd::arithmetic::div_mod::lemma_div_denominator(value as int, byte_range(k as nat) as int, 256);
        }
        x = x / 256;
        k = k + 1;
    }
    proof {
        assert(le_bytes(x as nat, 0) =~= Seq::<u8>::empty());
        assert(out@ =~= out@ + le_bytes(x as nat, 0));
    }
}

/// Appends the eight little-endian bytes of `value`.
pub fn cube_write_u64_le(out: &mut Vec<u8>, value: u64)
    ensures
        final(out)@ == old(out)@ + le_bytes(value as nat, 8),
{
    let mut x = value;
    let mut k: usize = 0;
    proof {
        assert(byte_range(0) == 1);
        assert(out@ + le_bytes(x as nat, 8) == old(out)@ + le_bytes(value as nat, 8));
    }
    while k < 8
        invariant
            k <= 8,
            x as nat == value as nat / byte_range(k as nat),
            byte_range(k as nat) > 0,
            out@ + le_bytes(x as nat, (8 - k) as nat) == old(out)@ + le_bytes(value as nat, 8),
        decreases 8 - k,
    {
        let ghost before = out@;
        out.push((x % 256) as u8);
        proof {
            assert(le_bytes(x as nat, (8 - k) as nat) == seq![(x % 256) as u8] + le_bytes(
                x as nat / 256,
                (8 - k - 1) as nat,
            ));
            assert(out@ + le_bytes(x as nat / 256, (8 - k - 1) as nat) =~= before + le_bytes(
                x as nat,
                (8 - k) as nat,
            ));
            vstd::arithmetic::div_mod::lemma_div_denominator(value as int, byte_range(k as nat) as int, 256);
        }
        x = x / 256;
        k = k + 1;
    }
    proof {
        assert(le_bytes(x as nat, 0) =~= Seq::<u8>::empty());
        assert(out@ =~= out@ + le_bytes(x as nat, 0));
    }
}

/// Reads `n` bytes at `*pos`, advancing past them; `None` (position unchanged) when fewer remain.
pub fn cube_read_exact_array(bytes: &[u8], pos: &mut usize, n: usize) -> (r: Option<Vec<u8>>)
    ensures
        old(pos) + n <= bytes@.len() ==> r is Some && r->0@ == bytes@.subrange(*old(pos) as int, old(pos) + n)
            && *final(pos) == old(pos) + n,
        old(pos) + n > bytes@.len() ==> r is None && *final(pos) == *old(pos),
{
    if *pos > bytes.len() || n > bytes.len() - *pos {
        return None;
    }
    let start = *pos;
    let mut out: Vec<u8> = Vec::new();
    let mut k: usize = 0;
    while k < n
        invariant
            k <= n,
            start + n <= bytes.len(),
            out@ == bytes@.subrange(start as int, start + k),
        decreases n - k,
    {
        out.push(bytes[start + k]);
        assert(bytes@.subrange(start as int, start + k + 1) =~= bytes@.subrange(start as int, start + k).push(
            bytes@[start + k],
        ));
        k = k + 1;
    }
    *pos = start + n;
    Some(out)
}

/// Reads a little-endian `u32` at `*pos`, advancing past it; `None` (position unchanged) when
/// fewer than four bytes remain.
pub fn cube_read_u32_le(bytes: &[u8], pos: &mut usize) -> (r: Option<u32>)
    ensures
        old(pos) + 4 <= bytes@.len() ==> r == Some(le_value(bytes@.subrange(*old(pos) as int, old(pos) + 4)) as u32)
            && *final(pos) == old(pos) + 4,
        old(pos) + 4 > bytes@.len() ==> r is None && *final(pos) == *old(pos),
{
    if *pos > bytes.len() || 4 > bytes.len() - *pos {
        return None;
    }
    let p = *pos;
    let v: u32 = bytes[p] as u32 + (bytes[p + 1] as u32) * 256 + (bytes[p + 2] as u32) * 65536 + (bytes[p + 3] as u32)
        * 16777216;
    proof {
        let s = bytes@.subrange(p as int, p + 4);
        reveal_with_fuel(le_value, 5);
        assert(s.drop_first().drop_first().drop_first().drop_first().len() == 0);
        assert(s[0] == bytes@[p as int] && s[1] == bytes@[p + 1] && s[2] == bytes@[p + 2] && s[3] == bytes@[p + 3]);
        assert(le_value(s) == s[0] + 256 * (s[1] + 256 * (s[2] + 256 * s[3])));
    }
    *pos = p + 4;
    Some(v)
}

/// Reads a little-endian `u64` at `*pos`, advancing past it; `None` (position unchanged) when
/// fewer than eight bytes remain.
pub fn cube_read_u64_le(bytes: &[u8], pos: &mut usize) -> (r: Option<u64>)
    ensures
        old(pos) + 8 <= bytes@.len() ==> r == Some(le_value(bytes@.subrange(*old(pos) as int, old(pos) + 8)) as u64)
            && *final(pos) == old(pos) + 8,
        old(pos) + 8 > bytes@.len() ==> r is None && *final(pos) == *old(pos),
{
    if *pos > bytes.len() || 8 > bytes.len() - *pos {
        return None;
    }
    let p = *pos;
    let lo: u64 = bytes[p] as u64 + (bytes[p + 1] as u64) * 0x100 + (bytes[p + 2] as u64) * 0x1_0000 + (bytes[p
        + 3] as u64) * 0x100_0000;
    let hi: u64 = bytes[p + 4] as u64 + (bytes[p + 5] as u64) * 0x100 + (bytes[p + 6] as u64) * 0x1_0000 + (bytes[p
        + 7] as u64) * 0x100_0000;
    let v: u64 = lo + hi * 0x1_0000_0000;
    proof {
        let s = bytes@.subrange(p as int, p + 8);
        reveal_with_fuel(le_value, 9);
        assert(s.drop_first().drop_first().drop_first().drop_first().drop_first().drop_first().drop_first().drop_first().len()
            == 0);
        assert(le_value(s) == s[0] + 256 * (s[1] + 256 * (s[2] + 256 * (s[3] + 256 * (s[4] + 256 * (s[5] + 256 * (
        s[6] + 256 * s[7])))))));
    }
    *pos = p + 8;
    Some(v)
}

/// One mip level of a cube texture: its face size and the RGBA16F texels of all six faces.
#[derive(Debug)]
pub struct CubeMipUpload {
    pub face_size: u32,
    pub data_rgba16f: Vec<u8>,
}

/// A cube texture ready for upload: its top face size, its mip chain and its layout's name.
#[derive(Debug)]
pub struct CubeUpload {
    pub face_size: u32,
    pub mips: Vec<CubeMipUpload>,
    pub layout: &'static str,
}

pub open spec fn mip_view(m: CubeMipUpload) -> (u32, Seq<u8>) {
    (m.face_size, m.data_rgba16f@)
}

pub open spec fn mips_view(ms: Seq<CubeMipUpload>) -> Seq<(u32, Seq<u8>)> {
    ms.map_values(|m: CubeMipUpload| mip_view(m))
}

pub open spec fn upload_view(u: CubeUpload) -> (u32, Seq<char>, Seq<(u32, Seq<u8>)>) {
    (u.face_size, u.layout@, mips_view(u.mips@))
}

/// `b"UNACUB1\0"`, the first eight bytes of a cube cache file.
pub open spec fn cube_cache_magic() -> Seq<u8> {
    seq![0x55u8, 0x4e, 0x41, 0x43, 0x55, 0x42, 0x31, 0x00]
}

/// One mip record: face size (`u32`), byte length (`u64`), then the bytes.
pub open spec fn encode_mip(m: (u32, Seq<u8>)) -> Seq<u8> {
    le_bytes(m.0 as nat, 4) + le_bytes(m.1.len(), 8) + m.1
}

pub open spec fn encode_mips(ms: Seq<(u32, Seq<u8>)>) -> Seq<u8>
    decreases ms.len(),
{
    if ms.len() == 0 {
        Seq::empty()
    } else {
        encode_mip(ms[0]) + encode_mips(ms.drop_first())
    }
}

/// The cube cache file: magic, key (`u64`), face size (`u32`), layout tag (one byte), mip count
/// (`u32`, the count's low 32 bits), then the mip records; all numbers little-endian.
pub open spec fn encode_cube_cache(key: u64, layout: CubeSourceLayout, face_size: u32, mips: Seq<(u32, Seq<u8>)>) -> Seq<u8> {
    cube_cache_magic() + le_bytes(key as nat, 8) + le_bytes(face_size as nat, 4) + seq![layout_tag_spec(layout)]
        + le_bytes((mips.len() as u32) as nat, 4) + encode_mips(mips)
}

pub open spec fn max1(v: u32) -> u32 {
    if v == 0 {
        1
    } else {
        v
    }
}

/// Parses `count` mip records starting at `pos`. A record is refused when its byte length is
/// not `face * face * 6 * 8` for its face size (raised to at least 1), when that product does
/// not fit in `usize`, or when the bytes run out.
pub open spec fn parse_mips(b: Seq<u8>, pos: int, count: nat) -> Option<Seq<(u32, Seq<u8>)>>
    decreases count,
{
    if count == 0 {
        Some(Seq::empty())
    } else if pos < 0 || pos + 12 > b.len() {
        None
    } else {
        let face = max1(le_value(b.subrange(pos, pos + 4)) as u32);
        let len = (le_value(b.subrange(pos + 4, pos + 12)) as u64) as usize;
        if face * face * 48 > usize::MAX || len != face * face * 48 || pos + 12 + len > b.len() {
            None
        } else {
            match parse_mips(b, pos + 12 + len, (count - 1) as nat) {
                Some(rest) => Some(seq![(face, b.subrange(pos + 12, pos + 12 + len))] + rest),
                None => None,
            }
        }
    }
}

/// What a cube cache file holds for `key`: the face size (raised to at least 1), the layout's
/// name and the mips; `None` for a file with another magic or key, an unknown layout tag, a mip
/// count outside `1..=32`, a refused mip record, or too few bytes. Bytes after the last mip
/// record are ignored.
pub open spec fn parse_cube_cache(b: Seq<u8>, key: u64) -> Option<(u32, Seq<char>, Seq<(u32, Seq<u8>)>)> {
    if b.len() < 25 || b.subrange(0, 8) != cube_cache_magic() || le_value(b.subrange(8, 16)) != key {
        None
    } else {
        let count = le_value(b.subrange(21, 25));
        match layout_from_tag_spec(b[20]) {
            None => None,
            Some(layout) => if count == 0 || count > 32 {
                None
            } else {
                match parse_mips(b, 25, count) {
                    None => None,
                    Some(mips) => Some((max1(le_value(b.subrange(16, 20)) as u32), layout_name_spec(layout), mips)),
                }
            },
        }
    }
}

fn push_bytes(out: &mut Vec<u8>, more: &Vec<u8>)
    ensures
        final(out)@ == old(out)@ + more@,
{
    let mut k: usize = 0;
    while k < more.len()
        invariant
            k <= more.len(),
            out@ == old(out)@ + more@.take(k as int),
        decreases more.len() - k,
    {
        out.push(more[k]);
        assert(more@.take(k + 1) =~= more@.take(k as int).push(more@[k as int]));
        k = k + 1;
    }
    assert(more@.take(more@.len() as int) =~= more@);
}

/// Appends the cube cache file for `upload` under `key` (see `encode_cube_cache`).
pub fn write_cube_texture_cache(out: &mut Vec<u8>, key: u64, layout: CubeSourceLayout, upload: &CubeUpload)
    ensures
        final(out)@ == old(out)@ + encode_cube_cache(key, layout, upload.face_size, mips_view(upload.mips@)),
{
    let ghost mv = mips_view(upload.mips@);
    let ghost start = out@;
    out.push(0x55u8);
    out.push(0x4e);
    out.push(0x41);
    out.push(0x43);
    out.push(0x55);
    out.push(0x42);
    out.push(0x31);
    out.push(0x00);
    assert(out@ =~= start + cube_cache_magic());
    cube_write_u64_le(out, key);
    cube_write_u32_le(out, upload.face_size);
    out.push(layout.cache_tag());
    cube_write_u32_le(out, upload.mips.len() as u32);
    let ghost header = out@;
    assert(header =~= start + (cube_cache_magic() + le_bytes(key as nat, 8) + le_bytes(upload.face_size as nat, 4)
        + seq![layout_tag_spec(layout)] + le_bytes((mv.len() as u32) as nat, 4)));
    let mut i: usize = 0;
    proof {
        assert(mv.skip(0) =~= mv);
    }
    while i < upload.mips.len()
        invariant
            i <= upload.mips@.len(),
            mv == mips_view(upload.mips@),
            out@ + encode_mips(mv.skip(i as int)) == header + encode_mips(mv),
        decreases upload.mips.len() - i,
    {
        let mip = &upload.mips[i];
        let ghost before = out@;
        cube_write_u32_le(out, mip.face_size);
        cube_write_u64_le(out, mip.data_rgba16f.len() as u64);
        push_bytes(out, &mip.data_rgba16f);
        proof {
            assert(mv.skip(i as int)[0] == mip_view(*mip));
            assert(mv.skip(i as int).drop_first() =~= mv.skip(i + 1));
            assert(out@ =~= before + encode_mip(mv[i as int]));
        }
        i = i + 1;
    }
    proof {
        assert(mv.skip(i as int) =~= Seq::<(u32, Seq<u8>)>::empty());
        assert(out@ + encode_mips(mv.skip(i as int)) =~= out@);
    }
}

/// Reads the cube cache file in `bytes` for `key` (see `parse_cube_cache`).
pub fn read_cube_texture_cache(bytes: &[u8], key: u64) -> (r: Option<CubeUpload>)
    ensures
        match r {
            Some(u) => parse_cube_cache(bytes@, key) == Some(upload_view(u)),
            None => parse_cube_cache(bytes@, key) is None,
        },
{
    let b = Ghost(bytes@);
    if bytes.len() < 25 {
        return None;
    }
    let mut pos: usize = 0;
    let magic = match cube_read_exact_array(bytes, &mut pos, 8) {
        Some(m) => m,
        None => return None,
    };
    if magic.len() != 8 || magic[0] != 0x55 || magic[1] != 0x4e || magic[2] != 0x41 || magic[3] != 0x43 || magic[4]
        != 0x55 || magic[5] != 0x42 || magic[6] != 0x31 || magic[7] != 0x00 {
        proof {
            if b@.subrange(0, 8) == cube_cache_magic() {
                assert(magic@ == cube_cache_magic());
            }
        }
        return None;
    }
    assert(b@.subrange(0, 8) =~= cube_cache_magic());
    let stored_key = match cube_read_u64_le(bytes, &mut pos) {
        Some(k) => k,
        None => return None,
    };
    proof {
        lemma_le_value_bound(b@.subrange(8, 16));
        reveal_with_fuel(byte_range, 9);
    }
    if stored_key != key {
        return None;
    }
    let face_size = match cube_read_u32_le(bytes, &mut pos) {
        Some(f) => f,
        None => return None,
    };
    proof {
        lemma_le_value_bound(b@.subrange(16, 20));
        reveal_with_fuel(byte_range, 5);
    }
    let face_size = if face_size == 0 { 1 } else { face_size };
    let tag = bytes[20];
    pos = 21;
    let layout = match CubeSourceLayout::from_cache_tag(tag) {
        Some(l) => l,
        None => return None,
    };
    let count = match cube_read_u32_le(bytes, &mut pos) {
        Some(c) => c,
        None => return None,
    };
    proof {
        lemma_le_value_bound(b@.subrange(21, 25));
    }
    if count == 0 || count > 32 {
        return None;
    }
    let mut mips: Vec<CubeMipUpload> = Vec::new();
    let mut i: u32 = 0;
    assert(parse_cube_cache(b@, key) == match parse_mips(b@, 25, count as nat) {
        None => None,
        Some(ms) => Some((face_size, layout_name_spec(layout), ms)),
    });
    proof {
        assert(mips_view(mips@) =~= Seq::<(u32, Seq<u8>)>::empty());
        assert(parse_mips(b@, 25, count as nat) == match parse_mips(b@, pos as int, (count - i) as nat) {
            Some(rest) => Some(mips_view(mips@) + rest),
            None => None::<Seq<(u32, Seq<u8>)>>,
        }) by {
            match parse_mips(b@, 25, count as nat) {
                Some(rest) => assert(mips_view(mips@) + rest =~= rest),
                None => {},
            }
        }
    }
    while i < count
        invariant
            i <= count <= 32,
            b@ == bytes@,
            pos <= bytes@.len(),
            parse_cube_cache(b@, key) == match parse_mips(b@, 25, count as nat) {
                None => None,
                Some(ms) => Some((face_size, layout_name_spec(layout), ms)),
            },
            parse_mips(b@, 25, count as nat) == match parse_mips(b@, pos as int, (count - i) as nat) {
                Some(rest) => Some(mips_view(mips@) + rest),
                None => None::<Seq<(u32, Seq<u8>)>>,
            },
        decreases count - i,
    {
        let ghost p0 = pos as int;
        let ghost n = (count - i) as nat;
        let mip_face = match cube_read_u32_le(bytes, &mut pos) {
            Some(f) => f,
            None => {
                assert(parse_mips(b@, p0, n) is None);
                return None;
            },
        };
        let len = match cube_read_u64_le(bytes, &mut pos) {
            Some(l) => l,
            None => {
                assert(parse_mips(b@, p0, n) is None);
                return None;
            },
        };
        proof {
            lemma_le_value_bound(b@.subrange(p0, p0 + 4));
            lemma_le_value_bound(b@.subrange(p0 + 4, p0 + 12));
            reveal_with_fuel(byte_range, 9);
        }
        let mip_face = if mip_face == 0 { 1 } else { mip_face };
        let len = len as usize;
        let expected = match (mip_face as usize).checked_mul(mip_face as usize) {
            Some(ff) => match ff.checked_mul(6) {
                Some(ff6) => ff6.checked_mul(8),
                None => None,
            },
            None => None,
        };
        let expected = match expected {
            Some(e) => e,
            None => {
                assert(parse_mips(b@, p0, n) is None);
                return None;
            },
        };
        if len != expected {
            assert(parse_mips(b@, p0, n) is None);
            return None;
        }
        let data = match cube_read_exact_array(bytes, &mut pos, len) {
            Some(d) => d,
            None => {
                assert(parse_mips(b@, p0, n) is None);
                return None;
            },
        };
        let ghost old_view = mips_view(mips@);
        mips.push(CubeMipUpload { face_size: mip_face, data_rgba16f: data });
        proof {
            assert(mips_view(mips@) =~= old_view.push((mip_face, b@.subrange(p0 + 12, p0 + 12 + len))));
            match parse_mips(b@, pos as int, (n - 1) as nat) {
                Some(rest) => {
                    assert(parse_mips(b@, p0, n) == Some(seq![(mip_face, b@.subrange(p0 + 12, p0 + 12 + len))] + rest));
                    assert(old_view + (seq![(mip_face, b@.subrange(p0 + 12, p0 + 12 + len))] + rest) =~= mips_view(mips@)
                        + rest);
                },
                None => {},
            }
        }
        i = i + 1;
    }
    proof {
        assert(mips_view(mips@) + Seq::<(u32, Seq<u8>)>::empty() =~= mips_view(mips@));
    }
    Some(CubeUpload { face_size, mips, layout: layout.name() })
}

/// A mip that the cache can hold: face size at least 1, and exactly the bytes of six
/// RGBA16F faces of that size (a number that fits in `usize`).
pub open spec fn storable_mip(m: (u32, Seq<u8>)) -> bool {
    m.0 >= 1 && m.0 * m.0 * 48 <= usize::MAX && m.1.len() == m.0 * m.0 * 48
}

/// An upload that the cache can hold: face size at least 1 and one to 32 storable mips.
pub open spec fn storable_cube_upload(face_size: u32, mips: Seq<(u32, Seq<u8>)>) -> bool {
    face_size >= 1 && 1 <= mips.len() <= 32 && forall|i: int| 0 <= i < mips.len() ==> storable_mip(#[trigger] mips[i])
}

proof fn lemma_parse_encoded_mips(b: Seq<u8>, pos: int, ms: Seq<(u32, Seq<u8>)>)
    requires
        0 <= pos,
        pos + encode_mips(ms).len() <= b.len(),
        b.subrange(pos, pos + encode_mips(ms).len()) == encode_mips(ms),
        forall|i: int| 0 <= i < ms.len() ==> storable_mip(#[trigger] ms[i]),
    ensures
        parse_mips(b, pos, ms.len()) == Some(ms),
    decreases ms.len(),
{
    if ms.len() == 0 {
        assert(ms =~= Seq::<(u32, Seq<u8>)>::empty());
    } else {
        let m = ms[0];
        assert(storable_mip(ms[0]));
        let len = m.1.len() as int;
        let enc = encode_mips(ms);
        let tail = ms.drop_first();
        let rest = encode_mips(tail);
        reveal_with_fuel(byte_range, 9);
        lemma_le_roundtrip(m.0 as nat, 4);
        lemma_le_roundtrip(len as nat, 8);
        assert(enc == le_bytes(m.0 as nat, 4) + le_bytes(len as nat, 8) + m.1 + rest);
        let whole = b.subrange(pos, pos + enc.len());
        assert(b.subrange(pos, pos + 4) =~= whole.subrange(0, 4));
        assert(whole.subrange(0, 4) =~= le_bytes(m.0 as nat, 4));
        assert(b.subrange(pos + 4, pos + 12) =~= whole.subrange(4, 12));
        assert(whole.subrange(4, 12) =~= le_bytes(len as nat, 8));
        assert(b.subrange(pos + 12, pos + 12 + len) =~= whole.subrange(12, 12 + len));
        assert(whole.subrange(12, 12 + len) =~= m.1);
        assert(b.subrange(pos + 12 + len, pos + 12 + len + rest.len()) =~= whole.subrange(
            12 + len,
            enc.len() as int,
        ));
        assert(whole.subrange(12 + len, enc.len() as int) =~= rest);
        assert forall|i: int| 0 <= i < tail.len() implies storable_mip(#[trigger] tail[i]) by {
            assert(tail[i] == ms[i + 1]);
        }
        lemma_parse_encoded_mips(b, pos + 12 + len, tail);
        assert(le_value(b.subrange(pos, pos + 4)) == m.0);
        assert(max1(m.0) == m.0);
        assert((len as u64) as usize == len);
        assert(seq![(m.0, m.1)] + tail =~= ms);
    }
}

/// What the cache writes for an upload it can hold reads back as that upload, under the same
/// key, and as nothing under any other key.
pub proof fn lemma_cube_cache_roundtrip(
    key: u64,
    other_key: u64,
    layout: CubeSourceLayout,
    face_size: u32,
    mips: Seq<(u32, Seq<u8>)>,
)
    requires
        storable_cube_upload(face_size, mips),
        other_key != key,
    ensures
        parse_cube_cache(encode_cube_cache(key, layout, face_size, mips), key) == Some(
            (face_size, layout_name_spec(layout), mips),
        ),
        parse_cube_cache(encode_cube_cache(key, layout, face_size, mips), other_key) is None,
{
    let b = encode_cube_cache(key, layout, face_size, mips);
    let body = encode_mips(mips);
    reveal_with_fuel(byte_range, 9);
    lemma_le_roundtrip(key as nat, 8);
    lemma_le_roundtrip(face_size as nat, 4);
    lemma_le_roundtrip(mips.len(), 4);
    assert((mips.len() as u32) as nat == mips.len());
    assert(b.subrange(0, 8) =~= cube_cache_magic());
    assert(b.subrange(8, 16) =~= le_bytes(key as nat, 8));
    assert(b.subrange(16, 20) =~= le_bytes(face_size as nat, 4));
    assert(b[20] == layout_tag_spec(layout));
    assert(b.subrange(21, 25) =~= le_bytes(mips.len(), 4));
    assert(b.subrange(25, 25 + body.len() as int) =~= body);
    lemma_parse_encoded_mips(b, 25, mips);
}

/// The bytes of a cube mip chain from face size `size` down to 1, halving each level.
pub open spec fn cube_mip_bytes_sum(size: nat) -> nat
    decreases size,
{
    size * size * 48 + if size <= 1 {
        0
    } else {
        cube_mip_bytes_sum(size / 2)
    }
}

/// The bytes of the full RGBA16F mip chain of a cube of face `face_size` (at least 1),
/// saturating at `u64::MAX`.
pub fn estimated_cube_upload_mip_bytes(face_size: u32) -> (total: u64)
    requires
        max1(face_size) * max1(face_size) * 48 <= u64::MAX,
    ensures
        total == (if cube_mip_bytes_sum(max1(face_size) as nat) > u64::MAX {
            u64::MAX as nat
        } else {
            cube_mip_bytes_sum(max1(face_size) as nat)
        }),
{
    let mut total: u64 = 0;
    let mut size: u32 = if face_size == 0 { 1 } else { face_size };
    let ghost start = size as nat;
    let ghost mut acc: nat = 0;
    loop
        invariant_except_break
            1 <= size <= start,
            start == max1(face_size),
            start * start * 48 <= u64::MAX,
            total == (if acc > u64::MAX { u64::MAX as nat } else { acc }),
            acc + cube_mip_bytes_sum(size as nat) == cube_mip_bytes_sum(start),
        ensures
            total == (if cube_mip_bytes_sum(start) > u64::MAX { u64::MAX as nat } else { cube_mip_bytes_sum(start) }),
        decreases size,
    {
        assert(size * size * 48 <= start * start * 48) by (nonlinear_arith)
            requires
                1 <= size <= start,
        ;
        let term: u64 = size as u64 * size as u64 * 6 * 8;
        total = total.saturating_add(term);
        proof {
            acc = acc + term as nat;
        }
        if size <= 1 {
            break;
        }
        size = size / 2;
    }
    total
}

pub open spec fn hex_digit(d: nat) -> char {
    if d < 10 {
        (('0' as nat) + d) as char
    } else {
        (('a' as nat) + d - 10) as char
    }
}

/// The last `n` lowercase hexadecimal digits of `v`, most significant first.
pub open spec fn hex_digits(v: nat, n: nat) -> Seq<char>
    decreases n,
{
    if n == 0 {
        Seq::empty()
    } else {
        hex_digits(v / 16, (n - 1) as nat).push(hex_digit(v % 16))
    }
}

pub(crate) fn hex_digit_exec(d: u64) -> (c: char)
    requires
        d < 16,
    ensures
        c == hex_digit(d as nat),
{
    let chars = ['0', '1', '2', '3', '4', '5', '6', '7', '8', '9', 'a', 'b', 'c', 'd', 'e', 'f'];
    proof {
        assert(hex_digit(0) == '0');
        assert(hex_digit(1) == '1');
        assert(hex_digit(2) == '2');
        assert(hex_digit(3) == '3');
        assert(hex_digit(4) == '4');
        assert(hex_digit(5) == '5');
        assert(hex_digit(6) == '6');
        assert(hex_digit(7) == '7');
        assert(hex_digit(8) == '8');
        assert(hex_digit(9) == '9');
        assert(hex_digit(10) == 'a');
        assert(hex_digit(11) == 'b');
        assert(hex_digit(12) == 'c');
        assert(hex_digit(13) == 'd');
        assert(hex_digit(14) == 'e');
        assert(hex_digit(15) == 'f');
    }
    chars[d as usize]
}

fn push_hex_digits(out: &mut Vec<char>, v: u64, n: usize)
    ensures
        final(out)@ == old(out)@ + hex_digits(v as nat, n as nat),
    decreases n,
{
    if n > 0 {
        push_hex_digits(out, v / 16, n - 1);
        out.push(hex_digit_exec(v % 16));
        assert(hex_digits(v as nat, n as nat) == hex_digits((v / 16) as nat, (n - 1) as nat).push(hex_digit((v % 16) as nat)));
    } else {
        assert(old(out)@ + hex_digits(v as nat, 0) =~= old(out)@);
    }
}

/// The cache file name for a key: its sixteen lowercase hex digits, then `.ucube`.
pub fn cube_texture_cache_file_name(key: u64) -> (name: String)
    ensures
        name@ == hex_digits(key as nat, 16) + ".ucube"@,
{
    let mut chars: Vec<char> = Vec::new();
    push_hex_digits(&mut chars, key, 16);
    let suffix = chars_of(".ucube");
    push_all(&mut chars, &suffix);
    assert(chars@ =~= hex_digits(key as nat, 16) + ".ucube"@);
    string_from_chars(&chars)
}

/// `name` joined to the directory `dir` with `/` (no separator is added after an empty
/// directory or one that already ends in `/`).
pub open spec fn join_path(dir: Seq<char>, name: Seq<char>) -> Seq<char> {
    if dir.len() == 0 || dir.last() == '/' {
        dir + name
    } else {
        dir + seq!['/'] + name
    }
}

/// Where the cache file for `key` lives in the cache directory, when there is one.
pub fn cube_texture_cache_path(cache_dir: Option<&str>, key: u64) -> (path: Option<String>)
    ensures
        match cache_dir {
            None => path is None,
            Some(dir) => path is Some && path->0@ == join_path(dir@, hex_digits(key as nat, 16) + ".ucube"@),
        },
{
    match cache_dir {
        None => None,
        Some(dir) => {
            let mut chars = chars_of(dir);
            let n = chars.len();
            if n > 0 && chars[n - 1] != '/' {
                chars.push('/');
            }
            let name = cube_texture_cache_file_name(key);
            let name_chars = chars_of(name.as_str());
            let ghost d = chars@;
            push_all(&mut chars, &name_chars);
            proof {
                if dir@.len() == 0 || dir@.last() == '/' {
                    assert(chars@ =~= dir@ + name@);
                } else {
                    assert(chars@ =~= dir@ + seq!['/'] + name@);
                }
            }
            Some(string_from_chars(&chars))
        },
    }
}

/// The face sizes of a cube mip chain: from `size` halving down to 1.
pub open spec fn mip_chain(size: nat) -> Seq<nat>
    decreases size,
{
    if size <= 1 {
        seq![size]
    } else {
        seq![size] + mip_chain(size / 2)
    }
}

/// The face sizes of the mip chain of a cube of face `face_size` (raised to at least 1).
pub fn cube_mip_face_sizes(face_size: u32) -> (sizes: Vec<u32>)
    ensures
        sizes@.map_values(|s: u32| s as nat) == mip_chain(max1(face_size) as nat),
{
    let mut sizes: Vec<u32> = Vec::new();
    let mut size: u32 = if face_size == 0 { 1 } else { face_size };
    let ghost start = size as nat;
    loop
        invariant_except_break
            size >= 1,
            start == max1(face_size),
            sizes@.map_values(|s: u32| s as nat) + mip_chain(size as nat) == mip_chain(start),
        ensures
            sizes@.map_values(|s: u32| s as nat) == mip_chain(start),
        decreases size,
    {
        let ghost before = sizes@;
        sizes.push(size);
        proof {
            assert(sizes@.map_values(|s: u32| s as nat) =~= before.map_values(|s: u32| s as nat).push(size as nat));
        }
        if size <= 1 {
            proof {
                assert(mip_chain(size as nat) == seq![size as nat]);
                assert(before.map_values(|s: u32| s as nat) + seq![size as nat] =~= sizes@.map_values(|s: u32| s as nat));
            }
            break;
        }
        proof {
            assert(mip_chain(size as nat) == seq![size as nat] + mip_chain((size / 2) as nat));
            assert(sizes@.map_values(|s: u32| s as nat) + mip_chain((size / 2) as nat) =~= before.map_values(
                |s: u32| s as nat,
            ) + mip_chain(size as nat));
        }
        size = size / 2;
    }
    sizes
}

/// The texel of the source face that a 2x downsample reads for output texel (x, y) and tap
/// (ox, oy): twice the output position plus the tap, clamped to the face's last row and column.
pub open spec fn downsample_tap_spec(face: nat, x: nat, y: nat, ox: nat, oy: nat, source_size: nat) -> nat {
    let last = (source_size - 1) as nat;
    let sx = if 2 * x <= last { 2 * x } else { last };
    let sy = if 2 * y <= last { 2 * y } else { last };
    let px = if sx + ox <= last { sx + ox } else { last };
    let py = if sy + oy <= last { sy + oy } else { last };
    face * source_size * source_size + py * source_size + px
}

/// The index of a downsample tap in the six-face texel list; it always lies inside its face.
pub fn cube_downsample_tap(face: usize, x: usize, y: usize, ox: usize, oy: usize, source_size: usize) -> (i: usize)
    requires
        face < 6,
        source_size >= 1,
        6 * source_size * source_size <= usize::MAX,
        x <= usize::MAX / 4,
        y <= usize::MAX / 4,
        ox <= 1,
        oy <= 1,
    ensures
        i == downsample_tap_spec(face as nat, x as nat, y as nat, ox as nat, oy as nat, source_size as nat),
        face * source_size * source_size <= i < (face + 1) * source_size * source_size,
{
    let last = source_size - 1;
    let sx = if x * 2 <= last { x * 2 } else { last };
    let sy = if y * 2 <= last { y * 2 } else { last };
    let px = if sx + ox <= last { sx + ox } else { last };
    let py = if sy + oy <= last { sy + oy } else { last };
    assert(source_size * source_size <= 6 * source_size * source_size) by (nonlinear_arith);
    let ss = source_size * source_size;
    proof {
        assert(6 * ss <= usize::MAX) by (nonlinear_arith)
            requires
                6 * source_size * source_size <= usize::MAX,
                ss == source_size * source_size,
        ;
        assert(py * source_size + px < ss) by (nonlinear_arith)
            requires
                py < source_size,
                px < source_size,
                ss == source_size * source_size,
        ;
        assert(face * ss + ss <= 6 * ss) by (nonlinear_arith)
            requires
                face < 6,
        ;
        assert(face * ss == face * source_size * source_size) by (nonlinear_arith)
            requires
                ss == source_size * source_size,
        ;
        assert((face + 1) * source_size * source_size == face * ss + ss) by (nonlinear_arith)
            requires
                ss == source_size * source_size,
        ;
    }
    face * ss + py * source_size + px
}

} // verus!
