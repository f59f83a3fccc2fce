use vstd::prelude::*;
use crate::cube_cache::{
    cube_cache_hash_update, cube_write_u32_le, cube_write_u64_le, fnv_fold, layout_tag_spec, le_bytes,
    lemma_fnv_concat, max1, CubeSourceLayout, CUBE_CACHE_FNV64_OFFSET,
};
use crate::text::{
    ascii_lower_seq, chars_of, contains_chars, contains_sub, eq_ignore_ascii_case, eq_ignore_ascii_case_spec,
    lower_ascii_chars, occurs_at,
};
use crate::texture_summary::{TextureRole, TextureUploadKind};

verus! {

/// What the asset loader recorded about where an image came from.
#[derive(Debug)]
pub struct ImageSourceMetadata {
    pub mime_type: Option<String>,
    pub uri: Option<String>,
    pub color_space: Option<String>,
    pub texture_shape: Option<String>,
    pub source_layout: Option<String>,
    pub unity_generate_cubemap: Option<String>,
    pub srgb: Option<bool>,
    pub width: Option<u32>,
    pub height: Option<u32>,
    pub byte_offset: Option<u64>,
    pub byte_length: u64,
    pub source_hash: u64,
    pub has_source_file_path: bool,
    pub has_encoded_bytes: bool,
}

pub open spec fn opt_str_is(o: Option<String>, a: Seq<char>) -> bool {
    o matches Some(v) && eq_ignore_ascii_case_spec(v@, a)
}

/// The source is a cube texture: its shape is `TextureCube` or `Cube`, in any ASCII case.
pub open spec fn source_is_cube_spec(source: Option<&ImageSourceMetadata>) -> bool {
    source matches Some(s) && (opt_str_is(s.texture_shape, "TextureCube"@) || opt_str_is(s.texture_shape, "Cube"@))
}

/// The source holds sRGB colour: its colour space says `srgb` (any ASCII case), or, without a
/// colour space, its sRGB flag is set.
pub open spec fn source_is_srgb_spec(source: Option<&ImageSourceMetadata>) -> bool {
    source matches Some(s) && match s.color_space {
        Some(cs) => eq_ignore_ascii_case_spec(cs@, "srgb"@),
        None => s.srgb == Some(true),
    }
}

/// RGBA data is uploaded without sRGB decoding: normal and occlusion maps, data maps without a
/// source, and sources marked not sRGB or with a `linear` or `data` colour space.
pub open spec fn uses_linear_format_spec(role: TextureRole, source: Option<&ImageSourceMetadata>) -> bool {
    ||| role == TextureRole::Normal
    ||| role == TextureRole::Occlusion
    ||| (role == TextureRole::Data && source is None)
    ||| (source matches Some(s) && (s.srgb == Some(false) || opt_str_is(s.color_space, "linear"@) || opt_str_is(
        s.color_space,
        "data"@,
    )))
}

/// Normal and occlusion maps are data and always upload linear, whatever their source
/// says; without a source, data maps upload linear too and every colour role uploads sRGB;
/// a source marked not sRGB, or with a `linear` or `data` colour space, uploads linear; a
/// colour role whose source has no colour space and is not marked linear uploads sRGB.
pub proof fn lemma_linear_upload_roles(role: TextureRole, source: Option<&ImageSourceMetadata>)
    ensures
        role == TextureRole::Normal || role == TextureRole::Occlusion ==> uses_linear_format_spec(role, source),
        source is None ==> (uses_linear_format_spec(role, source) == (role == TextureRole::Normal || role
            == TextureRole::Occlusion || role == TextureRole::Data)),
        source matches Some(s) && s.srgb == Some(false) ==> uses_linear_format_spec(role, source),
        source matches Some(s) && (opt_str_is(s.color_space, "linear"@) || opt_str_is(s.color_space, "data"@))
            ==> uses_linear_format_spec(role, source),
        source matches Some(s) && s.color_space is None && s.srgb != Some(false) && role != TextureRole::Normal && role
            != TextureRole::Occlusion ==> !uses_linear_format_spec(role, source),
{
}

fn opt_str_eq_ignore_case(o: &Option<String>, a: &str) -> (r: bool)
    ensures
        r == opt_str_is(*o, a@),
{
    match o {
        Some(v) => eq_ignore_ascii_case(v.as_str(), a),
        None => false,
    }
}

pub fn texture_source_is_cube(source: Option<&ImageSourceMetadata>) -> (r: bool)
    ensures
        r == source_is_cube_spec(source),
{
    match source {
        Some(s) => opt_str_eq_ignore_case(&s.texture_shape, "TextureCube") || opt_str_eq_ignore_case(
            &s.texture_shape,
            "Cube",
        ),
        None => false,
    }
}

pub fn texture_source_is_srgb(source: Option<&ImageSourceMetadata>) -> (r: bool)
    ensures
        r == source_is_srgb_spec(source),
{
    match source {
        Some(s) => match &s.color_space {
            Some(cs) => eq_ignore_ascii_case(cs.as_str(), "srgb"),
            None => match s.srgb {
                Some(b) => b,
                None => false,
            },
        },
        None => false,
    }
}

pub fn rgba_upload_uses_linear_format(role: TextureRole, source: Option<&ImageSourceMetadata>) -> (r: bool)
    ensures
        r == uses_linear_format_spec(role, source),
        role == TextureRole::Normal || role == TextureRole::Occlusion ==> r,
        source is None ==> (r == (role == TextureRole::Normal || role == TextureRole::Occlusion || role
            == TextureRole::Data)),
{
    if role == TextureRole::Normal || role == TextureRole::Occlusion {
        return true;
    }
    if role == TextureRole::Data && source.is_none() {
        return true;
    }
    if let Some(s) = source {
        if s.srgb == Some(false) {
            return true;
        }
        if opt_str_eq_ignore_case(&s.color_space, "linear") || opt_str_eq_ignore_case(&s.color_space, "data") {
            return true;
        }
    }
    false
}

/// Encoded bytes can be fetched later: they are held, or a file path, offset and nonzero
/// length locate them.
pub fn source_has_lazy_encoded_bytes(source: &ImageSourceMetadata) -> (r: bool)
    ensures
        r == (source.has_encoded_bytes || (source.has_source_file_path && source.byte_offset is Some
            && source.byte_length > 0)),
{
    source.has_encoded_bytes || (source.has_source_file_path && source.byte_offset.is_some() && source.byte_length > 0)
}

/// An image whose pixels are deferred: no size and no pixels.
pub fn is_deferred_scene_image_placeholder(width: u32, height: u32, pixel_bytes: usize) -> (r: bool)
    ensures
        r == (width == 0 && height == 0 && pixel_bytes == 0),
{
    width == 0 && height == 0 && pixel_bytes == 0
}

pub open spec fn source_dimensions_spec(width: u32, height: u32, source: Option<&ImageSourceMetadata>) -> (u32, u32) {
    if width > 0 && height > 0 {
        (width, height)
    } else if source matches Some(s) && s.width is Some && s.height is Some {
        (source->0.width->0, source->0.height->0)
    } else {
        (max1(width), max1(height))
    }
}

/// The size of an image: its own when it has one, else the size its source recorded, else its
/// own with each side raised to at least 1.
pub fn scene_image_source_dimensions(width: u32, height: u32, source: Option<&ImageSourceMetadata>) -> (dims: (
    u32,
    u32,
))
    ensures
        dims == source_dimensions_spec(width, height, source),
{
    if width > 0 && height > 0 {
        return (width, height);
    }
    if let Some(s) = source {
        if let (Some(w), Some(h)) = (s.width, s.height) {
            return (w, h);
        }
    }
    (if width == 0 { 1 } else { width }, if height == 0 { 1 } else { height })
}

pub open spec fn sat_mul(a: u32, b: u32) -> u32 {
    if a * b > u32::MAX {
        u32::MAX
    } else {
        (a * b) as u32
    }
}

fn saturating_mul_u32(a: u32, b: u32) -> (r: u32)
    ensures
        r == sat_mul(a, b),
{
    match a.checked_mul(b) {
        Some(p) => p,
        None => u32::MAX,
    }
}

pub open spec fn min_u32(a: u32, b: u32) -> u32 {
    if a <= b {
        a
    } else {
        b
    }
}

/// The lowercase layout hint of a source (empty when it has none).
pub open spec fn layout_hint_spec(source: Option<&ImageSourceMetadata>) -> Seq<char> {
    match source {
        Some(s) => match s.source_layout {
            Some(l) => ascii_lower_seq(l@),
            None => Seq::empty(),
        },
        None => Seq::empty(),
    }
}

/// How a cube source is packed and the face size to resample it to, decided by the layout hint
/// first and the aspect ratio second: 2:1 latlong, 1:1 sphere map, 6:1 and 1:6 strips, 4:3 and
/// 3:4 crosses; a `unity_auto` hint falls back to a sphere map. Not a cube source: `None`.
pub open spec fn cube_source_layout_spec(width0: u32, height0: u32, source: Option<&ImageSourceMetadata>) -> Option<
    (CubeSourceLayout, u32),
> {
    if !source_is_cube_spec(source) {
        None
    } else {
        let dims = source_dimensions_spec(width0, height0, source);
        let w = max1(dims.0);
        let h = max1(dims.1);
        let hint = layout_hint_spec(source);
        if contains_sub(hint, "latlong"@) || contains_sub(hint, "cylindrical"@) || w == sat_mul(h, 2) {
            Some((CubeSourceLayout::Latlong, max1(min_u32(w / 4, h / 2))))
        } else if contains_sub(hint, "sphere"@) || w == h {
            Some((CubeSourceLayout::SphereMap, max1(min_u32(w, h))))
        } else if contains_sub(hint, "horizontal_strip"@) || w == sat_mul(h, 6) {
            Some((CubeSourceLayout::HorizontalStrip, max1(h)))
        } else if contains_sub(hint, "vertical_strip"@) || h == sat_mul(w, 6) {
            Some((CubeSourceLayout::VerticalStrip, max1(w)))
        } else if contains_sub(hint, "horizontal_cross"@) || sat_mul(w, 3) == sat_mul(h, 4) {
            Some((CubeSourceLayout::HorizontalCross, max1(min_u32(w / 4, h / 3))))
        } else if contains_sub(hint, "vertical_cross"@) || sat_mul(w, 4) == sat_mul(h, 3) {
            Some((CubeSourceLayout::VerticalCross, max1(min_u32(w / 3, h / 4))))
        } else if contains_sub(hint, "unity_auto"@) {
            Some((CubeSourceLayout::SphereMap, max1(min_u32(w, h))))
        } else {
            None
        }
    }
}

/// The packing of a cube layout decision, without its face size.
pub open spec fn cube_layout_kind(r: Option<(CubeSourceLayout, u32)>) -> Option<CubeSourceLayout> {
    match r {
        Some(p) => Some(p.0),
        None => None,
    }
}

/// A cube source without a layout hint is recognised by its aspect ratio: 2:1 is a latlong
/// panorama, 1:1 a sphere map, 6:1 a horizontal and 1:6 a vertical strip, 4:3 a horizontal and
/// 3:4 a vertical cross; any other ratio is no cube layout (for sizes up to a sixth of the
/// `u32` range, where the saturating ratio tests are exact). A source that is not a cube has
/// no layout at all.
pub proof fn lemma_cube_layout_by_aspect(width0: u32, height0: u32, source: Option<&ImageSourceMetadata>)
    requires
        source matches Some(s) && s.source_layout is None,
    ensures
        ({
            let dims = source_dimensions_spec(width0, height0, source);
            let w = max1(dims.0) as int;
            let h = max1(dims.1) as int;
            let r = cube_source_layout_spec(width0, height0, source);
            &&& !source_is_cube_spec(source) ==> r is None
            &&& source_is_cube_spec(source) && 6 * w <= u32::MAX && 6 * h <= u32::MAX ==> {
                &&& w == 2 * h ==> cube_layout_kind(r) == Some(CubeSourceLayout::Latlong)
                &&& w == h ==> cube_layout_kind(r) == Some(CubeSourceLayout::SphereMap)
                &&& w == 6 * h ==> cube_layout_kind(r) == Some(CubeSourceLayout::HorizontalStrip)
                &&& h == 6 * w ==> cube_layout_kind(r) == Some(CubeSourceLayout::VerticalStrip)
                &&& 3 * w == 4 * h ==> cube_layout_kind(r) == Some(CubeSourceLayout::HorizontalCross)
                &&& 4 * w == 3 * h ==> cube_layout_kind(r) == Some(CubeSourceLayout::VerticalCross)
                &&& w != 2 * h && w != h && w != 6 * h && h != 6 * w && 3 * w
                    != 4 * h && 4 * w != 3 * h ==> r is None
            }
        }),
{
    reveal_strlit("latlong");
    reveal_strlit("cylindrical");
    reveal_strlit("sphere");
    reveal_strlit("horizontal_strip");
    reveal_strlit("vertical_strip");
    reveal_strlit("horizontal_cross");
    reveal_strlit("vertical_cross");
    reveal_strlit("unity_auto");
    let hint = layout_hint_spec(source);
    assert(hint.len() == 0);
    assert forall|needle: Seq<char>| needle.len() > 0 implies !contains_sub(hint, needle) by {
        if contains_sub(hint, needle) {
            let i = choose|i: int| occurs_at(hint, needle, i);
        }
    }
    assert(!contains_sub(hint, "latlong"@));
    assert(!contains_sub(hint, "cylindrical"@));
    assert(!contains_sub(hint, "sphere"@));
    assert(!contains_sub(hint, "horizontal_strip"@));
    assert(!contains_sub(hint, "vertical_strip"@));
    assert(!contains_sub(hint, "horizontal_cross"@));
    assert(!contains_sub(hint, "vertical_cross"@));
    assert(!contains_sub(hint, "unity_auto"@));
    let dims = source_dimensions_spec(width0, height0, source);
    let w = max1(dims.0);
    let h = max1(dims.1);
    if 6 * w <= u32::MAX && 6 * h <= u32::MAX {
        assert(sat_mul(h, 2) == 2 * h);
        assert(sat_mul(h, 6) == 6 * h);
        assert(sat_mul(w, 6) == 6 * w);
        assert(sat_mul(w, 3) == 3 * w);
        assert(sat_mul(h, 4) == 4 * h);
        assert(sat_mul(w, 4) == 4 * w);
        assert(sat_mul(h, 3) == 3 * h);
    }
}

fn hint_contains(hint: &Vec<char>, needle: &str) -> (r: bool)
    ensures
        r == contains_sub(hint@, needle@),
{
    contains_chars(hint, &chars_of(needle))
}

pub fn cube_source_layout(width0: u32, height0: u32, source: Option<&ImageSourceMetadata>) -> (r: Option<(
    CubeSourceLayout,
    u32,
)>)
    ensures
        r == cube_source_layout_spec(width0, height0, source),
{
    if !texture_source_is_cube(source) {
        return None;
    }
    let (w, h) = scene_image_source_dimensions(width0, height0, source);
    let w = if w == 0 { 1 } else { w };
    let h = if h == 0 { 1 } else { h };
    let hint: Vec<char> = match source {
        Some(s) => match &s.source_layout {
            Some(l) => lower_ascii_chars(&chars_of(l.as_str())),
            None => Vec::new(),
        },
        None => Vec::new(),
    };
    proof {
        if hint@.len() == 0 {
            assert(hint@ =~= layout_hint_spec(source));
        }
    }
    assert(hint@ == layout_hint_spec(source));
    if hint_contains(&hint, "latlong") || hint_contains(&hint, "cylindrical") || w == saturating_mul_u32(h, 2) {
        let a = w / 4;
        let b = h / 2;
        let m = if a <= b { a } else { b };
        return Some((CubeSourceLayout::Latlong, if m == 0 { 1 } else { m }));
    }
    if hint_contains(&hint, "sphere") || w == h {
        let m = if w <= h { w } else { h };
        return Some((CubeSourceLayout::SphereMap, if m == 0 { 1 } else { m }));
    }
    if hint_contains(&hint, "horizontal_strip") || w == saturating_mul_u32(h, 6) {
        return Some((CubeSourceLayout::HorizontalStrip, h));
    }
    if hint_contains(&hint, "vertical_strip") || h == saturating_mul_u32(w, 6) {
        return Some((CubeSourceLayout::VerticalStrip, w));
    }
    if hint_contains(&hint, "horizontal_cross") || saturating_mul_u32(w, 3) == saturating_mul_u32(h, 4) {
        let a = w / 4;
        let b = h / 3;
        let m = if a <= b { a } else { b };
        return Some((CubeSourceLayout::HorizontalCross, if m == 0 { 1 } else { m }));
    }
    if hint_contains(&hint, "vertical_cross") || saturating_mul_u32(w, 4) == saturating_mul_u32(h, 3) {
        let a = w / 3;
        let b = h / 4;
        let m = if a <= b { a } else { b };
        return Some((CubeSourceLayout::VerticalCross, if m == 0 { 1 } else { m }));
    }
    if hint_contains(&hint, "unity_auto") {
        let m = if w <= h { w } else { h };
        return Some((CubeSourceLayout::SphereMap, if m == 0 { 1 } else { m }));
    }
    None
}

/// A present string's UTF-8 bytes and a terminating zero; nothing for an absent one.
pub open spec fn opt_key_bytes(o: Option<String>) -> Seq<u8> {
    match o {
        Some(v) => vstd::utf8::encode_utf8(v@) + seq![0u8],
        None => Seq::empty(),
    }
}

/// The fixed-width numbers in a cube key: the format version (1), the image size, the face
/// size, the layout tag and sRGB flag, and the source's length and hash, little-endian.
pub open spec fn cube_key_numbers(
    image_width: u32,
    image_height: u32,
    source: ImageSourceMetadata,
    layout: CubeSourceLayout,
    face_size: u32,
    srgb: bool,
) -> Seq<u8> {
    le_bytes(1, 8) + le_bytes(image_width as nat, 4) + le_bytes(image_height as nat, 4) + le_bytes(face_size as nat, 4)
        + seq![layout_tag_spec(layout)] + seq![if srgb { 1u8 } else { 0u8 }] + le_bytes(source.byte_length as nat, 8)
        + le_bytes(source.source_hash as nat, 8)
}

/// The bytes that identify a converted cube texture: a domain tag, the key numbers, and the
/// source's present mime type, uri, shape, layout and Unity cubemap mode.
pub open spec fn cube_key_material(
    image_width: u32,
    image_height: u32,
    source: ImageSourceMetadata,
    layout: CubeSourceLayout,
    face_size: u32,
    srgb: bool,
) -> Seq<u8> {
    vstd::utf8::encode_utf8("un-avatar-cube-texture-cache"@) + cube_key_numbers(
        image_width,
        image_height,
        source,
        layout,
        face_size,
        srgb,
    ) + opt_key_bytes(source.mime_type) + opt_key_bytes(source.uri) + opt_key_bytes(source.texture_shape)
        + opt_key_bytes(source.source_layout) + opt_key_bytes(source.unity_generate_cubemap)
}

fn cube_key_number_bytes(
    image_width: u32,
    image_height: u32,
    source: &ImageSourceMetadata,
    layout: CubeSourceLayout,
    face_size: u32,
    srgb: bool,
) -> (buf: Vec<u8>)
    ensures
        buf@ == cube_key_numbers(image_width, image_height, *source, layout, face_size, srgb),
{
    let mut buf: Vec<u8> = Vec::new();
    cube_write_u64_le(&mut buf, 1);
    cube_write_u32_le(&mut buf, image_width);
    cube_write_u32_le(&mut buf, image_height);
    cube_write_u32_le(&mut buf, face_size);
    buf.push(layout.cache_tag());
    buf.push(if srgb { 1u8 } else { 0u8 });
    cube_write_u64_le(&mut buf, source.byte_length);
    cube_write_u64_le(&mut buf, source.source_hash);
    assert(buf@ =~= cube_key_numbers(image_width, image_height, *source, layout, face_size, srgb));
    buf
}

fn hash_more(hash: u64, bytes: &[u8], Ghost(acc): Ghost<Seq<u8>>) -> (out: u64)
    requires
        hash == fnv_fold(CUBE_CACHE_FNV64_OFFSET, acc),
    ensures
        out == fnv_fold(CUBE_CACHE_FNV64_OFFSET, acc + bytes@),
{
    proof {
        lemma_fnv_concat(CUBE_CACHE_FNV64_OFFSET, acc, bytes@);
    }
    cube_cache_hash_update(hash, bytes)
}

fn hash_opt_str(hash: u64, o: &Option<String>, Ghost(acc): Ghost<Seq<u8>>) -> (out: u64)
    requires
        hash == fnv_fold(CUBE_CACHE_FNV64_OFFSET, acc),
    ensures
        out == fnv_fold(CUBE_CACHE_FNV64_OFFSET, acc + opt_key_bytes(*o)),
{
    match o {
        Some(v) => {
            let bytes = v.as_str().as_bytes();
            let h = hash_more(hash, bytes, Ghost(acc));
            let zero: [u8; 1] = [0u8];
            let h = hash_more(h, &zero, Ghost(acc + bytes@));
            assert(acc + bytes@ + zero@ =~= acc + opt_key_bytes(*o));
            h
        },
        None => {
            assert(acc + opt_key_bytes(*o) =~= acc);
            hash
        },
    }
}

/// The cache key of a cube converted from `source`: FNV-1a of `cube_key_material`.
pub fn cube_texture_cache_key(
    image_width: u32,
    image_height: u32,
    source: &ImageSourceMetadata,
    layout: CubeSourceLayout,
    face_size: u32,
    srgb: bool,
) -> (key: u64)
    ensures
        key == fnv_fold(
            CUBE_CACHE_FNV64_OFFSET,
            cube_key_material(image_width, image_height, *source, layout, face_size, srgb),
        ),
{
    let ghost mut acc: Seq<u8> = Seq::empty();
    let mut hash = CUBE_CACHE_FNV64_OFFSET;
    let tag = "un-avatar-cube-texture-cache".as_bytes();
    hash = hash_more(hash, tag, Ghost(acc));
    proof {
        acc = acc + tag@;
    }
    let buf = cube_key_number_bytes(image_width, image_height, source, layout, face_size, srgb);
    hash = hash_more(hash, buf.as_slice(), Ghost(acc));
    proof {
        acc = acc + buf@;
    }
    hash = hash_opt_str(hash, &source.mime_type, Ghost(acc));
    proof {
        acc = acc + opt_key_bytes(source.mime_type);
    }
    hash = hash_opt_str(hash, &source.uri, Ghost(acc));
    proof {
        acc = acc + opt_key_bytes(source.uri);
    }
    hash = hash_opt_str(hash, &source.texture_shape, Ghost(acc));
    proof {
        acc = acc + opt_key_bytes(source.texture_shape);
    }
    hash = hash_opt_str(hash, &source.source_layout, Ghost(acc));
    proof {
        acc = acc + opt_key_bytes(source.source_layout);
    }
    hash = hash_opt_str(hash, &source.unity_generate_cubemap, Ghost(acc));
    proof {
        acc = acc + opt_key_bytes(source.unity_generate_cubemap);
    }
    hash
}

/// Where the encoded bytes of a deferred image are to be read from.
#[derive(Clone, Copy, Debug, PartialEq, Eq, Structural)]
pub enum EncodedBytesSource {
    /// The loader kept the encoded bytes.
    InMemory,
    /// `len` bytes of the source file from `offset`.
    FileRange { offset: u64, len: usize },
    /// Nothing to decode from.
    Unavailable,
}

/// The kept bytes when there are some; else the recorded range of the source file, when the
/// file, the offset and a length that fits in `usize` are known.
pub fn encoded_bytes_source(source: &ImageSourceMetadata) -> (r: EncodedBytesSource)
    ensures
        r == if source.has_encoded_bytes {
            EncodedBytesSource::InMemory
        } else if source.has_source_file_path && source.byte_offset is Some && source.byte_length <= usize::MAX {
            EncodedBytesSource::FileRange { offset: source.byte_offset->0, len: source.byte_length as usize }
        } else {
            EncodedBytesSource::Unavailable
        },
{
    if source.has_encoded_bytes {
        return EncodedBytesSource::InMemory;
    }
    if !source.has_source_file_path {
        return EncodedBytesSource::Unavailable;
    }
    match source.byte_offset {
        Some(offset) => if source.byte_length <= usize::MAX as u64 {
            EncodedBytesSource::FileRange { offset, len: source.byte_length as usize }
        } else {
            EncodedBytesSource::Unavailable
        },
        None => EncodedBytesSource::Unavailable,
    }
}

/// An image decoded to 8-bit RGBA, rows top to bottom.
#[derive(Debug)]
pub struct DecodedRgbaImage {
    pub width: u32,
    pub height: u32,
    pub pixels: Vec<u8>,
}

/// `image::load_from_memory` followed by `to_rgba8` and `into_raw`: the format is guessed from
/// the bytes and the image converted to RGBA8. What is stated holds of every outcome: a decoded
/// image's buffer holds at least four bytes for each of its pixels (`ImageBuffer::from_raw`
/// accepts a longer buffer, and a decoder registered through the crate's hooks may report one).
/// Which bytes decode, the size they decode to and the pixel values are left unstated: the
/// format detection and decoding hooks are process-wide tables that any code may extend, and
/// each lookup unwraps a read lock, so a poisoned lock panics here.
#[verifier::external_body]
fn load_rgba8_from_memory(encoded: &[u8]) -> (r: Option<DecodedRgbaImage>)
    ensures
        r matches Some(img) ==> img.pixels@.len() >= 4 * img.width * img.height,
{
    match image::load_from_memory(encoded) {
        Ok(decoded) => {
            let rgba = decoded.to_rgba8();
            let (width, height) = rgba.dimensions();
            Some(DecodedRgbaImage { width, height, pixels: rgba.into_raw() })
        },
        Err(_) => None,
    }
}

/// A decoded image with exactly four bytes per pixel: the width and height are kept and
/// whatever the buffer holds past its last pixel is dropped.
pub fn keep_rgba_pixels(img: DecodedRgbaImage) -> (r: DecodedRgbaImage)
    requires
        img.pixels@.len() >= 4 * img.width * img.height,
    ensures
        r.width == img.width,
        r.height == img.height,
        r.pixels@ == img.pixels@.take(4 * img.width * img.height),
{
    let DecodedRgbaImage { width, height, pixels } = img;
    let mut pixels = pixels;
    let w: usize = width as usize;
    let h: usize = height as usize;
    assert(w * h <= 4 * (w * h)) by (nonlinear_arith);
    assert(4 * (w * h) == 4 * w * h) by (nonlinear_arith);
    let held: usize = pixels.len();
    assert(4 * (w * h) <= held);
    let pixel_bytes: usize = 4 * (w * h);
    pixels.truncate(pixel_bytes);
    DecodedRgbaImage { width, height, pixels }
}

/// Decodes a deferred image's encoded bytes to RGBA8; `None` when they do not decode. The
/// bytes are handed to the decoder unchanged, and a decoded image is passed through
/// `keep_rgba_pixels`.
pub fn decode_encoded_source_image(encoded: &[u8]) -> (r: Option<DecodedRgbaImage>)
    ensures
        r matches Some(img) ==> img.pixels@.len() == 4 * img.width * img.height,
{
    match load_rgba8_from_memory(encoded) {
        Some(img) => Some(keep_rgba_pixels(img)),
        None => None,
    }
}

/// The GPU format a texture upload is created in.
#[derive(Clone, Copy, Debug, PartialEq, Eq, Structural)]
pub enum TextureFormat {
    Rgba8Unorm,
    Rgba8UnormSrgb,
    Bc1RgbaUnormSrgb,
    Bc5RgUnorm,
    Bc7RgbaUnorm,
    Bc7RgbaUnormSrgb,
}

/// The format of an upload: block-compressed kinds keep their own format; plain RGBA is
/// linear or sRGB as `rgba_upload_uses_linear_format` decides.
pub fn payload_texture_format(kind: TextureUploadKind, role: TextureRole, source: Option<&ImageSourceMetadata>) -> (f: TextureFormat)
    ensures
        kind == TextureUploadKind::Rgba && (role == TextureRole::Normal || role == TextureRole::Occlusion) ==> f
            == TextureFormat::Rgba8Unorm,
        f == match kind {
            TextureUploadKind::Rgba => if uses_linear_format_spec(role, source) {
                TextureFormat::Rgba8Unorm
            } else {
                TextureFormat::Rgba8UnormSrgb
            },
            TextureUploadKind::Bc1Srgb => TextureFormat::Bc1RgbaUnormSrgb,
            TextureUploadKind::Bc5Unorm => TextureFormat::Bc5RgUnorm,
            TextureUploadKind::Bc7Unorm => TextureFormat::Bc7RgbaUnorm,
            TextureUploadKind::Bc7Srgb => TextureFormat::Bc7RgbaUnormSrgb,
        },
{
    match kind {
        TextureUploadKind::Rgba => if rgba_upload_uses_linear_format(role, source) {
            TextureFormat::Rgba8Unorm
        } else {
            TextureFormat::Rgba8UnormSrgb
        },
        TextureUploadKind::Bc1Srgb => TextureFormat::Bc1RgbaUnormSrgb,
        TextureUploadKind::Bc5Unorm => TextureFormat::Bc5RgUnorm,
        TextureUploadKind::Bc7Unorm => TextureFormat::Bc7RgbaUnorm,
        TextureUploadKind::Bc7Srgb => TextureFormat::Bc7RgbaUnormSrgb,
    }
}

} // verus!
