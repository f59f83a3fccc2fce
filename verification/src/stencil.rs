use vstd::prelude::*;
use crate::draw_batches::{default_stencil_state, DrawPipelineKey, MaterialRenderStateKey, MaterialStencilState};
use crate::shader_features::MeshPipelineAlphaCoverage;
use crate::skin_morph::prefixed_material_name;
use crate::text::chars_of;

verus! {

/// A depth/stencil comparison.
#[derive(Clone, Copy, Debug, PartialEq, Eq, Structural)]
pub enum CompareFunction {
    Never,
    Less,
    Equal,
    LessEqual,
    Greater,
    NotEqual,
    GreaterEqual,
    Always,
}

/// What a stencil test does to the stencil value.
#[derive(Clone, Copy, Debug, PartialEq, Eq, Structural)]
pub enum StencilOperation {
    Keep,
    Zero,
    Replace,
    IncrementClamp,
    DecrementClamp,
    Invert,
    IncrementWrap,
    DecrementWrap,
}

/// Unity's `CompareFunction` numbers: 1 Never, 2 Less, 3 Equal, 4 LessEqual, 5 Greater,
/// 6 NotEqual, 7 GreaterEqual; anything else (8 Always, 0 Disabled) always passes.
pub open spec fn unity_compare_spec(value: u8) -> CompareFunction {
    if value == 1 {
        CompareFunction::Never
    } else if value == 2 {
        CompareFunction::Less
    } else if value == 3 {
        CompareFunction::Equal
    } else if value == 4 {
        CompareFunction::LessEqual
    } else if value == 5 {
        CompareFunction::Greater
    } else if value == 6 {
        CompareFunction::NotEqual
    } else if value == 7 {
        CompareFunction::GreaterEqual
    } else {
        CompareFunction::Always
    }
}

/// Unity's `StencilOp` numbers: 1 Zero, 2 Replace, 3 IncrementSaturate, 4 DecrementSaturate,
/// 5 Invert, 6 IncrementWrap, 7 DecrementWrap; anything else keeps.
pub open spec fn unity_stencil_op_spec(value: u8) -> StencilOperation {
    if value == 1 {
        StencilOperation::Zero
    } else if value == 2 {
        StencilOperation::Replace
    } else if value == 3 {
        StencilOperation::IncrementClamp
    } else if value == 4 {
        StencilOperation::DecrementClamp
    } else if value == 5 {
        StencilOperation::Invert
    } else if value == 6 {
        StencilOperation::IncrementWrap
    } else if value == 7 {
        StencilOperation::DecrementWrap
    } else {
        StencilOperation::Keep
    }
}

pub fn unity_compare_function(value: u8) -> (f: CompareFunction)
    ensures
        f == unity_compare_spec(value),
{
    match value {
        1 => CompareFunction::Never,
        2 => CompareFunction::Less,
        3 => CompareFunction::Equal,
        4 => CompareFunction::LessEqual,
        5 => CompareFunction::Greater,
        6 => CompareFunction::NotEqual,
        7 => CompareFunction::GreaterEqual,
        _ => CompareFunction::Always,
    }
}

pub fn unity_stencil_operation(value: u8) -> (op: StencilOperation)
    ensures
        op == unity_stencil_op_spec(value),
{
    match value {
        1 => StencilOperation::Zero,
        2 => StencilOperation::Replace,
        3 => StencilOperation::IncrementClamp,
        4 => StencilOperation::DecrementClamp,
        5 => StencilOperation::Invert,
        6 => StencilOperation::IncrementWrap,
        7 => StencilOperation::DecrementWrap,
        _ => StencilOperation::Keep,
    }
}

/// The color channels a pipeline writes.
#[derive(Clone, Copy, Debug, PartialEq, Eq, Structural)]
pub struct ColorWrites {
    pub red: bool,
    pub green: bool,
    pub blue: bool,
    pub alpha: bool,
}

/// The channels Unity's `ColorMask` bits select: 1 alpha, 2 blue, 4 green, 8 red.
pub open spec fn unity_color_writes(mask: u8) -> ColorWrites {
    ColorWrites { red: mask & 8 != 0, green: mask & 4 != 0, blue: mask & 2 != 0, alpha: mask & 1 != 0 }
}

/// Unity's `ColorMask` bits: 1 alpha, 2 blue, 4 green, 8 red.
pub fn color_writes_from_unity_mask(mask: u8) -> (w: ColorWrites)
    ensures
        w == unity_color_writes(mask),
        w.alpha == (mask & 1 != 0),
        w.blue == (mask & 2 != 0),
        w.green == (mask & 4 != 0),
        w.red == (mask & 8 != 0),
{
    ColorWrites { red: mask & 0x8 != 0, green: mask & 0x4 != 0, blue: mask & 0x2 != 0, alpha: mask & 0x1 != 0 }
}

/// The stencil test of one face.
#[derive(Clone, Copy, Debug, PartialEq, Eq, Structural)]
pub struct StencilFaceState {
    pub compare: CompareFunction,
    pub fail_op: StencilOperation,
    pub depth_fail_op: StencilOperation,
    pub pass_op: StencilOperation,
}

/// The stencil state of a pipeline: the same test on both faces, and the masks.
#[derive(Clone, Copy, Debug, PartialEq, Eq, Structural)]
pub struct StencilState {
    pub front: StencilFaceState,
    pub back: StencilFaceState,
    pub read_mask: u32,
    pub write_mask: u32,
}

impl MaterialStencilState {
    /// The pipeline stencil state for these Unity settings (both faces alike).
    pub fn to_stencil_state(self) -> (s: StencilState)
        ensures
            s.front == s.back,
            s.front.compare == unity_compare_spec(self.compare),
            s.front.fail_op == unity_stencil_op_spec(self.fail_op),
            s.front.depth_fail_op == unity_stencil_op_spec(self.depth_fail_op),
            s.front.pass_op == unity_stencil_op_spec(self.pass_op),
            s.read_mask == self.read_mask as u32,
            s.write_mask == self.write_mask as u32,
    {
        let face = StencilFaceState {
            compare: unity_compare_function(self.compare),
            fail_op: unity_stencil_operation(self.fail_op),
            depth_fail_op: unity_stencil_operation(self.depth_fail_op),
            pass_op: unity_stencil_operation(self.pass_op),
        };
        StencilState { front: face, back: face, read_mask: self.read_mask as u32, write_mask: self.write_mask as u32 }
    }
}

/// The face a pipeline culls.
#[derive(Clone, Copy, Debug, PartialEq, Eq, Structural)]
pub enum CullFace {
    Front,
    Back,
}

/// Every color channel.
pub open spec fn all_color_writes() -> ColorWrites {
    ColorWrites { red: true, green: true, blue: true, alpha: true }
}

/// The fixed-function state of a mesh pipeline; `B` describes the color blend.
#[derive(Debug)]
pub struct MeshPipelineRenderState<B> {
    pub color_blend: Option<B>,
    pub color_write_mask: ColorWrites,
    pub depth_write: bool,
    pub depth_compare: CompareFunction,
    pub stencil: MaterialStencilState,
    pub cull_mode: Option<CullFace>,
    pub alpha_coverage: MeshPipelineAlphaCoverage,
    pub sample_count: u32,
}

impl<B: Copy> MeshPipelineRenderState<B> {
    /// The main mesh pass: all channels, depth test less-or-equal, default stencil, no culling,
    /// no alpha coverage.
    pub fn mesh_main(color_blend: Option<B>, depth_write: bool, sample_count: u32) -> (s: Self)
        ensures
            s.color_blend == color_blend,
            s.color_write_mask == all_color_writes(),
            s.depth_write == depth_write,
            s.depth_compare == CompareFunction::LessEqual,
            s.stencil == default_stencil_state(),
            s.cull_mode is None,
            s.alpha_coverage == MeshPipelineAlphaCoverage::Off,
            s.sample_count == sample_count,
    {
        MeshPipelineRenderState {
            color_blend,
            color_write_mask: ColorWrites { red: true, green: true, blue: true, alpha: true },
            depth_write,
            depth_compare: CompareFunction::LessEqual,
            stencil: MaterialStencilState::default(),
            cull_mode: None,
            alpha_coverage: MeshPipelineAlphaCoverage::Off,
            sample_count,
        }
    }

    /// The outline pass: no blend, all channels, no depth write, depth test less, default
    /// stencil, front faces culled, no alpha coverage.
    pub fn outline(sample_count: u32) -> (s: Self)
        ensures
            s.color_blend is None,
            s.color_write_mask == all_color_writes(),
            !s.depth_write,
            s.depth_compare == CompareFunction::Less,
            s.stencil == default_stencil_state(),
            s.cull_mode == Some(CullFace::Front),
            s.alpha_coverage == MeshPipelineAlphaCoverage::Off,
            s.sample_count == sample_count,
    {
        MeshPipelineRenderState {
            color_blend: None,
            color_write_mask: ColorWrites { red: true, green: true, blue: true, alpha: true },
            depth_write: false,
            depth_compare: CompareFunction::Less,
            stencil: MaterialStencilState::default(),
            cull_mode: Some(CullFace::Front),
            alpha_coverage: MeshPipelineAlphaCoverage::Off,
            sample_count,
        }
    }

    /// The same state with the given alpha coverage.
    pub fn with_alpha_coverage(self, alpha_coverage: MeshPipelineAlphaCoverage) -> (s: Self)
        ensures
            s == (MeshPipelineRenderState { alpha_coverage, ..self }),
    {
        MeshPipelineRenderState { alpha_coverage, ..self }
    }

    /// The same state with a pipeline key's stencil and color mask.
    pub fn with_material_render_state(self, key: DrawPipelineKey) -> (s: Self)
        ensures
            s == (MeshPipelineRenderState {
                stencil: key.stencil,
                color_write_mask: unity_color_writes(key.color_mask),
                ..self
            }),
    {
        MeshPipelineRenderState { stencil: key.stencil, color_write_mask: color_writes_from_unity_mask(key.color_mask), ..self }
    }

    /// The same state with an outline or fur pass's stencil and color mask.
    pub fn with_material_render_state_key(self, key: MaterialRenderStateKey) -> (s: Self)
        ensures
            s == (MeshPipelineRenderState {
                stencil: key.stencil,
                color_write_mask: unity_color_writes(key.color_mask),
                ..self
            }),
    {
        MeshPipelineRenderState { stencil: key.stencil, color_write_mask: color_writes_from_unity_mask(key.color_mask), ..self }
    }
}

/// The value of the first material parameter named `name` (parameters hold the material's
/// numeric float parameters, rounded and clamped to `0..=255`, in lookup order).
pub open spec fn param_lookup(params: Seq<(String, u8)>, name: Seq<char>) -> Option<u8>
    decreases params.len(),
{
    if params.len() == 0 {
        None
    } else if params[0].0@ == name {
        Some(params[0].1)
    } else {
        param_lookup(params.drop_first(), name)
    }
}

pub open spec fn param_or(params: Seq<(String, u8)>, name: Seq<char>, default_value: u8) -> u8 {
    match param_lookup(params, name) {
        Some(v) => v,
        None => default_value,
    }
}

/// The material's parameter `name`, or `default_value` when it has none.
pub fn material_source_u8_param(params: &Vec<(String, u8)>, name: &str, default_value: u8) -> (v: u8)
    ensures
        v == param_or(params@, name@, default_value),
{
    let mut k: usize = 0;
    assert(params@.skip(0) =~= params@);
    while k < params.len()
        invariant
            k <= params@.len(),
            param_lookup(params@, name@) == param_lookup(params@.skip(k as int), name@),
        decreases params.len() - k,
    {
        assert(params@.skip(k as int).drop_first() =~= params@.skip(k + 1));
        let candidate = chars_of(params[k].0.as_str());
        let wanted = chars_of(name);
        if vec_chars_eq(&candidate, &wanted) {
            return params[k].1;
        }
        k = k + 1;
    }
    default_value
}

fn vec_chars_eq(a: &Vec<char>, b: &Vec<char>) -> (r: bool)
    ensures
        r == (a@ == b@),
{
    if a.len() != b.len() {
        return false;
    }
    let mut k: usize = 0;
    while k < a.len()
        invariant
            k <= a@.len() == b@.len(),
            forall|q: int| 0 <= q < k ==> a@[q] == b@[q],
        decreases a.len() - k,
    {
        if a[k] != b[k] {
            return false;
        }
        k = k + 1;
    }
    assert(a@ =~= b@);
    true
}

/// The parameter `_` + prefix + suffix, or `default_value`.
pub fn material_source_u8_param_prefixed(params: &Vec<(String, u8)>, prefix: &str, suffix: &str, default_value: u8) -> (v: u8)
    ensures
        v == param_or(params@, seq!['_'] + prefix@ + suffix@, default_value),
{
    let name = prefixed_material_name(prefix, suffix);
    material_source_u8_param(params, name.as_str(), default_value)
}

/// The stencil settings a material authors under the prefix (Unity's `_<prefix>Stencil*`
/// parameters), each defaulting to the always-pass, keep, full-mask state.
pub open spec fn stencil_state_from_params(params: Seq<(String, u8)>, prefix: Seq<char>) -> MaterialStencilState {
    MaterialStencilState {
        reference: param_or(params, seq!['_'] + prefix + "StencilRef"@, 0),
        read_mask: param_or(params, seq!['_'] + prefix + "StencilReadMask"@, 255),
        write_mask: param_or(params, seq!['_'] + prefix + "StencilWriteMask"@, 255),
        compare: param_or(params, seq!['_'] + prefix + "StencilComp"@, 8),
        pass_op: param_or(params, seq!['_'] + prefix + "StencilPass"@, 0),
        fail_op: param_or(params, seq!['_'] + prefix + "StencilFail"@, 0),
        depth_fail_op: param_or(params, seq!['_'] + prefix + "StencilZFail"@, 0),
    }
}

pub fn material_stencil_state_prefixed(params: &Vec<(String, u8)>, prefix: &str) -> (s: MaterialStencilState)
    ensures
        s == stencil_state_from_params(params@, prefix@),
{
    MaterialStencilState {
        reference: material_source_u8_param_prefixed(params, prefix, "StencilRef", 0),
        read_mask: material_source_u8_param_prefixed(params, prefix, "StencilReadMask", 255),
        write_mask: material_source_u8_param_prefixed(params, prefix, "StencilWriteMask", 255),
        compare: material_source_u8_param_prefixed(params, prefix, "StencilComp", 8),
        pass_op: material_source_u8_param_prefixed(params, prefix, "StencilPass", 0),
        fail_op: material_source_u8_param_prefixed(params, prefix, "StencilFail", 0),
        depth_fail_op: material_source_u8_param_prefixed(params, prefix, "StencilZFail", 0),
    }
}

/// The material's own stencil settings (`_Stencil*`).
pub fn material_stencil_state(params: &Vec<(String, u8)>) -> (s: MaterialStencilState)
    ensures
        s == stencil_state_from_params(params@, ""@),
{
    material_stencil_state_prefixed(params, "")
}

/// The outline pass's stencil settings (`_OutlineStencil*`).
pub fn material_outline_stencil_state(params: &Vec<(String, u8)>) -> (s: MaterialStencilState)
    ensures
        s == stencil_state_from_params(params@, "Outline"@),
{
    material_stencil_state_prefixed(params, "Outline")
}

/// The fur pass's stencil settings (`_FurStencil*`).
pub fn material_fur_stencil_state(params: &Vec<(String, u8)>) -> (s: MaterialStencilState)
    ensures
        s == stencil_state_from_params(params@, "Fur"@),
{
    material_stencil_state_prefixed(params, "Fur")
}

/// The color mask a material authors under the prefix (`_<prefix>ColorMask`, all channels by
/// default), RGBA bits only.
pub open spec fn color_mask_from_params(params: Seq<(String, u8)>, prefix: Seq<char>) -> u8 {
    param_or(params, seq!['_'] + prefix + "ColorMask"@, 15) & 0x0f
}

/// The material's color mask (`_ColorMask`, all channels by default), RGBA bits only.
pub fn material_color_mask(params: &Vec<(String, u8)>) -> (m: u8)
    ensures
        m == param_or(params@, "_ColorMask"@, 15) & 0x0f,
        m == color_mask_from_params(params@, ""@),
{
    proof {
        reveal_strlit("_ColorMask");
        reveal_strlit("ColorMask");
        reveal_strlit("");
        assert(seq!['_'] + ""@ + "ColorMask"@ =~= "_ColorMask"@);
    }
    material_source_u8_param(params, "_ColorMask", 15) & 0x0f
}

/// The color mask under the prefix (`_<prefix>ColorMask`), RGBA bits only.
pub fn material_color_mask_prefixed(params: &Vec<(String, u8)>, prefix: &str) -> (m: u8)
    ensures
        m == param_or(params@, seq!['_'] + prefix@ + "ColorMask"@, 15) & 0x0f,
        m == color_mask_from_params(params@, prefix@),
{
    material_source_u8_param_prefixed(params, prefix, "ColorMask", 15) & 0x0f
}

pub fn material_outline_color_mask(params: &Vec<(String, u8)>) -> (m: u8)
    ensures
        m == param_or(params@, seq!['_'] + "Outline"@ + "ColorMask"@, 15) & 0x0f,
        m == color_mask_from_params(params@, "Outline"@),
{
    material_color_mask_prefixed(params, "Outline")
}

pub fn material_fur_color_mask(params: &Vec<(String, u8)>) -> (m: u8)
    ensures
        m == param_or(params@, seq!['_'] + "Fur"@ + "ColorMask"@, 15) & 0x0f,
        m == color_mask_from_params(params@, "Fur"@),
{
    material_color_mask_prefixed(params, "Fur")
}


proof fn lemma_param_names_differ(prefix: Seq<char>, a: Seq<char>, b: Seq<char>, k: int)
    requires
        a.len() != b.len() || (0 <= k < a.len() && k < b.len() && a[k] != b[k]),
    ensures
        seq!['_'] + prefix + a != seq!['_'] + prefix + b,
{
    let x = seq!['_'] + prefix + a;
    let y = seq!['_'] + prefix + b;
    if x == y {
        assert(x.len() == y.len());
        assert(x[1 + prefix.len() + k] == a[k]);
        assert(y[1 + prefix.len() + k] == b[k]);
    }
}

proof fn lemma_stencil_param_names_distinct(prefix: Seq<char>)
    ensures
        seq!['_'] + prefix + "StencilRef"@ != seq!['_'] + prefix + "StencilReadMask"@,
        seq!['_'] + prefix + "StencilRef"@ != seq!['_'] + prefix + "StencilWriteMask"@,
        seq!['_'] + prefix + "StencilRef"@ != seq!['_'] + prefix + "StencilComp"@,
        seq!['_'] + prefix + "StencilRef"@ != seq!['_'] + prefix + "StencilPass"@,
        seq!['_'] + prefix + "StencilRef"@ != seq!['_'] + prefix + "StencilFail"@,
        seq!['_'] + prefix + "StencilRef"@ != seq!['_'] + prefix + "StencilZFail"@,
        seq!['_'] + prefix + "StencilReadMask"@ != seq!['_'] + prefix + "StencilWriteMask"@,
        seq!['_'] + prefix + "StencilReadMask"@ != seq!['_'] + prefix + "StencilComp"@,
        seq!['_'] + prefix + "StencilReadMask"@ != seq!['_'] + prefix + "StencilPass"@,
        seq!['_'] + prefix + "StencilReadMask"@ != seq!['_'] + prefix + "StencilFail"@,
        seq!['_'] + prefix + "StencilReadMask"@ != seq!['_'] + prefix + "StencilZFail"@,
        seq!['_'] + prefix + "StencilWriteMask"@ != seq!['_'] + prefix + "StencilComp"@,
        seq!['_'] + prefix + "StencilWriteMask"@ != seq!['_'] + prefix + "StencilPass"@,
        seq!['_'] + prefix + "StencilWriteMask"@ != seq!['_'] + prefix + "StencilFail"@,
        seq!['_'] + prefix + "StencilWriteMask"@ != seq!['_'] + prefix + "StencilZFail"@,
        seq!['_'] + prefix + "StencilComp"@ != seq!['_'] + prefix + "StencilPass"@,
        seq!['_'] + prefix + "StencilComp"@ != seq!['_'] + prefix + "StencilFail"@,
        seq!['_'] + prefix + "StencilComp"@ != seq!['_'] + prefix + "StencilZFail"@,
        seq!['_'] + prefix + "StencilPass"@ != seq!['_'] + prefix + "StencilFail"@,
        seq!['_'] + prefix + "StencilPass"@ != seq!['_'] + prefix + "StencilZFail"@,
        seq!['_'] + prefix + "StencilFail"@ != seq!['_'] + prefix + "StencilZFail"@,
{
    reveal_strlit("StencilRef");
    reveal_strlit("StencilReadMask");
    reveal_strlit("StencilWriteMask");
    reveal_strlit("StencilComp");
    reveal_strlit("StencilPass");
    reveal_strlit("StencilFail");
    reveal_strlit("StencilZFail");
    lemma_param_names_differ(prefix, "StencilRef"@, "StencilReadMask"@, 0);
    lemma_param_names_differ(prefix, "StencilRef"@, "StencilWriteMask"@, 0);
    lemma_param_names_differ(prefix, "StencilRef"@, "StencilComp"@, 0);
    lemma_param_names_differ(prefix, "StencilRef"@, "StencilPass"@, 0);
    lemma_param_names_differ(prefix, "StencilRef"@, "StencilFail"@, 0);
    lemma_param_names_differ(prefix, "StencilRef"@, "StencilZFail"@, 0);
    lemma_param_names_differ(prefix, "StencilReadMask"@, "StencilWriteMask"@, 0);
    lemma_param_names_differ(prefix, "StencilReadMask"@, "StencilComp"@, 0);
    lemma_param_names_differ(prefix, "StencilReadMask"@, "StencilPass"@, 0);
    lemma_param_names_differ(prefix, "StencilReadMask"@, "StencilFail"@, 0);
    lemma_param_names_differ(prefix, "StencilReadMask"@, "StencilZFail"@, 0);
    lemma_param_names_differ(prefix, "StencilWriteMask"@, "StencilComp"@, 0);
    lemma_param_names_differ(prefix, "StencilWriteMask"@, "StencilPass"@, 0);
    lemma_param_names_differ(prefix, "StencilWriteMask"@, "StencilFail"@, 0);
    lemma_param_names_differ(prefix, "StencilWriteMask"@, "StencilZFail"@, 0);
    lemma_param_names_differ(prefix, "StencilComp"@, "StencilPass"@, 7);
    lemma_param_names_differ(prefix, "StencilComp"@, "StencilFail"@, 7);
    lemma_param_names_differ(prefix, "StencilComp"@, "StencilZFail"@, 0);
    lemma_param_names_differ(prefix, "StencilPass"@, "StencilFail"@, 7);
    lemma_param_names_differ(prefix, "StencilPass"@, "StencilZFail"@, 0);
    lemma_param_names_differ(prefix, "StencilFail"@, "StencilZFail"@, 0);
}

/// A parameter put first overrides whatever later entries say under its name.
proof fn lemma_param_lookup_first(entry: (String, u8), params: Seq<(String, u8)>, name: Seq<char>)
    ensures
        param_lookup(seq![entry] + params, name) == if entry.0@ == name {
            Some(entry.1)
        } else {
            param_lookup(params, name)
        },
{
    let all = seq![entry] + params;
    assert(all[0] == entry);
    assert(all.drop_first() =~= params);
}

/// Each field of a stencil state is read from its own Unity parameter: setting
/// `_<prefix>StencilRef`, `ReadMask`, `WriteMask`, `Comp`, `Pass`, `Fail` or `ZFail` sets the
/// reference, read mask, write mask, comparison, pass operation, fail operation or depth-fail
/// operation to that value and leaves every other field as it was; any other parameter
/// leaves the state as it was.
pub proof fn lemma_stencil_param_sets_its_field(params: Seq<(String, u8)>, prefix: Seq<char>, entry: (String, u8))
    ensures
        entry.0@ == seq!['_'] + prefix + "StencilRef"@ ==> stencil_state_from_params(seq![entry] + params, prefix)
            == (MaterialStencilState { reference: entry.1, ..stencil_state_from_params(params, prefix) }),
        entry.0@ == seq!['_'] + prefix + "StencilReadMask"@ ==> stencil_state_from_params(seq![entry] + params, prefix)
            == (MaterialStencilState { read_mask: entry.1, ..stencil_state_from_params(params, prefix) }),
        entry.0@ == seq!['_'] + prefix + "StencilWriteMask"@ ==> stencil_state_from_params(seq![entry] + params, prefix)
            == (MaterialStencilState { write_mask: entry.1, ..stencil_state_from_params(params, prefix) }),
        entry.0@ == seq!['_'] + prefix + "StencilComp"@ ==> stencil_state_from_params(seq![entry] + params, prefix)
            == (MaterialStencilState { compare: entry.1, ..stencil_state_from_params(params, prefix) }),
        entry.0@ == seq!['_'] + prefix + "StencilPass"@ ==> stencil_state_from_params(seq![entry] + params, prefix)
            == (MaterialStencilState { pass_op: entry.1, ..stencil_state_from_params(params, prefix) }),
        entry.0@ == seq!['_'] + prefix + "StencilFail"@ ==> stencil_state_from_params(seq![entry] + params, prefix)
            == (MaterialStencilState { fail_op: entry.1, ..stencil_state_from_params(params, prefix) }),
        entry.0@ == seq!['_'] + prefix + "StencilZFail"@ ==> stencil_state_from_params(seq![entry] + params, prefix)
            == (MaterialStencilState { depth_fail_op: entry.1, ..stencil_state_from_params(params, prefix) }),
        entry.0@ != seq!['_'] + prefix + "StencilRef"@ && entry.0@ != seq!['_'] + prefix + "StencilReadMask"@ && entry.0@ != seq!['_'] + prefix + "StencilWriteMask"@ && entry.0@ != seq!['_'] + prefix + "StencilComp"@ && entry.0@ != seq!['_'] + prefix + "StencilPass"@ && entry.0@ != seq!['_'] + prefix + "StencilFail"@ && entry.0@ != seq!['_'] + prefix + "StencilZFail"@ ==> stencil_state_from_params(seq![entry] + params, prefix) == stencil_state_from_params(params, prefix),
{
    lemma_stencil_param_names_distinct(prefix);
    lemma_param_lookup_first(entry, params, seq!['_'] + prefix + "StencilRef"@);
    lemma_param_lookup_first(entry, params, seq!['_'] + prefix + "StencilReadMask"@);
    lemma_param_lookup_first(entry, params, seq!['_'] + prefix + "StencilWriteMask"@);
    lemma_param_lookup_first(entry, params, seq!['_'] + prefix + "StencilComp"@);
    lemma_param_lookup_first(entry, params, seq!['_'] + prefix + "StencilPass"@);
    lemma_param_lookup_first(entry, params, seq!['_'] + prefix + "StencilFail"@);
    lemma_param_lookup_first(entry, params, seq!['_'] + prefix + "StencilZFail"@);
}


/// A material that sets none of the stencil parameters gets the default stencil state (always
/// pass, keep, full masks), the same state pipelines use without a material.
pub proof fn lemma_no_stencil_params_default(prefix: Seq<char>)
    ensures
        stencil_state_from_params(Seq::empty(), prefix) == default_stencil_state(),
{
}


/// A color mask is read from its own parameter: setting `_<prefix>ColorMask` to `v` gives the
/// RGBA bits of `v`, no stencil parameter changes it, and a material without the parameter
/// writes every channel.
pub proof fn lemma_color_mask_param(params: Seq<(String, u8)>, prefix: Seq<char>, entry: (String, u8))
    ensures
        entry.0@ == seq!['_'] + prefix + "ColorMask"@ ==> color_mask_from_params(seq![entry] + params, prefix) == entry.1
            & 0x0f,
        entry.0@ != seq!['_'] + prefix + "ColorMask"@ ==> color_mask_from_params(seq![entry] + params, prefix)
            == color_mask_from_params(params, prefix),
        color_mask_from_params(Seq::empty(), prefix) == 15,
{
    lemma_param_lookup_first(entry, params, seq!['_'] + prefix + "ColorMask"@);
    assert(15u8 & 0x0f == 15) by (bit_vector);
}

} // verus!
