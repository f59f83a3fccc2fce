use vstd::prelude::*;
use crate::cube_cache::{hex_digit, hex_digit_exec};
use crate::text::{chars_of, push_all, string_from_chars, string_views};

verus! {

/// The decimal digits of `n`, most significant first (`0` for zero).
pub open spec fn decimal(n: nat) -> Seq<char>
    decreases n,
{
    if n < 10 {
        seq![hex_digit(n)]
    } else {
        decimal(n / 10).push(hex_digit(n % 10))
    }
}

/// Appends the decimal digits of `n`.
pub fn push_decimal(out: &mut Vec<char>, n: usize)
    ensures
        final(out)@ == old(out)@ + decimal(n as nat),
    decreases n,
{
    if n >= 10 {
        push_decimal(out, n / 10);
    }
    let d = hex_digit_exec((n % 10) as u64);
    out.push(d);
}

/// Appends the characters of `s`.
pub fn push_str(out: &mut Vec<char>, s: &str)
    ensures
        final(out)@ == old(out)@ + s@,
{
    let chars = chars_of(s);
    push_all(out, &chars);
}

/// What `{:?}` writes for a list of strings (brackets, quoted and escaped items, `, `
/// between them); the escaping itself is left unstated.
pub uninterp spec fn debug_string_list(items: Seq<Seq<char>>) -> Seq<char>;

/// `format!("{:?}", items)` on a list of strings: its text is a function of the items alone,
/// and `[]` for no items; how each item is quoted and escaped is left unstated.
#[verifier::external_body]
fn debug_list(items: &Vec<String>) -> (text: String)
    ensures
        text@ == debug_string_list(string_views(items@)),
        items@.len() == 0 ==> text@ == "[]"@,
{
    format!("{:?}", items)
}

/// The counts of a wardrobe set application.
#[derive(Debug)]
pub struct WardrobeApplyReport {
    pub active_asset_groups: Vec<String>,
    pub scoped_active_asset_group_count: usize,
    pub scoped_missing_active_asset_groups: Vec<String>,
    pub scoped_resident_mesh_primitive_count: usize,
    pub scoped_resident_material_count: usize,
    pub scoped_resident_image_count: usize,
    pub scoped_resident_dynamics_count: usize,
    pub visibility_applied: usize,
    pub visibility_missing: usize,
    pub blendshape_applied: usize,
    pub blendshape_missing: usize,
    pub dynamics_applied: usize,
    pub dynamics_missing: usize,
    pub material_applied: usize,
    pub material_missing: usize,
    pub material_slot_applied: usize,
    pub material_slot_missing: usize,
    pub missing_visibility_paths: Vec<String>,
    pub missing_blendshapes: Vec<String>,
    pub missing_dynamics_ids: Vec<String>,
    pub missing_materials: Vec<String>,
    pub missing_material_slots: Vec<String>,
}

impl Default for WardrobeApplyReport {
    /// A report of nothing applied and nothing missing.
    fn default() -> (r: Self)
        ensures
            r.active_asset_groups@.len() == 0,
            r.scoped_missing_active_asset_groups@.len() == 0,
            r.missing_visibility_paths@.len() == 0,
            r.missing_blendshapes@.len() == 0,
            r.missing_dynamics_ids@.len() == 0,
            r.missing_materials@.len() == 0,
            r.missing_material_slots@.len() == 0,
            r.scoped_active_asset_group_count == 0,
            r.scoped_resident_mesh_primitive_count == 0,
            r.scoped_resident_material_count == 0,
            r.scoped_resident_image_count == 0,
            r.scoped_resident_dynamics_count == 0,
            r.visibility_applied == 0,
            r.visibility_missing == 0,
            r.blendshape_applied == 0,
            r.blendshape_missing == 0,
            r.dynamics_applied == 0,
            r.dynamics_missing == 0,
            r.material_applied == 0,
            r.material_missing == 0,
            r.material_slot_applied == 0,
            r.material_slot_missing == 0,
    {
        WardrobeApplyReport {
            active_asset_groups: Vec::new(),
            scoped_active_asset_group_count: 0,
            scoped_missing_active_asset_groups: Vec::new(),
            scoped_resident_mesh_primitive_count: 0,
            scoped_resident_material_count: 0,
            scoped_resident_image_count: 0,
            scoped_resident_dynamics_count: 0,
            visibility_applied: 0,
            visibility_missing: 0,
            blendshape_applied: 0,
            blendshape_missing: 0,
            dynamics_applied: 0,
            dynamics_missing: 0,
            material_applied: 0,
            material_missing: 0,
            material_slot_applied: 0,
            material_slot_missing: 0,
            missing_visibility_paths: Vec::new(),
            missing_blendshapes: Vec::new(),
            missing_dynamics_ids: Vec::new(),
            missing_materials: Vec::new(),
            missing_material_slots: Vec::new(),
        }
    }
}

/// The one-line summary of a wardrobe set application, with the two group lists already
/// written out as `active_groups` and `missing_groups`.
pub open spec fn wardrobe_summary(
    set_id: Seq<char>,
    r: WardrobeApplyReport,
    active_groups: Seq<char>,
    missing_groups: Seq<char>,
) -> Seq<char> {
    "un-avatar-renderer: .unavatar wardrobe set `"@ + set_id + "` applied: visibility_applied="@
        + decimal(r.visibility_applied as nat) + " visibility_missing="@ + decimal(r.visibility_missing as nat)
        + " blendshape_applied="@ + decimal(r.blendshape_applied as nat) + " blendshape_missing="@
        + decimal(r.blendshape_missing as nat) + " dynamics_applied="@ + decimal(r.dynamics_applied as nat)
        + " dynamics_missing="@ + decimal(r.dynamics_missing as nat) + " material_applied="@
        + decimal(r.material_applied as nat) + " material_missing="@ + decimal(r.material_missing as nat)
        + " material_slot_applied="@ + decimal(r.material_slot_applied as nat) + " material_slot_missing="@
        + decimal(r.material_slot_missing as nat) + " active_asset_groups="@ + active_groups
        + " scoped_active_groups="@ + decimal(r.scoped_active_asset_group_count as nat)
        + " scoped_missing_groups="@ + missing_groups + " scoped_resident=mesh:"@
        + decimal(r.scoped_resident_mesh_primitive_count as nat) + " material:"@
        + decimal(r.scoped_resident_material_count as nat) + " image:"@
        + decimal(r.scoped_resident_image_count as nat) + " dynamics:"@
        + decimal(r.scoped_resident_dynamics_count as nat)
}

/// The summary line, given the two group lists as they are to be written.
pub fn wardrobe_apply_report_summary_with_groups(
    set_id: &str,
    report: &WardrobeApplyReport,
    active_groups: &str,
    missing_groups: &str,
) -> (line: String)
    ensures
        line@ == wardrobe_summary(set_id@, *report, active_groups@, missing_groups@),
{
    let mut out: Vec<char> = Vec::new();
    push_str(&mut out, "un-avatar-renderer: .unavatar wardrobe set `");
    push_str(&mut out, set_id);
    push_str(&mut out, "` applied: visibility_applied=");
    push_decimal(&mut out, report.visibility_applied);
    push_str(&mut out, " visibility_missing=");
    push_decimal(&mut out, report.visibility_missing);
    push_str(&mut out, " blendshape_applied=");
    push_decimal(&mut out, report.blendshape_applied);
    push_str(&mut out, " blendshape_missing=");
    push_decimal(&mut out, report.blendshape_missing);
    push_str(&mut out, " dynamics_applied=");
    push_decimal(&mut out, report.dynamics_applied);
    push_str(&mut out, " dynamics_missing=");
    push_decimal(&mut out, report.dynamics_missing);
    push_str(&mut out, " material_applied=");
    push_decimal(&mut out, report.material_applied);
    push_str(&mut out, " material_missing=");
    push_decimal(&mut out, report.material_missing);
    push_str(&mut out, " material_slot_applied=");
    push_decimal(&mut out, report.material_slot_applied);
    push_str(&mut out, " material_slot_missing=");
    push_decimal(&mut out, report.material_slot_missing);
    push_str(&mut out, " active_asset_groups=");
    push_str(&mut out, active_groups);
    push_str(&mut out, " scoped_active_groups=");
    push_decimal(&mut out, report.scoped_active_asset_group_count);
    push_str(&mut out, " scoped_missing_groups=");
    push_str(&mut out, missing_groups);
    push_str(&mut out, " scoped_resident=mesh:");
    push_decimal(&mut out, report.scoped_resident_mesh_primitive_count);
    push_str(&mut out, " material:");
    push_decimal(&mut out, report.scoped_resident_material_count);
    push_str(&mut out, " image:");
    push_decimal(&mut out, report.scoped_resident_image_count);
    push_str(&mut out, " dynamics:");
    push_decimal(&mut out, report.scoped_resident_dynamics_count);
    assert(Seq::<char>::empty() + "un-avatar-renderer: .unavatar wardrobe set `"@
        =~= "un-avatar-renderer: .unavatar wardrobe set `"@);
    string_from_chars(&out)
}

/// The summary line logged after a wardrobe set is applied.
pub fn wardrobe_apply_report_summary(set_id: &str, report: &WardrobeApplyReport) -> (line: String)
    ensures
        line@ == wardrobe_summary(
            set_id@,
            *report,
            debug_string_list(string_views(report.active_asset_groups@)),
            debug_string_list(string_views(report.scoped_missing_active_asset_groups@)),
        ),
{
    let active = debug_list(&report.active_asset_groups);
    let missing = debug_list(&report.scoped_missing_active_asset_groups);
    wardrobe_apply_report_summary_with_groups(set_id, report, active.as_str(), missing.as_str())
}

} // verus!
