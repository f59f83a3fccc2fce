use vstd::prelude::*;
use crate::text::{chars_of, occurs_at, occurs_at_exec, push_all, string_from_chars, string_views};

verus! {

/// A message of the model importer; only warnings are reported to the user.
#[derive(Debug)]
pub struct ImportDiagnostic {
    pub is_warning: bool,
    pub text: String,
}

/// A feature the importer dropped or approximated, with an optional detail.
#[derive(Debug)]
pub struct ImportFeatureNote {
    pub feature: String,
    pub detail: Option<String>,
}

/// What the model importer reported.
#[derive(Debug)]
pub struct ImportReportSummary {
    pub diagnostics: Vec<ImportDiagnostic>,
    pub lost_features: Vec<ImportFeatureNote>,
    pub approximations: Vec<ImportFeatureNote>,
}

/// `import warning: TEXT` for each warning, in order.
pub open spec fn warning_lines(ds: Seq<ImportDiagnostic>) -> Seq<Seq<char>>
    decreases ds.len(),
{
    if ds.len() == 0 {
        Seq::empty()
    } else {
        let earlier = warning_lines(ds.drop_last());
        if ds.last().is_warning {
            earlier.push("import warning: "@ + ds.last().text@)
        } else {
            earlier
        }
    }
}

/// `PREFIX FEATURE`, followed by ` (DETAIL)` when the detail is present and not empty.
pub open spec fn note_line(prefix: Seq<char>, n: ImportFeatureNote) -> Seq<char> {
    match n.detail {
        Some(d) => if d@.len() == 0 {
            prefix + n.feature@
        } else {
            prefix + n.feature@ + " ("@ + d@ + ")"@
        },
        None => prefix + n.feature@,
    }
}

pub open spec fn note_lines(prefix: Seq<char>, ns: Seq<ImportFeatureNote>) -> Seq<Seq<char>> {
    ns.map_values(|n: ImportFeatureNote| note_line(prefix, n))
}

/// The report's warnings, lost features and approximations as lines, in that order, keeping
/// at most `sample_limit` of them.
pub open spec fn warning_report_lines(r: ImportReportSummary, sample_limit: nat) -> Seq<Seq<char>> {
    let all = warning_lines(r.diagnostics@) + note_lines("import lost feature: "@, r.lost_features@) + note_lines(
        "import approximation: "@,
        r.approximations@,
    );
    if all.len() <= sample_limit {
        all
    } else {
        all.take(sample_limit as int)
    }
}

fn concat2(a: &str, b: &str) -> (s: String)
    ensures
        s@ == a@ + b@,
{
    let mut chars = chars_of(a);
    push_all(&mut chars, &chars_of(b));
    string_from_chars(&chars)
}

fn feature_note_line(prefix: &str, n: &ImportFeatureNote) -> (s: String)
    ensures
        s@ == note_line(prefix@, *n),
{
    let mut chars = chars_of(prefix);
    push_all(&mut chars, &chars_of(n.feature.as_str()));
    match &n.detail {
        Some(d) => {
            let dc = chars_of(d.as_str());
            if dc.len() > 0 {
                push_all(&mut chars, &chars_of(" ("));
                push_all(&mut chars, &dc);
                push_all(&mut chars, &chars_of(")"));
            }
        },
        None => {},
    }
    string_from_chars(&chars)
}

fn push_note_lines(lines: &mut Vec<String>, prefix: &str, notes: &Vec<ImportFeatureNote>)
    ensures
        string_views(final(lines)@) == string_views(old(lines)@) + note_lines(prefix@, notes@),
{
    let mut k: usize = 0;
    while k < notes.len()
        invariant
            k <= notes@.len(),
            string_views(lines@) == string_views(old(lines)@) + note_lines(prefix@, notes@.take(k as int)),
        decreases notes.len() - k,
    {
        let line = feature_note_line(prefix, &notes[k]);
        let ghost before = lines@;
        lines.push(line);
        proof {
            assert(string_views(lines@) =~= string_views(before).push(line@));
            assert(note_lines(prefix@, notes@.take(k + 1)) =~= note_lines(prefix@, notes@.take(k as int)).push(
                note_line(prefix@, notes@[k as int]),
            ));
        }
        k = k + 1;
    }
    assert(notes@.take(notes@.len() as int) =~= notes@);
}

/// The first `sample_limit` lines of the import report's warnings, lost features and
/// approximations.
pub fn import_report_warning_lines(report: &ImportReportSummary, sample_limit: usize) -> (lines: Vec<String>)
    ensures
        string_views(lines@) == warning_report_lines(*report, sample_limit as nat),
{
    let mut lines: Vec<String> = Vec::new();
    let mut k: usize = 0;
    while k < report.diagnostics.len()
        invariant
            k <= report.diagnostics@.len(),
            string_views(lines@) == warning_lines(report.diagnostics@.take(k as int)),
        decreases report.diagnostics.len() - k,
    {
        let d = &report.diagnostics[k];
        proof {
            assert(report.diagnostics@.take(k + 1).drop_last() =~= report.diagnostics@.take(k as int));
        }
        if d.is_warning {
            let line = concat2("import warning: ", d.text.as_str());
            let ghost before = lines@;
            lines.push(line);
            assert(string_views(lines@) =~= string_views(before).push(line@));
        }
        k = k + 1;
    }
    assert(report.diagnostics@.take(report.diagnostics@.len() as int) =~= report.diagnostics@);
    push_note_lines(&mut lines, "import lost feature: ", &report.lost_features);
    push_note_lines(&mut lines, "import approximation: ", &report.approximations);
    if lines.len() > sample_limit {
        let ghost all = lines@;
        lines.truncate(sample_limit);
        assert(string_views(lines@) =~= string_views(all).take(sample_limit as int));
    }
    lines
}

/// An importer message that reports a profile: it starts with `glTF import profile:`,
/// `glTF scene profile:` or `.unavatar textureAssets:`.
pub open spec fn is_profile_message(m: Seq<char>) -> bool {
    occurs_at(m, "glTF import profile:"@, 0) || occurs_at(m, "glTF scene profile:"@, 0) || occurs_at(
        m,
        ".unavatar textureAssets:"@,
        0,
    )
}

/// The importer's profile messages, in order.
pub fn import_profile_lines(messages: &Vec<String>) -> (lines: Vec<String>)
    ensures
        string_views(lines@) == string_views(messages@).filter(|m: Seq<char>| is_profile_message(m)),
{
    let import_profile = chars_of("glTF import profile:");
    let scene_profile = chars_of("glTF scene profile:");
    let texture_assets = chars_of(".unavatar textureAssets:");
    let ghost all = string_views(messages@);
    let mut lines: Vec<String> = Vec::new();
    let mut k: usize = 0;
    while k < messages.len()
        invariant
            k <= messages@.len(),
            all == string_views(messages@),
            import_profile@ == "glTF import profile:"@,
            scene_profile@ == "glTF scene profile:"@,
            texture_assets@ == ".unavatar textureAssets:"@,
            string_views(lines@) == all.take(k as int).filter(|m: Seq<char>| is_profile_message(m)),
        decreases messages.len() - k,
    {
        proof {
            reveal(Seq::filter);
            assert(all.take(k + 1).drop_last() =~= all.take(k as int));
            assert(all.take(k + 1).last() == messages@[k as int]@);
        }
        let m = chars_of(messages[k].as_str());
        if occurs_at_exec(&m, &import_profile, 0) || occurs_at_exec(&m, &scene_profile, 0) || occurs_at_exec(
            &m,
            &texture_assets,
            0,
        ) {
            let ghost before = lines@;
            lines.push(string_from_chars(&m));
            assert(string_views(lines@) =~= string_views(before).push(m@));
        }
        k = k + 1;
    }
    assert(all.take(all.len() as int) =~= all);
    lines
}

} // verus!
