use vstd::prelude::*;
use crate::text::{chars_of, occurs_at, occurs_at_exec, push_all, string_from_chars, string_views, trim_by, whitespace_pred};
use crate::wardrobe::{stable_identifier, stable_identifier_spec, trim_str};

verus! {

/// The runtime action id of an expression preset.
pub open spec fn expression_action_id(preset_name: Seq<char>) -> Seq<char> {
    "expression:"@ + stable_identifier_spec(preset_name)
}

/// Some requested action id, trimmed, starts with `expression:`.
pub open spec fn any_expression_id(requested: Seq<Seq<char>>) -> bool {
    exists|k: int| 0 <= k < requested.len() && occurs_at(trim_by(#[trigger] requested[k], whitespace_pred()), "expression:"@, 0)
}

/// `id` is one of the requested action ids, trimmed.
pub open spec fn id_requested(requested: Seq<Seq<char>>, id: Seq<char>) -> bool {
    exists|k: int| 0 <= k < requested.len() && trim_by(#[trigger] requested[k], whitespace_pred()) == id
}

/// `k` is the first position of `id` in `ids`.
pub open spec fn is_first_index(ids: Seq<Seq<char>>, id: Seq<char>, k: int) -> bool {
    0 <= k < ids.len() && ids[k] == id && forall|j: int| 0 <= j < k ==> ids[j] != id
}

/// The first position of `id` in `ids`, or -1.
pub open spec fn first_index_of(ids: Seq<Seq<char>>, id: Seq<char>) -> int {
    if exists|k: int| is_first_index(ids, id, k) {
        choose|k: int| is_first_index(ids, id, k)
    } else {
        -1
    }
}

/// One step of the plan: the preset, its action id, the position of the action it sets,
/// and whether that action is added by this step.
pub struct ExpressionActionStep {
    pub preset_index: usize,
    pub id: String,
    pub action_index: usize,
    pub is_new: bool,
    /// `Expression / <name>`, the label of an added action.
    pub label: String,
    /// `Expressions/<name>`, the menu path that runs an added action.
    pub menu_path: String,
}

/// The label and menu path of each step are those of its preset.
pub open spec fn steps_named(steps: Seq<ExpressionActionStep>, names: Seq<Seq<char>>) -> bool {
    forall|k: int|
        0 <= k < steps.len() ==> {
            &&& (#[trigger] steps[k]).preset_index < names.len()
            &&& steps[k].label@ == "Expression / "@ + names[steps[k].preset_index as int]
            &&& steps[k].menu_path@ == "Expressions/"@ + names[steps[k].preset_index as int]
        }
}

pub open spec fn step_view(s: ExpressionActionStep) -> (int, Seq<char>, int, bool) {
    (s.preset_index as int, s.id@, s.action_index as int, s.is_new)
}

/// The steps for the first presets and the action ids after them: a preset whose id is
/// requested sets the weight of the first action with that id, or appends a new action.
pub open spec fn plan_spec(names: Seq<Seq<char>>, requested: Seq<Seq<char>>, ids: Seq<Seq<char>>) -> (
    Seq<(int, Seq<char>, int, bool)>,
    Seq<Seq<char>>,
)
    decreases names.len(),
{
    if names.len() == 0 {
        (Seq::empty(), ids)
    } else {
        let (steps, cur) = plan_spec(names.drop_last(), requested, ids);
        let p = names.len() - 1;
        let id = expression_action_id(names.last());
        if !id_requested(requested, id) {
            (steps, cur)
        } else if first_index_of(cur, id) >= 0 {
            (steps.push((p, id, first_index_of(cur, id), false)), cur)
        } else {
            (steps.push((p, id, cur.len() as int, true)), cur.push(id))
        }
    }
}

/// What happens to a document's runtime actions when expression actions are enabled.
pub struct ExpressionActionPlan {
    /// The runtime actions are taken out and put back (only when some action of the list
    /// remains): there is a catalog and some requested id is an expression id.
    pub rebuilds_actions: bool,
    pub steps: Vec<ExpressionActionStep>,
}

proof fn lemma_first_index(ids: Seq<Seq<char>>, id: Seq<char>, k: int)
    requires
        is_first_index(ids, id, k),
    ensures
        first_index_of(ids, id) == k,
{
    let c = choose|c: int| is_first_index(ids, id, c);
    if c < k {
        assert(ids[c] != id);
    } else if k < c {
        assert(ids[k] != id);
    }
}

fn find_action(ids: &Vec<String>, id: &String) -> (r: Option<usize>)
    ensures
        match r {
            Some(k) => is_first_index(string_views(ids@), id@, k as int),
            None => first_index_of(string_views(ids@), id@) == -1,
        },
{
    let ghost v = string_views(ids@);
    let mut k: usize = 0;
    while k < ids.len()
        invariant
            k <= ids@.len(),
            v == string_views(ids@),
            forall|j: int| 0 <= j < k ==> v[j] != id@,
        decreases ids.len() - k,
    {
        if ids[k].eq(id) {
            assert(is_first_index(v, id@, k as int));
            return Some(k);
        }
        k = k + 1;
    }
    assert(!exists|c: int| is_first_index(v, id@, c));
    None
}

fn requests_id(trimmed: &Vec<String>, id: &String) -> (r: bool)
    ensures
        r == exists|k: int| 0 <= k < trimmed@.len() && (#[trigger] trimmed@[k])@ == id@,
{
    let mut k: usize = 0;
    while k < trimmed.len()
        invariant
            k <= trimmed@.len(),
            forall|j: int| 0 <= j < k ==> (#[trigger] trimmed@[j])@ != id@,
        decreases trimmed.len() - k,
    {
        if trimmed[k].eq(id) {
            return true;
        }
        k = k + 1;
    }
    false
}

/// Plans how enabled expression actions enter a document's runtime actions: with a preset
/// catalog and at least one requested id (trimmed) that starts with `expression:`, each preset
/// whose id `expression:<stable identifier>` is requested either updates the first existing
/// action with that id or appends a new one (labelled `Expression / <name>`, run by the
/// supervisor command of its id and the menu path `Expressions/<name>`).
pub fn plan_expression_runtime_actions(
    preset_names: Option<&Vec<String>>,
    requested_ids: &Vec<String>,
    action_ids: &Vec<String>,
) -> (plan: ExpressionActionPlan)
    ensures
        plan.rebuilds_actions == (preset_names is Some && any_expression_id(string_views(requested_ids@))),
        !plan.rebuilds_actions ==> plan.steps@.len() == 0,
        plan.rebuilds_actions ==> plan.steps@.map_values(|s: ExpressionActionStep| step_view(s)) == plan_spec(
            string_views(preset_names->0@),
            string_views(requested_ids@),
            string_views(action_ids@),
        ).0,
        plan.rebuilds_actions ==> steps_named(plan.steps@, string_views(preset_names->0@)),
{
    let names = match preset_names {
        Some(n) => n,
        None => {
            return ExpressionActionPlan { rebuilds_actions: false, steps: Vec::new() };
        },
    };
    let prefix = chars_of("expression:");
    let ghost req = string_views(requested_ids@);
    let mut trimmed: Vec<String> = Vec::new();
    let mut any = false;
    let mut k: usize = 0;
    while k < requested_ids.len()
        invariant
            k <= requested_ids@.len(),
            req == string_views(requested_ids@),
            prefix@ == "expression:"@,
            trimmed@.len() == k,
            forall|j: int| 0 <= j < k ==> (#[trigger] trimmed@[j])@ == trim_by(req[j], whitespace_pred()),
            any == exists|j: int| 0 <= j < k && occurs_at(trim_by(#[trigger] req[j], whitespace_pred()), "expression:"@, 0),
        decreases requested_ids.len() - k,
    {
        let t = trim_str(requested_ids[k].as_str());
        let t_chars = chars_of(t.as_str());
        assert(req[k as int] == requested_ids@[k as int]@);
        if occurs_at_exec(&t_chars, &prefix, 0) {
            assert(occurs_at(trim_by(req[k as int], whitespace_pred()), "expression:"@, 0));
            any = true;
        }
        trimmed.push(t);
        assert(trimmed@[k as int]@ == trim_by(req[k as int], whitespace_pred()));
        k = k + 1;
    }
    if !any {
        return ExpressionActionPlan { rebuilds_actions: false, steps: Vec::new() };
    }
    let ghost nv = string_views(names@);
    let ghost iv = string_views(action_ids@);
    let mut cur: Vec<String> = Vec::new();
    let mut c: usize = 0;
    while c < action_ids.len()
        invariant
            c <= action_ids@.len(),
            iv == string_views(action_ids@),
            string_views(cur@) == iv.take(c as int),
        decreases action_ids.len() - c,
    {
        let a = action_ids[c].clone();
        assert(a@ == iv[c as int]);
        let ghost before = cur@;
        cur.push(a);
        assert(string_views(cur@) =~= string_views(before).push(iv[c as int]));
        assert(iv.take(c + 1) =~= iv.take(c as int).push(iv[c as int]));
        c = c + 1;
    }
    assert(iv.take(iv.len() as int) =~= iv);
    let mut steps: Vec<ExpressionActionStep> = Vec::new();
    let mut p: usize = 0;
    while p < names.len()
        invariant
            p <= names@.len(),
            nv == string_views(names@),
            req == string_views(requested_ids@),
            trimmed@.len() == req.len(),
            forall|j: int| 0 <= j < req.len() ==> (#[trigger] trimmed@[j])@ == trim_by(req[j], whitespace_pred()),
            steps@.map_values(|s: ExpressionActionStep| step_view(s)) == plan_spec(nv.take(p as int), req, iv).0,
            string_views(cur@) == plan_spec(nv.take(p as int), req, iv).1,
            steps_named(steps@, nv),
        decreases names.len() - p,
    {
        assert(nv.take(p + 1).drop_last() =~= nv.take(p as int));
        let mut id_chars = chars_of("expression:");
        let ident = stable_identifier(names[p].as_str());
        let ident_chars = chars_of(ident.as_str());
        push_all(&mut id_chars, &ident_chars);
        let id = string_from_chars(&id_chars);
        assert(id@ == expression_action_id(nv[p as int]));
        let ghost before = steps@.map_values(|s: ExpressionActionStep| step_view(s));
        let ghost cur_v = string_views(cur@);
        proof {
            assert(id_requested(req, id@) == exists|k: int| 0 <= k < trimmed@.len() && (#[trigger] trimmed@[k])@ == id@) by {
                if id_requested(req, id@) {
                    let k = choose|k: int| 0 <= k < req.len() && trim_by(#[trigger] req[k], whitespace_pred()) == id@;
                    assert(trimmed@[k]@ == id@);
                }
                if exists|k: int| 0 <= k < trimmed@.len() && (#[trigger] trimmed@[k])@ == id@ {
                    let k = choose|k: int| 0 <= k < trimmed@.len() && (#[trigger] trimmed@[k])@ == id@;
                    assert(trim_by(req[k], whitespace_pred()) == id@);
                }
            }
        }
        if requests_id(&trimmed, &id) {
            let mut label_chars = chars_of("Expression / ");
            let mut menu_chars = chars_of("Expressions/");
            let name_chars = chars_of(names[p].as_str());
            push_all(&mut label_chars, &name_chars);
            push_all(&mut menu_chars, &name_chars);
            let label = string_from_chars(&label_chars);
            let menu_path = string_from_chars(&menu_chars);
            assert(nv[p as int] == names@[p as int]@);
            match find_action(&cur, &id) {
                Some(f) => {
                    proof {
                        lemma_first_index(cur_v, id@, f as int);
                    }
                    steps.push(ExpressionActionStep { preset_index: p, id, action_index: f, is_new: false, label, menu_path });
                    assert(steps@.map_values(|s: ExpressionActionStep| step_view(s)) =~= before.push(
                        (p as int, expression_action_id(nv[p as int]), f as int, false),
                    ));
                },
                None => {
                    let n = cur.len();
                    let id2 = id.clone();
                    cur.push(id2);
                    steps.push(ExpressionActionStep { preset_index: p, id, action_index: n, is_new: true, label, menu_path });
                    assert(steps@.map_values(|s: ExpressionActionStep| step_view(s)) =~= before.push(
                        (p as int, expression_action_id(nv[p as int]), n as int, true),
                    ));
                    assert(string_views(cur@) =~= cur_v.push(expression_action_id(nv[p as int])));
                },
            }
        }
        p = p + 1;
    }
    assert(nv.take(nv.len() as int) =~= nv);
    proof {
        assert(any_expression_id(req));
    }
    ExpressionActionPlan { rebuilds_actions: true, steps }
}

pub open spec fn contains_id(ids: Seq<Seq<char>>, id: Seq<char>) -> bool {
    exists|k: int| 0 <= k < ids.len() && ids[k] == id
}

proof fn lemma_first_index_exists(ids: Seq<Seq<char>>, id: Seq<char>)
    requires
        contains_id(ids, id),
    ensures
        first_index_of(ids, id) >= 0,
    decreases ids.len(),
{
    let k = choose|k: int| 0 <= k < ids.len() && ids[k] == id;
    if exists|j: int| 0 <= j < k && ids[j] == id {
        let j = choose|j: int| 0 <= j < k && ids[j] == id;
        assert(ids.take(k).len() < ids.len());
        assert(contains_id(ids.take(k), id)) by {
            assert(ids.take(k)[j] == id);
        }
        lemma_first_index_exists(ids.take(k), id);
        let f = choose|f: int| is_first_index(ids.take(k), id, f);
        assert(is_first_index(ids, id, f)) by {
            assert forall|q: int| 0 <= q < f implies ids[q] != id by {
                assert(ids.take(k)[q] == ids[q]);
            }
        }
    } else {
        assert(is_first_index(ids, id, k));
    }
}

proof fn lemma_first_index_absent(ids: Seq<Seq<char>>, id: Seq<char>)
    requires
        first_index_of(ids, id) < 0,
    ensures
        !contains_id(ids, id),
{
    if contains_id(ids, id) {
        lemma_first_index_exists(ids, id);
    }
}

/// The plan keeps the existing ids in front and appends only ids that were not there yet; every
/// requested preset's id ends up in the list.
proof fn lemma_plan_ids(names: Seq<Seq<char>>, requested: Seq<Seq<char>>, ids: Seq<Seq<char>>)
    ensures
        plan_spec(names, requested, ids).1.len() >= ids.len(),
        plan_spec(names, requested, ids).1.take(ids.len() as int) == ids,
        forall|p: int|
            0 <= p < names.len() && id_requested(requested, expression_action_id(#[trigger] names[p])) ==> contains_id(
                plan_spec(names, requested, ids).1,
                expression_action_id(names[p]),
            ),
    decreases names.len(),
{
    if names.len() > 0 {
        let rest = names.drop_last();
        lemma_plan_ids(rest, requested, ids);
        let cur = plan_spec(rest, requested, ids).1;
        let id = expression_action_id(names.last());
        let out = plan_spec(names, requested, ids).1;
        if id_requested(requested, id) && first_index_of(cur, id) < 0 {
            assert(out == cur.push(id));
            assert(out.take(ids.len() as int) =~= cur.take(ids.len() as int));
            assert(out[cur.len() as int] == id);
        } else {
            assert(out == cur);
        }
        assert forall|p: int|
            0 <= p < names.len() && id_requested(requested, expression_action_id(#[trigger] names[p])) implies contains_id(
            out,
            expression_action_id(names[p]),
        ) by {
            if p < names.len() - 1 {
                assert(rest[p] == names[p]);
                let k = choose|k: int| 0 <= k < cur.len() && cur[k] == expression_action_id(names[p]);
                assert(out[k] == cur[k]);
            } else if first_index_of(cur, id) >= 0 {
                let f = first_index_of(cur, id);
                assert(is_first_index(cur, id, f));
                assert(out[f] == id);
            }
        }
    }
}

/// With every requested preset's id already listed, the plan adds nothing: it only updates.
proof fn lemma_plan_on_listed_ids(names: Seq<Seq<char>>, requested: Seq<Seq<char>>, ids: Seq<Seq<char>>)
    requires
        forall|p: int|
            0 <= p < names.len() && id_requested(requested, expression_action_id(#[trigger] names[p])) ==> contains_id(
                ids,
                expression_action_id(names[p]),
            ),
    ensures
        plan_spec(names, requested, ids).1 == ids,
        forall|k: int| 0 <= k < plan_spec(names, requested, ids).0.len() ==> !(#[trigger] plan_spec(names, requested, ids).0[k]).3,
    decreases names.len(),
{
    if names.len() > 0 {
        let rest = names.drop_last();
        assert forall|p: int|
            0 <= p < rest.len() && id_requested(requested, expression_action_id(#[trigger] rest[p])) implies contains_id(
            ids,
            expression_action_id(rest[p]),
        ) by {
            assert(rest[p] == names[p]);
        }
        lemma_plan_on_listed_ids(rest, requested, ids);
        let id = expression_action_id(names.last());
        if id_requested(requested, id) {
            assert(names[names.len() - 1] == names.last());
            lemma_first_index_exists(ids, id);
        }
    }
}

/// Law: planning again against the action list a plan produced adds no action and only
/// updates: enabling the same expression actions twice leaves one action per preset id.
pub proof fn lemma_plan_is_idempotent(names: Seq<Seq<char>>, requested: Seq<Seq<char>>, ids: Seq<Seq<char>>)
    ensures
        plan_spec(names, requested, plan_spec(names, requested, ids).1).1 == plan_spec(names, requested, ids).1,
        forall|k: int|
            0 <= k < plan_spec(names, requested, plan_spec(names, requested, ids).1).0.len() ==> !(
            #[trigger] plan_spec(names, requested, plan_spec(names, requested, ids).1).0[k]).3,
{
    lemma_plan_ids(names, requested, ids);
    lemma_plan_on_listed_ids(names, requested, plan_spec(names, requested, ids).1);
}

/// Law: the plan keeps the existing actions in front, adds an action only for an id not yet
/// listed (so ids never repeat among the added ones), and leaves every requested preset's id
/// in the action list.
pub proof fn lemma_plan_lists_each_requested_preset(names: Seq<Seq<char>>, requested: Seq<Seq<char>>, ids: Seq<Seq<char>>)
    ensures
        plan_spec(names, requested, ids).1.take(ids.len() as int) == ids,
        forall|k: int|
            ids.len() <= k < plan_spec(names, requested, ids).1.len() ==> !contains_id(
                #[trigger] plan_spec(names, requested, ids).1.take(k),
                plan_spec(names, requested, ids).1[k],
            ),
        forall|p: int|
            0 <= p < names.len() && id_requested(requested, expression_action_id(#[trigger] names[p])) ==> contains_id(
                plan_spec(names, requested, ids).1,
                expression_action_id(names[p]),
            ),
    decreases names.len(),
{
    lemma_plan_ids(names, requested, ids);
    if names.len() > 0 {
        let rest = names.drop_last();
        lemma_plan_lists_each_requested_preset(rest, requested, ids);
        let cur = plan_spec(rest, requested, ids).1;
        let id = expression_action_id(names.last());
        let out = plan_spec(names, requested, ids).1;
        lemma_plan_ids(rest, requested, ids);
        if id_requested(requested, id) && first_index_of(cur, id) < 0 {
            lemma_first_index_absent(cur, id);
            assert forall|k: int| ids.len() <= k < out.len() implies !contains_id(#[trigger] out.take(k), out[k]) by {
                if k < cur.len() {
                    assert(out.take(k) =~= cur.take(k));
                    assert(out[k] == cur[k]);
                } else {
                    assert(out.take(k) =~= cur);
                }
            }
        }
    }
}

} // verus!
