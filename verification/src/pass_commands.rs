use vstd::prelude::*;
use crate::draw_batches::{DrawPipelineKey, MaterialRenderStateKey};

verus! {

/// A command of a keyed pass (outlines, fur, back faces): bind the pipeline of a key, or draw.
#[derive(Debug, PartialEq, Eq, Structural)]
pub enum PassCommand<K> {
    SetPipeline(K),
    Draw { draw_index: usize, key: K },
}

/// The commands for the first entries and the pipeline bound after them. An entry whose
/// render state differs from the bound one binds its pipeline first, or is skipped when that
/// pipeline is not available; an entry of the bound state draws at once.
pub open spec fn pass_plan<K>(entries: Seq<(K, usize)>, available: Seq<bool>) -> (
    Seq<PassCommand<K>>,
    Option<K>,
)
    decreases entries.len(),
{
    if entries.len() == 0 {
        (Seq::empty(), None)
    } else {
        let (cmds, current) = plan_prefix(entries, available);
        let i = entries.len() - 1;
        let (key, d) = entries[i];
        if current == Some(key) {
            (cmds.push(PassCommand::Draw { draw_index: d, key }), current)
        } else if available[i] {
            (cmds.push(PassCommand::SetPipeline(key)).push(PassCommand::Draw { draw_index: d, key }), Some(key))
        } else {
            (cmds, current)
        }
    }
}

pub open spec fn plan_prefix<K>(entries: Seq<(K, usize)>, available: Seq<bool>) -> (
    Seq<PassCommand<K>>,
    Option<K>,
)
    decreases entries.len(), 0nat,
{
    if entries.len() == 0 {
        (Seq::empty(), None)
    } else {
        pass_plan(entries.drop_last(), available)
    }
}

/// The pipeline bound before command `j`: the state of the last `SetPipeline` before it.
pub open spec fn bound_before<K>(cmds: Seq<PassCommand<K>>, j: int) -> Option<K>
    decreases j,
{
    if j <= 0 {
        None
    } else {
        match cmds[j - 1] {
            PassCommand::SetPipeline(k) => Some(k),
            PassCommand::Draw { .. } => bound_before(cmds, j - 1),
        }
    }
}

/// Plans a keyed pass: `entries` holds each draw's render state and draw index in drawing
/// order, `available` whether the pipeline of that entry's state exists.
pub fn plan_keyed_pass(entries: &Vec<(MaterialRenderStateKey, usize)>, available: &Vec<bool>) -> (cmds: Vec<
    PassCommand<MaterialRenderStateKey>,
>)
    requires
        available@.len() == entries@.len(),
    ensures
        cmds@ == pass_plan(entries@, available@).0,
{
    let mut cmds: Vec<PassCommand<MaterialRenderStateKey>> = Vec::new();
    let mut current: Option<MaterialRenderStateKey> = None;
    let mut i: usize = 0;
    while i < entries.len()
        invariant
            i <= entries@.len() == available@.len(),
            (cmds@, current) == pass_plan(entries@.take(i as int), available@),
        decreases entries.len() - i,
    {
        proof {
            let t = entries@.take(i + 1);
            assert(t.drop_last() =~= entries@.take(i as int));
            assert(t[i as int] == entries@[i as int]);
        }
        let (key, d) = entries[i];
        let same = match current {
            Some(c) => c == key,
            None => false,
        };
        if same {
            cmds.push(PassCommand::Draw { draw_index: d, key });
        } else if available[i] {
            cmds.push(PassCommand::SetPipeline(key));
            cmds.push(PassCommand::Draw { draw_index: d, key });
            current = Some(key);
        }
        i = i + 1;
    }
    assert(entries@.take(entries@.len() as int) =~= entries@);
    cmds
}

/// Plans the back-face pass: each entry holds a draw's back-face pipeline key and draw index;
/// every pipeline of that pass exists.
pub fn plan_backpass(entries: &Vec<(DrawPipelineKey, usize)>) -> (cmds: Vec<PassCommand<DrawPipelineKey>>)
    ensures
        cmds@ == pass_plan(entries@, Seq::new(entries@.len(), |i: int| true)).0,
{
    let ghost available = Seq::new(entries@.len(), |i: int| true);
    let mut cmds: Vec<PassCommand<DrawPipelineKey>> = Vec::new();
    let mut current: Option<DrawPipelineKey> = None;
    let mut i: usize = 0;
    while i < entries.len()
        invariant
            i <= entries@.len() == available.len(),
            available == Seq::new(entries@.len(), |i: int| true),
            (cmds@, current) == pass_plan(entries@.take(i as int), available),
        decreases entries.len() - i,
    {
        proof {
            let t = entries@.take(i + 1);
            assert(t.drop_last() =~= entries@.take(i as int));
            assert(t[i as int] == entries@[i as int]);
            assert(available[i as int]);
        }
        let (key, d) = entries[i];
        let same = match current {
            Some(c) => c == key,
            None => false,
        };
        if same {
            cmds.push(PassCommand::Draw { draw_index: d, key });
        } else {
            cmds.push(PassCommand::SetPipeline(key));
            cmds.push(PassCommand::Draw { draw_index: d, key });
            current = Some(key);
        }
        i = i + 1;
    }
    assert(entries@.take(entries@.len() as int) =~= entries@);
    cmds
}

proof fn lemma_bound_before_prefix<K>(cmds: Seq<PassCommand<K>>, more: Seq<PassCommand<K>>, j: int)
    requires
        0 <= j <= cmds.len(),
    ensures
        bound_before(cmds + more, j) == bound_before(cmds, j),
    decreases j,
{
    if j > 0 {
        assert((cmds + more)[j - 1] == cmds[j - 1]);
        lemma_bound_before_prefix(cmds, more, j - 1);
    }
}

/// Law: every draw of a keyed pass is issued under its own render state's pipeline, a pipeline
/// is bound only when the state changes, and the plan ends with the last bound state.
pub proof fn lemma_pass_draws_under_their_pipeline<K>(entries: Seq<(K, usize)>, available: Seq<bool>)
    ensures
        ({
            let (cmds, current) = pass_plan(entries, available);
            &&& current == bound_before(cmds, cmds.len() as int)
            &&& forall|j: int| #![trigger cmds[j]]
                0 <= j < cmds.len() ==> match cmds[j] {
                    PassCommand::Draw { draw_index, key } => bound_before(cmds, j) == Some(key),
                    PassCommand::SetPipeline(k) => bound_before(cmds, j) != Some(k),
                }
        }),
    decreases entries.len(),
{
    if entries.len() > 0 {
        let rest = entries.drop_last();
        lemma_pass_draws_under_their_pipeline(rest, available);
        let (cmds, current) = pass_plan(rest, available);
        let i = entries.len() - 1;
        let (key, d) = entries[i];
        let n = cmds.len() as int;
        if current == Some(key) {
            let out = cmds.push(PassCommand::Draw { draw_index: d, key });
            assert(cmds + seq![PassCommand::Draw { draw_index: d, key }] =~= out);
            lemma_bound_before_prefix(cmds, seq![PassCommand::Draw { draw_index: d, key }], n);
            assert forall|j: int| #![trigger out[j]] 0 <= j < out.len() implies match out[j] {
                PassCommand::Draw { draw_index, key } => bound_before(out, j) == Some(key),
                PassCommand::SetPipeline(k) => bound_before(out, j) != Some(k),
            } by {
                lemma_bound_before_prefix(cmds, seq![PassCommand::Draw { draw_index: d, key }], j);
                if j < n {
                    assert(out[j] == cmds[j]);
                }
            }
        } else if available[i] {
            let set = PassCommand::SetPipeline(key);
            let draw = PassCommand::Draw { draw_index: d, key };
            let out = cmds.push(set).push(draw);
            assert(cmds + seq![set, draw] =~= out);
            assert forall|j: int| #![trigger out[j]] 0 <= j < out.len() implies match out[j] {
                PassCommand::Draw { draw_index, key } => bound_before(out, j) == Some(key),
                PassCommand::SetPipeline(k) => bound_before(out, j) != Some(k),
            } by {
                if j <= n {
                    lemma_bound_before_prefix(cmds, seq![set, draw], j);
                }
                if j < n {
                    assert(out[j] == cmds[j]);
                }
            }
        }
    }
}

} // verus!
