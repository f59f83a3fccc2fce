use vstd::prelude::*;
use crate::residency::strictly_increasing;

verus! {

/// Whether a draw is shown: its node's effective visibility and whether its assets are
/// resident, with the node it is attached to.
#[derive(Clone, Copy, Debug, PartialEq, Eq, Structural)]
pub struct DrawActivity {
    pub visible: bool,
    pub asset_resident: bool,
    pub world_node_index: usize,
}

impl DrawActivity {
    pub open spec fn active_spec(self) -> bool {
        self.visible && self.asset_resident
    }

    /// A draw is drawn when it is visible and its assets are resident.
    pub fn active(&self) -> (r: bool)
        ensures
            r == self.active_spec(),
    {
        self.visible && self.asset_resident
    }
}

/// The number of positions below `n` whose draw changed between active and inactive.
pub open spec fn active_changes(old: Seq<DrawActivity>, new: Seq<DrawActivity>, n: int) -> nat
    decreases n,
{
    if n <= 0 {
        0
    } else {
        active_changes(old, new, n - 1) + if old[n - 1].active_spec() != new[n - 1].active_spec() {
            1nat
        } else {
            0nat
        }
    }
}

/// The effective visibility of a draw's node (hidden for a node past the table).
pub open spec fn node_visible(effective_visibility: Seq<bool>, node: usize) -> bool {
    (node as int) < effective_visibility.len() && effective_visibility[node as int]
}

proof fn lemma_active_changes_bound(old: Seq<DrawActivity>, new: Seq<DrawActivity>, n: int)
    ensures
        active_changes(old, new, n) <= if n < 0 { 0 } else { n },
    decreases n,
{
    if n > 0 {
        lemma_active_changes_bound(old, new, n - 1);
    }
}

/// Takes each draw's visibility from its node's effective visibility and counts the draws
/// whose active state changed.
pub fn refresh_draw_visibility(draws: &mut Vec<DrawActivity>, effective_visibility: &Vec<bool>) -> (changed: usize)
    ensures
        final(draws)@.len() == old(draws)@.len(),
        forall|i: int|
            0 <= i < old(draws)@.len() ==> #[trigger] final(draws)@[i] == (DrawActivity {
                visible: node_visible(effective_visibility@, old(draws)@[i].world_node_index),
                ..old(draws)@[i]
            }),
        changed == active_changes(old(draws)@, final(draws)@, old(draws)@.len() as int),
{
    let ghost start = draws@;
    let mut changed: usize = 0;
    let mut i: usize = 0;
    while i < draws.len()
        invariant
            i <= draws@.len() == start.len(),
            forall|q: int| 0 <= q < i ==> #[trigger] draws@[q] == (DrawActivity {
                visible: node_visible(effective_visibility@, start[q].world_node_index),
                ..start[q]
            }),
            forall|q: int| i <= q < draws@.len() ==> #[trigger] draws@[q] == start[q],
            changed == active_changes(start, draws@, i as int),
        decreases draws.len() - i,
    {
        proof {
            lemma_active_changes_bound(start, draws@, i as int);
        }
        let d = draws[i];
        let node = d.world_node_index;
        let next = node < effective_visibility.len() && effective_visibility[node];
        let was_active = d.active();
        let updated = DrawActivity { visible: next, ..d };
        let ghost before = draws@;
        draws.set(i, updated);
        proof {
            assert forall|n: int| 0 <= n <= i implies active_changes(start, draws@, n) == active_changes(start, before, n) by {
                lemma_active_changes_prefix(start, before, draws@, n, i as int);
            }
        }
        if updated.active() != was_active {
            changed = changed + 1;
        }
        i = i + 1;
    }
    changed
}

proof fn lemma_active_changes_prefix(old: Seq<DrawActivity>, a: Seq<DrawActivity>, b: Seq<DrawActivity>, n: int, m: int)
    requires
        n <= m,
        forall|q: int| 0 <= q < m ==> a[q] == b[q],
    ensures
        active_changes(old, a, n) == active_changes(old, b, n),
    decreases n,
{
    if n > 0 {
        lemma_active_changes_prefix(old, a, b, n - 1, m);
    }
}

/// Makes the assets of every visible draw resident and lists, ascending, the draws promoted.
pub fn promote_visible_draw_residency(draws: &mut Vec<DrawActivity>) -> (promoted: Vec<usize>)
    ensures
        final(draws)@.len() == old(draws)@.len(),
        forall|i: int|
            0 <= i < old(draws)@.len() ==> #[trigger] final(draws)@[i] == (DrawActivity {
                asset_resident: old(draws)@[i].asset_resident || old(draws)@[i].visible,
                ..old(draws)@[i]
            }),
        strictly_increasing(promoted@),
        forall|k: int| 0 <= k < promoted@.len() ==> (#[trigger] promoted@[k] as int) < old(draws)@.len(),
        forall|i: int|
            0 <= i < old(draws)@.len() ==> (promoted@.contains(i as usize) <==> (#[trigger] old(draws)@[i]).visible
                && !old(draws)@[i].asset_resident),
{
    let ghost start = draws@;
    let mut promoted: Vec<usize> = Vec::new();
    let mut i: usize = 0;
    while i < draws.len()
        invariant
            i <= draws@.len() == start.len(),
            forall|q: int| 0 <= q < i ==> #[trigger] draws@[q] == (DrawActivity {
                asset_resident: start[q].asset_resident || start[q].visible,
                ..start[q]
            }),
            forall|q: int| i <= q < draws@.len() ==> #[trigger] draws@[q] == start[q],
            strictly_increasing(promoted@),
            forall|k: int| 0 <= k < promoted@.len() ==> (#[trigger] promoted@[k] as int) < i,
            forall|q: int| 0 <= q < i ==> (promoted@.contains(q as usize) <==> (#[trigger] start[q]).visible && !start[q].asset_resident),
        decreases draws.len() - i,
    {
        let d = draws[i];
        if d.visible && !d.asset_resident {
            draws.set(i, DrawActivity { asset_resident: true, ..d });
            let ghost before = promoted@;
            promoted.push(i);
            proof {
                assert(promoted@[before.len() as int] == i);
                assert forall|q: int| 0 <= q < i + 1 implies (promoted@.contains(q as usize) <==> (#[trigger] start[q]).visible
                    && !start[q].asset_resident) by {
                    if promoted@.contains(q as usize) && q < i {
                        let k = choose|k: int| 0 <= k < promoted@.len() && promoted@[k] == q as usize;
                        if k < before.len() {
                            assert(before.contains(q as usize));
                        }
                    }
                    if q < i && before.contains(q as usize) {
                        let k = choose|k: int| 0 <= k < before.len() && before[k] == q as usize;
                        assert(promoted@[k] == q as usize);
                    }
                }
            }
        } else {
            proof {
                assert forall|q: int| 0 <= q < i + 1 implies (promoted@.contains(q as usize) <==> (#[trigger] start[q]).visible
                    && !start[q].asset_resident) by {
                    if q == i && promoted@.contains(q as usize) {
                        let k = choose|k: int| 0 <= k < promoted@.len() && promoted@[k] == q as usize;
                    }
                }
            }
        }
        i = i + 1;
    }
    promoted
}

/// What a change of the resident asset groups does to the draws.
pub struct DrawResidencyChanges {
    /// Draws whose mesh buffers must be loaded, ascending.
    pub mesh_buffer_load_indices: Vec<usize>,
    /// Draws whose mesh buffers may be dropped, ascending.
    pub mesh_buffer_unload_indices: Vec<usize>,
    /// Draws that turned active or inactive.
    pub active_draw_state_changed_count: usize,
}

/// Takes each draw's asset residency from `next_resident` (by draw; not resident past its
/// end), listing the draws that gain and lose residency and counting active-state changes.
pub fn refresh_draw_asset_residency(draws: &mut Vec<DrawActivity>, next_resident: &Vec<bool>) -> (changes: DrawResidencyChanges)
    ensures
        final(draws)@.len() == old(draws)@.len(),
        forall|i: int|
            0 <= i < old(draws)@.len() ==> #[trigger] final(draws)@[i] == (DrawActivity {
                asset_resident: i < next_resident@.len() && next_resident@[i],
                ..old(draws)@[i]
            }),
        strictly_increasing(changes.mesh_buffer_load_indices@),
        strictly_increasing(changes.mesh_buffer_unload_indices@),
        forall|i: int|
            0 <= i < old(draws)@.len() ==> (changes.mesh_buffer_load_indices@.contains(i as usize) <==> !(#[trigger] old(
                draws,
            )@[i]).asset_resident && final(draws)@[i].asset_resident),
        forall|i: int|
            0 <= i < old(draws)@.len() ==> (changes.mesh_buffer_unload_indices@.contains(i as usize) <==> (#[trigger] old(
                draws,
            )@[i]).asset_resident && !final(draws)@[i].asset_resident),
        forall|k: int|
            0 <= k < changes.mesh_buffer_load_indices@.len() ==> (#[trigger] changes.mesh_buffer_load_indices@[k] as int)
                < old(draws)@.len(),
        forall|k: int|
            0 <= k < changes.mesh_buffer_unload_indices@.len() ==> (#[trigger] changes.mesh_buffer_unload_indices@[k] as int)
                < old(draws)@.len(),
        changes.active_draw_state_changed_count == active_changes(old(draws)@, final(draws)@, old(draws)@.len() as int),
{
    let ghost start = draws@;
    let mut load: Vec<usize> = Vec::new();
    let mut unload: Vec<usize> = Vec::new();
    let mut changed: usize = 0;
    let mut i: usize = 0;
    while i < draws.len()
        invariant
            i <= draws@.len() == start.len(),
            forall|q: int| 0 <= q < i ==> #[trigger] draws@[q] == (DrawActivity {
                asset_resident: q < next_resident@.len() && next_resident@[q],
                ..start[q]
            }),
            forall|q: int| i <= q < draws@.len() ==> #[trigger] draws@[q] == start[q],
            strictly_increasing(load@),
            strictly_increasing(unload@),
            forall|k: int| 0 <= k < load@.len() ==> (#[trigger] load@[k] as int) < i,
            forall|k: int| 0 <= k < unload@.len() ==> (#[trigger] unload@[k] as int) < i,
            forall|q: int| 0 <= q < i ==> (load@.contains(q as usize) <==> !(#[trigger] start[q]).asset_resident && draws@[q].asset_resident),
            forall|q: int| 0 <= q < i ==> (unload@.contains(q as usize) <==> (#[trigger] start[q]).asset_resident && !draws@[q].asset_resident),
            changed == active_changes(start, draws@, i as int),
        decreases draws.len() - i,
    {
        proof {
            lemma_active_changes_bound(start, draws@, i as int);
        }
        let d = draws[i];
        let next = i < next_resident.len() && next_resident[i];
        let was_active = d.active();
        let updated = DrawActivity { asset_resident: next, ..d };
        let ghost before = draws@;
        let ghost load_before = load@;
        let ghost unload_before = unload@;
        draws.set(i, updated);
        proof {
            assert forall|n: int| 0 <= n <= i implies active_changes(start, draws@, n) == active_changes(start, before, n) by {
                lemma_active_changes_prefix(start, before, draws@, n, i as int);
            }
        }
        if d.asset_resident != next {
            if next {
                load.push(i);
                assert(load@[load_before.len() as int] == i);
            } else {
                unload.push(i);
                assert(unload@[unload_before.len() as int] == i);
            }
        }
        proof {
            assert forall|q: int| 0 <= q < i + 1 implies (load@.contains(q as usize) <==> !(#[trigger] start[q]).asset_resident
                && draws@[q].asset_resident) by {
                if load@.contains(q as usize) {
                    let k = choose|k: int| 0 <= k < load@.len() && load@[k] == q as usize;
                    if k < load_before.len() {
                        assert(load_before[k] == q as usize);
                    }
                }
                if q < i && load_before.contains(q as usize) {
                    let k = choose|k: int| 0 <= k < load_before.len() && load_before[k] == q as usize;
                    assert(load@[k] == q as usize);
                }
            }
            assert forall|q: int| 0 <= q < i + 1 implies (unload@.contains(q as usize) <==> (#[trigger] start[q]).asset_resident
                && !draws@[q].asset_resident) by {
                if unload@.contains(q as usize) {
                    let k = choose|k: int| 0 <= k < unload@.len() && unload@[k] == q as usize;
                    if k < unload_before.len() {
                        assert(unload_before[k] == q as usize);
                    }
                }
                if q < i && unload_before.contains(q as usize) {
                    let k = choose|k: int| 0 <= k < unload_before.len() && unload_before[k] == q as usize;
                    assert(unload@[k] == q as usize);
                }
            }
        }
        if updated.active() != was_active {
            changed = changed + 1;
        }
        i = i + 1;
    }
    DrawResidencyChanges {
        mesh_buffer_load_indices: load,
        mesh_buffer_unload_indices: unload,
        active_draw_state_changed_count: changed,
    }
}

/// Law: after promotion every visible draw is active, and promoting again changes nothing
/// and promotes no draw.
pub proof fn lemma_promotion_activates_visible_draws(old: Seq<DrawActivity>, new: Seq<DrawActivity>)
    requires
        new.len() == old.len(),
        forall|i: int| 0 <= i < old.len() ==> #[trigger] new[i] == (DrawActivity {
            asset_resident: old[i].asset_resident || old[i].visible,
            ..old[i]
        }),
    ensures
        forall|i: int| 0 <= i < new.len() && (#[trigger] new[i]).visible ==> new[i].active_spec(),
        forall|i: int| 0 <= i < new.len() ==> !((#[trigger] new[i]).visible && !new[i].asset_resident),
        forall|i: int| 0 <= i < new.len() ==> (DrawActivity {
            asset_resident: new[i].asset_resident || new[i].visible,
            ..new[i]
        }) == #[trigger] new[i],
{
}

} // verus!
