use vstd::prelude::*;
use crate::skin_morph::ExpressionBinding;

verus! {

/// One bind of an expression preset: a morph target of a mesh primitive, with its weight scale
/// (an `f32`, kept as its bits).
#[derive(Clone, Copy, Debug, PartialEq, Eq, Structural)]
pub struct ExpressionBind {
    pub mesh_index: usize,
    pub primitive_index: usize,
    pub morph_target_index: usize,
    pub weight_scale_bits: u32,
}

/// Every bind of the presets, in preset order, keyed by its (mesh, primitive).
pub open spec fn preset_entries(presets: Seq<Seq<ExpressionBind>>) -> Seq<((usize, usize), ExpressionBinding)>
    decreases presets.len(),
{
    if presets.len() == 0 {
        Seq::empty()
    } else {
        let p = (presets.len() - 1) as usize;
        preset_entries(presets.drop_last()) + presets.last().map_values(
            |b: ExpressionBind|
                (
                    (b.mesh_index, b.primitive_index),
                    ExpressionBinding {
                        preset_index: p,
                        morph_target_index: b.morph_target_index,
                        weight_scale_bits: b.weight_scale_bits,
                    },
                ),
        )
    }
}

/// The bindings of the entries under `key`, in order.
pub open spec fn bindings_under(entries: Seq<((usize, usize), ExpressionBinding)>, key: (usize, usize)) -> Seq<
    ExpressionBinding,
>
    decreases entries.len(),
{
    if entries.len() == 0 {
        Seq::empty()
    } else {
        let earlier = bindings_under(entries.drop_last(), key);
        if entries.last().0 == key {
            earlier.push(entries.last().1)
        } else {
            earlier
        }
    }
}

pub open spec fn entries_have_key(entries: Seq<((usize, usize), ExpressionBinding)>, key: (usize, usize)) -> bool {
    exists|i: int| 0 <= i < entries.len() && (#[trigger] entries[i]).0 == key
}

/// The expression bindings of each mesh primitive that some preset binds.
pub struct ExpressionBindingIndex {
    pub keys: Vec<(usize, usize)>,
    pub lists: Vec<Vec<ExpressionBinding>>,
}

impl ExpressionBindingIndex {
    /// The index holds, once per key of `entries`, that key's bindings in order.
    pub open spec fn indexes(&self, entries: Seq<((usize, usize), ExpressionBinding)>) -> bool {
        &&& self.keys@.len() == self.lists@.len()
        &&& forall|i: int, j: int| 0 <= i < j < self.keys@.len() ==> self.keys@[i] != self.keys@[j]
        &&& forall|key: (usize, usize)|
            #[trigger] entries_have_key(entries, key) <==> exists|i: int| 0 <= i < self.keys@.len() && self.keys@[i] == key
        &&& forall|i: int| 0 <= i < self.keys@.len() ==> (#[trigger] self.lists@[i])@ == bindings_under(entries, self.keys@[i])
    }

    pub open spec fn well_formed(&self) -> bool {
        &&& self.keys@.len() == self.lists@.len()
        &&& forall|i: int, j: int| 0 <= i < j < self.keys@.len() ==> self.keys@[i] != self.keys@[j]
    }

    /// The bindings stored under `key` (none when the key is absent).
    pub open spec fn lookup_spec(&self, key: (usize, usize)) -> Seq<ExpressionBinding> {
        if exists|i: int| 0 <= i < self.keys@.len() && self.keys@[i] == key {
            self.lists@[choose|i: int| 0 <= i < self.keys@.len() && self.keys@[i] == key]@
        } else {
            Seq::empty()
        }
    }

    /// The bindings of a mesh primitive, in preset order (none when no preset binds it).
    pub fn bindings_for(&self, mesh_index: usize, primitive_index: usize) -> (out: Vec<ExpressionBinding>)
        requires
            self.well_formed(),
        ensures
            out@ == self.lookup_spec((mesh_index, primitive_index)),
    {
        let key = (mesh_index, primitive_index);
        let mut i: usize = 0;
        while i < self.keys.len()
            invariant
                i <= self.keys@.len(),
                self.well_formed(),
                key == (mesh_index, primitive_index),
                forall|q: int| 0 <= q < i ==> self.keys@[q] != key,
            decreases self.keys.len() - i,
        {
            let (km, kp) = self.keys[i];
            if km == mesh_index && kp == primitive_index {
                proof {
                    let c = choose|c: int| 0 <= c < self.keys@.len() && self.keys@[c] == key;
                    if c != i {
                        if c < i {
                            assert(self.keys@[c] != self.keys@[i as int]);
                        } else {
                            assert(self.keys@[i as int] != self.keys@[c]);
                        }
                    }
                }
                let list = &self.lists[i];
                let mut out: Vec<ExpressionBinding> = Vec::new();
                let mut k: usize = 0;
                while k < list.len()
                    invariant
                        k <= list@.len(),
                        out@ == list@.take(k as int),
                    decreases list.len() - k,
                {
                    out.push(list[k]);
                    assert(list@.take(k + 1) =~= list@.take(k as int).push(list@[k as int]));
                    k = k + 1;
                }
                assert(list@.take(list@.len() as int) =~= list@);
                return out;
            }
            assert(self.keys@[i as int] != key);
            i = i + 1;
        }
        Vec::new()
    }
}

/// Law: looking a mesh primitive up in the index built from the presets gives exactly the
/// bindings of that primitive, in preset order, and none for a primitive no preset binds.
pub proof fn lemma_index_lookup(index: ExpressionBindingIndex, entries: Seq<((usize, usize), ExpressionBinding)>)
    requires
        index.indexes(entries),
    ensures
        index.well_formed(),
        forall|key: (usize, usize)| #[trigger] index.lookup_spec(key) == bindings_under(entries, key),
{
    assert forall|key: (usize, usize)| #[trigger] index.lookup_spec(key) == bindings_under(entries, key) by {
        if exists|i: int| 0 <= i < index.keys@.len() && index.keys@[i] == key {
            let i = choose|i: int| 0 <= i < index.keys@.len() && index.keys@[i] == key;
            assert(index.lists@[i]@ == bindings_under(entries, index.keys@[i]));
        } else {
            assert(!entries_have_key(entries, key));
            lemma_absent_key_has_no_bindings(entries, key);
        }
    }
}

proof fn lemma_absent_key_has_no_bindings(entries: Seq<((usize, usize), ExpressionBinding)>, key: (usize, usize))
    requires
        !entries_have_key(entries, key),
    ensures
        bindings_under(entries, key) == Seq::<ExpressionBinding>::empty(),
    decreases entries.len(),
{
    if entries.len() > 0 {
        if entries_have_key(entries.drop_last(), key) {
            let i = choose|i: int| 0 <= i < entries.drop_last().len() && (#[trigger] entries.drop_last()[i]).0 == key;
            assert(entries[i].0 == key);
        }
        assert(entries[entries.len() - 1].0 != key);
        lemma_absent_key_has_no_bindings(entries.drop_last(), key);
    }
}

proof fn lemma_entry_step(
    entries: Seq<((usize, usize), ExpressionBinding)>,
    e: ((usize, usize), ExpressionBinding),
    key: (usize, usize),
)
    ensures
        entries_have_key(entries.push(e), key) == (entries_have_key(entries, key) || e.0 == key),
        bindings_under(entries.push(e), key) == if e.0 == key {
            bindings_under(entries, key).push(e.1)
        } else {
            bindings_under(entries, key)
        },
{
    assert(entries.push(e).drop_last() =~= entries);
    if entries_have_key(entries, key) {
        let i = choose|i: int| 0 <= i < entries.len() && (#[trigger] entries[i]).0 == key;
        assert(entries.push(e)[i] == entries[i]);
    }
    if e.0 == key {
        assert(entries.push(e)[entries.len() as int] == e);
    }
    if entries_have_key(entries.push(e), key) && e.0 != key {
        let i = choose|i: int| 0 <= i < entries.push(e).len() && (#[trigger] entries.push(e)[i]).0 == key;
        assert(entries[i] == entries.push(e)[i]);
    }
}

proof fn lemma_index_after_append(
    before: ExpressionBindingIndex,
    after: ExpressionBindingIndex,
    entries: Seq<((usize, usize), ExpressionBinding)>,
    e: ((usize, usize), ExpressionBinding),
    i: int,
)
    requires
        before.indexes(entries),
        0 <= i < before.keys@.len(),
        before.keys@[i] == e.0,
        after.keys@ == before.keys@,
        after.lists@.len() == before.lists@.len(),
        after.lists@[i]@ == before.lists@[i]@.push(e.1),
        forall|j: int| 0 <= j < before.lists@.len() && j != i ==> after.lists@[j] == before.lists@[j],
    ensures
        after.indexes(entries.push(e)),
{
    assert forall|k: (usize, usize)| #[trigger] entries_have_key(entries.push(e), k) <==> exists|j: int|
        0 <= j < after.keys@.len() && after.keys@[j] == k by {
        lemma_entry_step(entries, e, k);
        if entries_have_key(entries, k) {
            let j = choose|j: int| 0 <= j < before.keys@.len() && before.keys@[j] == k;
            assert(after.keys@[j] == k);
        }
        if exists|j: int| 0 <= j < after.keys@.len() && after.keys@[j] == k {
            let j = choose|j: int| 0 <= j < after.keys@.len() && after.keys@[j] == k;
            assert(before.keys@[j] == k);
        }
    }
    assert forall|j: int| 0 <= j < after.keys@.len() implies (#[trigger] after.lists@[j])@ == bindings_under(
        entries.push(e),
        after.keys@[j],
    ) by {
        lemma_entry_step(entries, e, after.keys@[j]);
        if j != i {
            assert(after.lists@[j] == before.lists@[j]);
            assert(before.keys@[j] != before.keys@[i]);
        }
    }
}

fn index_entry(
    index: &mut ExpressionBindingIndex,
    key: (usize, usize),
    binding: ExpressionBinding,
    Ghost(entries): Ghost<Seq<((usize, usize), ExpressionBinding)>>,
)
    requires
        old(index).indexes(entries),
    ensures
        final(index).indexes(entries.push((key, binding))),
{
    let ghost e = (key, binding);
    let mut i: usize = 0;
    while i < index.keys.len()
        invariant
            i <= index.keys@.len(),
            index.indexes(entries),
            e == (key, binding),
            forall|q: int| 0 <= q < i ==> index.keys@[q] != key,
        decreases index.keys.len() - i,
    {
        let (km, kp) = index.keys[i];
        if km == key.0 && kp == key.1 {
            assert(index.keys@[i as int] == key);
            let ghost before = *index;
            index.lists[i].push(binding);
            proof {
                lemma_index_after_append(before, *index, entries, e, i as int);
            }
            return;
        }
        assert(index.keys@[i as int] != key);
        i = i + 1;
    }
    let ghost before = *index;
    proof {
        lemma_entry_step(entries, e, key);
        assert(!entries_have_key(entries, key));
        lemma_absent_key_has_no_bindings(entries, key);
    }
    index.keys.push(key);
    let mut fresh: Vec<ExpressionBinding> = Vec::new();
    fresh.push(binding);
    index.lists.push(fresh);
    proof {
        assert forall|k: (usize, usize)| #[trigger] entries_have_key(entries.push(e), k) <==> exists|j: int|
            0 <= j < index.keys@.len() && index.keys@[j] == k by {
            lemma_entry_step(entries, e, k);
            if k == key {
                assert(index.keys@[before.keys@.len() as int] == key);
            }
            if entries_have_key(entries, k) {
                let j = choose|j: int| 0 <= j < before.keys@.len() && before.keys@[j] == k;
                assert(index.keys@[j] == k);
            }
            if exists|j: int| 0 <= j < index.keys@.len() && index.keys@[j] == k {
                let j = choose|j: int| 0 <= j < index.keys@.len() && index.keys@[j] == k;
                if j < before.keys@.len() {
                    assert(before.keys@[j] == k);
                }
            }
        }
        assert forall|j: int| 0 <= j < index.keys@.len() implies (#[trigger] index.lists@[j])@ == bindings_under(
            entries.push(e),
            index.keys@[j],
        ) by {
            lemma_entry_step(entries, e, index.keys@[j]);
            if j < before.keys@.len() {
                assert(index.lists@[j] == before.lists@[j]);
                assert(index.keys@[j] == before.keys@[j]);
            } else {
                assert(index.lists@[j]@ =~= seq![binding]);
                assert(Seq::<ExpressionBinding>::empty().push(binding) =~= seq![binding]);
            }
        }
    }
}

/// Indexes the presets' binds by mesh primitive: for each (mesh, primitive) some bind names,
/// its bindings (preset, morph target, weight scale) in preset order; nothing without presets.
pub fn expression_binding_index(presets: Option<&Vec<Vec<ExpressionBind>>>) -> (index: ExpressionBindingIndex)
    ensures
        index.indexes(match presets {
            Some(p) => preset_entries(p@.map_values(|binds: Vec<ExpressionBind>| binds@)),
            None => Seq::empty(),
        }),
{
    let mut index = ExpressionBindingIndex { keys: Vec::new(), lists: Vec::new() };
    proof {
        assert forall|key: (usize, usize)| #[trigger] entries_have_key(Seq::empty(), key) <==> exists|i: int|
            0 <= i < index.keys@.len() && index.keys@[i] == key by {}
    }
    let presets = match presets {
        Some(p) => p,
        None => {
            return index;
        },
    };
    let ghost views = presets@.map_values(|binds: Vec<ExpressionBind>| binds@);
    let ghost mut entries: Seq<((usize, usize), ExpressionBinding)> = Seq::empty();
    let mut p: usize = 0;
    while p < presets.len()
        invariant
            p <= presets@.len(),
            views == presets@.map_values(|binds: Vec<ExpressionBind>| binds@),
            entries == preset_entries(views.take(p as int)),
            index.indexes(entries),
        decreases presets.len() - p,
    {
        let binds = &presets[p];
        proof {
            assert(views.take(p + 1).drop_last() =~= views.take(p as int));
            assert(views.take(p + 1).last() == binds@);
        }
        let ghost start = entries;
        let ghost mk = |b: ExpressionBind|
            (
                (b.mesh_index, b.primitive_index),
                ExpressionBinding {
                    preset_index: p,
                    morph_target_index: b.morph_target_index,
                    weight_scale_bits: b.weight_scale_bits,
                },
            );
        let mut k: usize = 0;
        while k < binds.len()
            invariant
                k <= binds@.len(),
                mk == (|b: ExpressionBind|
                    (
                        (b.mesh_index, b.primitive_index),
                        ExpressionBinding {
                            preset_index: p,
                            morph_target_index: b.morph_target_index,
                            weight_scale_bits: b.weight_scale_bits,
                        },
                    )),
                entries == start + binds@.take(k as int).map_values(mk),
                index.indexes(entries),
            decreases binds.len() - k,
        {
            let b = binds[k];
            let binding = ExpressionBinding {
                preset_index: p,
                morph_target_index: b.morph_target_index,
                weight_scale_bits: b.weight_scale_bits,
            };
            index_entry(&mut index, (b.mesh_index, b.primitive_index), binding, Ghost(entries));
            proof {
                assert(binds@.take(k + 1).map_values(mk) =~= binds@.take(k as int).map_values(mk).push(mk(b)));
                assert(start + binds@.take(k as int).map_values(mk).push(mk(b)) =~= (start + binds@.take(
                    k as int,
                ).map_values(mk)).push(mk(b)));
                entries = entries.push(mk(b));
            }
            k = k + 1;
        }
        assert(binds@.take(binds@.len() as int) =~= binds@);
        p = p + 1;
    }
    assert(views.take(views.len() as int) =~= views);
    index
}

} // verus!
