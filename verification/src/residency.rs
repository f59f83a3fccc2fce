use vstd::prelude::*;

verus! {

pub open spec fn strictly_increasing(s: Seq<usize>) -> bool {
    forall|i: int, j: int| 0 <= i < j < s.len() ==> s[i] < s[j]
}

pub open spec fn pair_less(a: (usize, usize), b: (usize, usize)) -> bool {
    a.0 < b.0 || (a.0 == b.0 && a.1 < b.1)
}

pub open spec fn pairs_strictly_increasing(s: Seq<(usize, usize)>) -> bool {
    forall|i: int, j: int| 0 <= i < j < s.len() ==> pair_less(s[i], s[j])
}

/// Ascending, repeats allowed.
pub open spec fn ascending(s: Seq<usize>) -> bool {
    forall|i: int, j: int| 0 <= i < j < s.len() ==> s[i] <= s[j]
}

/// Lexicographically ascending, repeats allowed.
pub open spec fn pairs_ascending(s: Seq<(usize, usize)>) -> bool {
    forall|i: int, j: int| 0 <= i < j < s.len() ==> !pair_less(s[j], s[i])
}

/// The elements of `s` in ascending order, each once.
pub open spec fn sorted_listing(s: Set<usize>) -> Seq<usize> {
    choose|r: Seq<usize>| strictly_increasing(r) && r.to_set() == s
}

/// The pairs of `s` in lexicographic order, each once.
pub open spec fn sorted_pair_listing(s: Set<(usize, usize)>) -> Seq<(usize, usize)> {
    choose|r: Seq<(usize, usize)>| pairs_strictly_increasing(r) && r.to_set() == s
}

proof fn lemma_increasing_determined(a: Seq<usize>, b: Seq<usize>)
    requires
        strictly_increasing(a),
        strictly_increasing(b),
        a.to_set() == b.to_set(),
    ensures
        a == b,
    decreases a.len(),
{
    assert(forall|x: usize| #[trigger] a.contains(x) <==> a.to_set().contains(x));
    assert(forall|x: usize| #[trigger] b.contains(x) <==> b.to_set().contains(x));
    if a.len() == 0 {
        if b.len() > 0 {
            assert(b.contains(b[0]));
        }
    } else if b.len() == 0 {
        assert(a.contains(a[0]));
    } else {
        assert(a.contains(a[0]));
        assert(b.contains(b[0]));
        let ja = choose|j: int| 0 <= j < b.len() && b[j] == a[0];
        let jb = choose|j: int| 0 <= j < a.len() && a[j] == b[0];
        assert(b[0] <= b[ja]);
        assert(a[0] <= a[jb]);
        let a2 = a.drop_first();
        let b2 = b.drop_first();
        assert forall|x: usize| a2.to_set().contains(x) <==> b2.to_set().contains(x) by {
            assert(a2.contains(x) <==> a2.to_set().contains(x));
            assert(b2.contains(x) <==> b2.to_set().contains(x));
            if a2.contains(x) {
                let i = choose|i: int| 0 <= i < a2.len() && a2[i] == x;
                assert(a[i + 1] == x);
                assert(a.contains(x));
                let j = choose|j: int| 0 <= j < b.len() && b[j] == x;
                assert(a[0] < x);
                assert(j != 0);
                assert(b2[j - 1] == x);
            }
            if b2.contains(x) {
                let i = choose|i: int| 0 <= i < b2.len() && b2[i] == x;
                assert(b[i + 1] == x);
                assert(b.contains(x));
                let j = choose|j: int| 0 <= j < a.len() && a[j] == x;
                assert(b[0] < x);
                assert(j != 0);
                assert(a2[j - 1] == x);
            }
        }
        assert(a2.to_set() =~= b2.to_set());
        lemma_increasing_determined(a2, b2);
        assert(a =~= b) by {
            assert forall|i: int| 0 <= i < a.len() implies a[i] == b[i] by {
                if i > 0 {
                    assert(a[i] == a2[i - 1] && b[i] == b2[i - 1]);
                }
            }
        }
    }
}

proof fn lemma_pairs_increasing_determined(a: Seq<(usize, usize)>, b: Seq<(usize, usize)>)
    requires
        pairs_strictly_increasing(a),
        pairs_strictly_increasing(b),
        a.to_set() == b.to_set(),
    ensures
        a == b,
    decreases a.len(),
{
    assert(forall|x: (usize, usize)| #[trigger] a.contains(x) <==> a.to_set().contains(x));
    assert(forall|x: (usize, usize)| #[trigger] b.contains(x) <==> b.to_set().contains(x));
    if a.len() == 0 {
        if b.len() > 0 {
            assert(b.contains(b[0]));
        }
    } else if b.len() == 0 {
        assert(a.contains(a[0]));
    } else {
        assert(a.contains(a[0]));
        assert(b.contains(b[0]));
        let ja = choose|j: int| 0 <= j < b.len() && b[j] == a[0];
        let jb = choose|j: int| 0 <= j < a.len() && a[j] == b[0];
        if ja != 0 {
            assert(pair_less(b[0], b[ja]));
        }
        if jb != 0 {
            assert(pair_less(a[0], a[jb]));
        }
        assert(a[0] == b[0]);
        let a2 = a.drop_first();
        let b2 = b.drop_first();
        assert forall|x: (usize, usize)| a2.to_set().contains(x) <==> b2.to_set().contains(x) by {
            assert(a2.contains(x) <==> a2.to_set().contains(x));
            assert(b2.contains(x) <==> b2.to_set().contains(x));
            if a2.contains(x) {
                let i = choose|i: int| 0 <= i < a2.len() && a2[i] == x;
                assert(a[i + 1] == x);
                assert(a.contains(x));
                let j = choose|j: int| 0 <= j < b.len() && b[j] == x;
                assert(pair_less(a[0], x));
                assert(j != 0);
                assert(b2[j - 1] == x);
            }
            if b2.contains(x) {
                let i = choose|i: int| 0 <= i < b2.len() && b2[i] == x;
                assert(b[i + 1] == x);
                assert(b.contains(x));
                let j = choose|j: int| 0 <= j < a.len() && a[j] == x;
                assert(pair_less(b[0], x));
                assert(j != 0);
                assert(a2[j - 1] == x);
            }
        }
        assert(a2.to_set() =~= b2.to_set());
        lemma_pairs_increasing_determined(a2, b2);
        assert(a =~= b) by {
            assert forall|i: int| 0 <= i < a.len() implies a[i] == b[i] by {
                if i > 0 {
                    assert(a[i] == a2[i - 1] && b[i] == b2[i - 1]);
                }
            }
        }
    }
}

/// An ascending list without repeats is the sorted listing of its own elements: sorting it
/// and dropping repeats gives it back, and two such lists with the same elements are equal.
pub proof fn lemma_sorted_listing_of_increasing(r: Seq<usize>)
    requires
        strictly_increasing(r),
    ensures
        sorted_listing(r.to_set()) == r,
{
    let l = sorted_listing(r.to_set());
    assert(strictly_increasing(l) && l.to_set() == r.to_set());
    lemma_increasing_determined(l, r);
}

/// The pair form of `lemma_sorted_listing_of_increasing`.
pub proof fn lemma_sorted_pair_listing_of_increasing(r: Seq<(usize, usize)>)
    requires
        pairs_strictly_increasing(r),
    ensures
        sorted_pair_listing(r.to_set()) == r,
{
    let l = sorted_pair_listing(r.to_set());
    assert(pairs_strictly_increasing(l) && l.to_set() == r.to_set());
    lemma_pairs_increasing_determined(l, r);
}

/// Sorts the indices ascending and drops repeats.
pub fn sorted_unique_indices(indices: Vec<usize>) -> (out: Vec<usize>)
    ensures
        strictly_increasing(out@),
        out@.to_set() == indices@.to_set(),
        out@ == sorted_listing(indices@.to_set()),
{
    let mut out: Vec<usize> = Vec::new();
    let mut k: usize = 0;
    while k < indices.len()
        invariant
            k <= indices.len(),
            strictly_increasing(out@),
            out@.to_set() == indices@.take(k as int).to_set(),
        decreases indices.len() - k,
    {
        let x = indices[k];
        let mut pos: usize = 0;
        while pos < out.len() && out[pos] < x
            invariant
                pos <= out.len(),
                forall|q: int| 0 <= q < pos ==> out@[q] < x,
            decreases out.len() - pos,
        {
            pos = pos + 1;
        }
        let ghost before = out@;
        proof {
            assert(indices@.take(k + 1) =~= indices@.take(k as int).push(x));
            indices@.take(k as int).lemma_push_to_set_commute(x);
        }
        if pos < out.len() && out[pos] == x {
            assert(before[pos as int] == x);
            assert(before.to_set().contains(x));
            assert(before.to_set().insert(x) =~= before.to_set());
        } else {
            out.insert(pos, x);
            assert(pos < before.len() ==> x < before[pos as int]);
            assert(out@ =~= before.insert(pos as int, x));
            assert(out@.to_set() =~= before.to_set().insert(x)) by {
                assert forall|y: usize| out@.contains(y) implies before.to_set().insert(x).contains(y) by {
                    let q = choose|q: int| 0 <= q < out@.len() && out@[q] == y;
                    if q < pos {
                        assert(before[q] == y);
                    } else if q > pos {
                        assert(before[q - 1] == y);
                    }
                }
                assert forall|y: usize| before.to_set().insert(x).contains(y) implies out@.contains(y) by {
                    if y == x {
                        assert(out@[pos as int] == x);
                    } else {
                        let q = choose|q: int| 0 <= q < before.len() && before[q] == y;
                        if q < pos {
                            assert(out@[q] == y);
                        } else {
                            assert(out@[q + 1] == y);
                        }
                    }
                }
            }
        }
        k = k + 1;
    }
    assert(indices@.take(indices@.len() as int) =~= indices@);
    proof {
        lemma_sorted_listing_of_increasing(out@);
    }
    out
}

/// Sorts the index pairs lexicographically and drops repeats.
pub fn sorted_unique(values: Vec<(usize, usize)>) -> (out: Vec<(usize, usize)>)
    ensures
        pairs_strictly_increasing(out@),
        out@.to_set() == values@.to_set(),
        out@ == sorted_pair_listing(values@.to_set()),
{
    let mut out: Vec<(usize, usize)> = Vec::new();
    let mut k: usize = 0;
    while k < values.len()
        invariant
            k <= values.len(),
            pairs_strictly_increasing(out@),
            out@.to_set() == values@.take(k as int).to_set(),
        decreases values.len() - k,
    {
        let x = values[k];
        let mut pos: usize = 0;
        while pos < out.len() && (out[pos].0 < x.0 || (out[pos].0 == x.0 && out[pos].1 < x.1))
            invariant
                pos <= out.len(),
                forall|q: int| 0 <= q < pos ==> pair_less(out@[q], x),
            decreases out.len() - pos,
        {
            pos = pos + 1;
        }
        let ghost before = out@;
        proof {
            assert(values@.take(k + 1) =~= values@.take(k as int).push(x));
            values@.take(k as int).lemma_push_to_set_commute(x);
        }
        if pos < out.len() && out[pos].0 == x.0 && out[pos].1 == x.1 {
            assert(before[pos as int] == x);
            assert(before.to_set().contains(x));
            assert(before.to_set().insert(x) =~= before.to_set());
        } else {
            out.insert(pos, x);
            assert(pos < before.len() ==> pair_less(x, before[pos as int]));
            assert forall|a: int, b: int| 0 <= a < b < out@.len() implies pair_less(out@[a], out@[b]) by {
                if b == pos {
                    assert(pair_less(before[a], x));
                } else if a == pos {
                    if b > pos + 1 {
                        assert(pair_less(before[pos as int], before[b - 1]));
                    }
                } else if a < pos && b > pos {
                    assert(pair_less(before[a], before[b - 1]));
                } else if a > pos {
                    assert(pair_less(before[a - 1], before[b - 1]));
                }
            }
            assert(out@ =~= before.insert(pos as int, x));
            assert(out@.to_set() =~= before.to_set().insert(x)) by {
                assert forall|y: (usize, usize)| out@.contains(y) implies before.to_set().insert(x).contains(y) by {
                    let q = choose|q: int| 0 <= q < out@.len() && out@[q] == y;
                    if q < pos {
                        assert(before[q] == y);
                    } else if q > pos {
                        assert(before[q - 1] == y);
                    }
                }
                assert forall|y: (usize, usize)| before.to_set().insert(x).contains(y) implies out@.contains(y) by {
                    if y == x {
                        assert(out@[pos as int] == x);
                    } else {
                        let q = choose|q: int| 0 <= q < before.len() && before[q] == y;
                        if q < pos {
                            assert(out@[q] == y);
                        } else {
                            assert(out@[q + 1] == y);
                        }
                    }
                }
            }
        }
        k = k + 1;
    }
    assert(values@.take(values@.len() as int) =~= values@);
    proof {
        lemma_sorted_pair_listing_of_increasing(out@);
    }
    out
}

/// Whether `x` occurs in an ascending list (binary search).
pub fn sorted_contains(sorted: &Vec<usize>, x: usize) -> (found: bool)
    requires
        ascending(sorted@),
    ensures
        found == sorted@.contains(x),
{
    let mut lo: usize = 0;
    let mut hi: usize = sorted.len();
    while lo < hi
        invariant
            lo <= hi <= sorted@.len(),
            ascending(sorted@),
            forall|q: int| 0 <= q < lo ==> sorted@[q] < x,
            forall|q: int| hi <= q < sorted@.len() ==> sorted@[q] > x,
        decreases hi - lo,
    {
        let mid = lo + (hi - lo) / 2;
        let v = sorted[mid];
        if v == x {
            return true;
        } else if v < x {
            lo = mid + 1;
        } else {
            hi = mid;
        }
    }
    false
}

/// Whether `x` occurs in a lexicographically ascending list of pairs (binary search).
pub fn sorted_contains_pair(sorted: &Vec<(usize, usize)>, x: (usize, usize)) -> (found: bool)
    requires
        pairs_ascending(sorted@),
    ensures
        found == sorted@.contains(x),
{
    let mut lo: usize = 0;
    let mut hi: usize = sorted.len();
    while lo < hi
        invariant
            lo <= hi <= sorted@.len(),
            pairs_ascending(sorted@),
            forall|q: int| 0 <= q < lo ==> pair_less(sorted@[q], x),
            forall|q: int| hi <= q < sorted@.len() ==> pair_less(x, sorted@[q]),
        decreases hi - lo,
    {
        let mid = lo + (hi - lo) / 2;
        let v = sorted[mid];
        if v.0 == x.0 && v.1 == x.1 {
            assert(sorted@[mid as int] == x);
            return true;
        } else if v.0 < x.0 || (v.0 == x.0 && v.1 < x.1) {
            assert forall|q: int| 0 <= q <= mid implies pair_less(sorted@[q], x) by {
                if q < mid {
                    assert(!pair_less(sorted@[mid as int], sorted@[q]));
                }
            }
            lo = mid + 1;
        } else {
            assert(pair_less(x, v));
            assert forall|q: int| mid <= q < sorted@.len() implies pair_less(x, sorted@[q]) by {
                if q > mid {
                    assert(!pair_less(sorted@[q], sorted@[mid as int]));
                }
            }
            hi = mid;
        }
    }
    false
}

/// Appends `index` unless the list already holds it.
pub fn push_unique_index(indices: &mut Vec<usize>, index: usize)
    ensures
        final(indices)@ == if old(indices)@.contains(index) {
            old(indices)@
        } else {
            old(indices)@.push(index)
        },
        forall|t: usize|
            #![trigger final(indices)@.contains(t)]
            final(indices)@.contains(t) <==> (t == index || old(indices)@.contains(t)),
{
    broadcast use vstd::seq_lib::lemma_seq_contains_after_push;

    let mut k: usize = 0;
    while k < indices.len()
        invariant
            k <= indices.len(),
            forall|q: int| 0 <= q < k ==> indices@[q] != index,
        decreases indices.len() - k,
    {
        if indices[k] == index {
            assert(indices@.contains(index));
            return;
        }
        k = k + 1;
    }
    let ghost before = indices@;
    indices.push(index);
    assert(indices@[before.len() as int] == index);
}

/// Appends the index, if any, unless the list already holds it.
pub fn push_texture_index(indices: &mut Vec<usize>, index: Option<usize>)
    ensures
        final(indices)@ == match index {
            Some(i) => if old(indices)@.contains(i) {
                old(indices)@
            } else {
                old(indices)@.push(i)
            },
            None => old(indices)@,
        },
{
    if let Some(index) = index {
        push_unique_index(indices, index);
    }
}

/// A residency flag, with positions past the end reading as not resident.
pub open spec fn flag_at(s: Seq<bool>, i: int) -> bool {
    0 <= i < s.len() && s[i]
}

pub open spec fn max_len(a: Seq<bool>, b: Seq<bool>) -> int {
    if a.len() >= b.len() {
        a.len() as int
    } else {
        b.len() as int
    }
}

pub open spec fn is_transition(old: Seq<bool>, next: Seq<bool>, from: bool, to: bool, i: int) -> bool {
    0 <= i < max_len(old, next) && flag_at(old, i) == from && flag_at(next, i) == to
}

/// The positions whose flag goes from `from` to `to`.
pub open spec fn transition_positions(old: Seq<bool>, next: Seq<bool>, from: bool, to: bool) -> Set<usize> {
    Set::new(|i: usize| is_transition(old, next, from, to, i as int))
}

/// The positions whose flag goes from `from` to `to`, ascending.
pub fn residency_transition_indices(old: &Vec<bool>, next: &Vec<bool>, from: bool, to: bool) -> (out: Vec<usize>)
    ensures
        out@ == sorted_listing(transition_positions(old@, next@, from, to)),
        strictly_increasing(out@),
        forall|i: int| out@.contains(i as usize) && 0 <= i <= usize::MAX <==> is_transition(old@, next@, from, to, i),
        forall|k: int| 0 <= k < out@.len() ==> is_transition(old@, next@, from, to, #[trigger] out@[k] as int),
{
    let mut out: Vec<usize> = Vec::new();
    let n = if old.len() >= next.len() {
        old.len()
    } else {
        next.len()
    };
    let mut index: usize = 0;
    while index < n
        invariant
            index <= n,
            n == max_len(old@, next@),
            strictly_increasing(out@),
            forall|k: int| 0 <= k < out@.len() ==> #[trigger] out@[k] < index,
            forall|k: int| 0 <= k < out@.len() ==> is_transition(old@, next@, from, to, #[trigger] out@[k] as int),
            forall|i: int| 0 <= i < index && is_transition(old@, next@, from, to, i) ==> out@.contains(i as usize),
        decreases n - index,
    {
        let old_value = if index < old.len() {
            old[index]
        } else {
            false
        };
        let next_value = if index < next.len() {
            next[index]
        } else {
            false
        };
        if old_value == from && next_value == to {
            let ghost before = out@;
            out.push(index);
            proof {
                assert forall|i: int| 0 <= i < index && is_transition(old@, next@, from, to, i) implies out@.contains(
                    i as usize,
                ) by {
                    let q = choose|q: int| 0 <= q < before.len() && before[q] == i as usize;
                    assert(out@[q] == i as usize);
                }
                assert(out@[out@.len() - 1] == index);
            }
        }
        index = index + 1;
    }
    proof {
        assert forall|i: int| out@.contains(i as usize) && 0 <= i <= usize::MAX implies is_transition(
            old@,
            next@,
            from,
            to,
            i,
        ) by {
            let q = choose|q: int| 0 <= q < out@.len() && out@[q] == i as usize;
        }
        assert forall|x: usize| out@.to_set().contains(x) <==> transition_positions(old@, next@, from, to).contains(x) by {
            assert(out@.contains(x) <==> out@.to_set().contains(x));
            assert((x as int) as usize == x);
        }
        assert(out@.to_set() =~= transition_positions(old@, next@, from, to));
        lemma_sorted_listing_of_increasing(out@);
    }
    out
}

/// Unloading from `a` to `b` touches exactly the positions that loading from `b` to `a`
/// does, in the same order.
pub proof fn lemma_unload_is_reverse_load(a: Seq<bool>, b: Seq<bool>)
    ensures
        sorted_listing(transition_positions(a, b, true, false)) == sorted_listing(transition_positions(b, a, false, true)),
{
    assert(transition_positions(a, b, true, false) =~= transition_positions(b, a, false, true));
}

/// The positions that become resident.
pub fn residency_load_indices(old: &Vec<bool>, next: &Vec<bool>) -> (out: Vec<usize>)
    ensures
        out@ == sorted_listing(transition_positions(old@, next@, false, true)),
        strictly_increasing(out@),
        forall|i: int| out@.contains(i as usize) && 0 <= i <= usize::MAX <==> is_transition(old@, next@, false, true, i),
        forall|k: int| 0 <= k < out@.len() ==> is_transition(old@, next@, false, true, #[trigger] out@[k] as int),
{
    residency_transition_indices(old, next, false, true)
}

/// The positions that stop being resident.
pub fn residency_unload_indices(old: &Vec<bool>, next: &Vec<bool>) -> (out: Vec<usize>)
    ensures
        out@ == sorted_listing(transition_positions(old@, next@, true, false)),
        strictly_increasing(out@),
        forall|i: int| out@.contains(i as usize) && 0 <= i <= usize::MAX <==> is_transition(old@, next@, true, false, i),
        forall|k: int| 0 <= k < out@.len() ==> is_transition(old@, next@, true, false, #[trigger] out@[k] as int),
{
    residency_transition_indices(old, next, true, false)
}

/// Law: unloading the unload indices and loading the load indices turns the old residency
/// into the new one (positions past either end read as not resident); no position is both
/// loaded and unloaded.
pub proof fn lemma_transitions_replay(
    old: Seq<bool>,
    next: Seq<bool>,
    loads: Seq<usize>,
    unloads: Seq<usize>,
    i: int,
)
    requires
        forall|j: int| loads.contains(j as usize) && 0 <= j <= usize::MAX <==> is_transition(old, next, false, true, j),
        forall|j: int| unloads.contains(j as usize) && 0 <= j <= usize::MAX <==> is_transition(old, next, true, false, j),
        0 <= i <= usize::MAX,
    ensures
        ((flag_at(old, i) && !unloads.contains(i as usize)) || loads.contains(i as usize)) == flag_at(next, i),
        !(loads.contains(i as usize) && unloads.contains(i as usize)),
{
    assert(i as usize as int == i);
    assert(loads.contains(i as usize) == is_transition(old, next, false, true, i));
    assert(unloads.contains(i as usize) == is_transition(old, next, true, false, i));
}

/// The number of resident positions.
pub open spec fn count_true(s: Seq<bool>) -> nat
    decreases s.len(),
{
    if s.len() == 0 {
        0
    } else {
        count_true(s.drop_last()) + if s.last() {
            1nat
        } else {
            0nat
        }
    }
}

pub proof fn lemma_count_true_set(s: Seq<bool>, i: int)
    requires
        0 <= i < s.len(),
        !s[i],
    ensures
        count_true(s.update(i, true)) == count_true(s) + 1,
    decreases s.len(),
{
    let t = s.update(i, true);
    if i == s.len() - 1 {
        assert(t.drop_last() =~= s.drop_last());
    } else {
        assert(t.drop_last() =~= s.drop_last().update(i, true));
        lemma_count_true_set(s.drop_last(), i);
    }
}

/// Marks the listed positions resident (positions out of range are skipped) and returns
/// how many positions became resident.
pub fn promote_residency_indices(residency: &mut Vec<bool>, indices: &Vec<usize>) -> (changed: usize)
    ensures
        final(residency)@.len() == old(residency)@.len(),
        forall|i: int|
            0 <= i < old(residency)@.len() ==> #[trigger] final(residency)@[i] == (old(residency)@[i]
                || indices@.contains(i as usize)),
        changed == count_true(final(residency)@) - count_true(old(residency)@),
{
    let ghost start = residency@;
    let mut changed: usize = 0;
    let mut k: usize = 0;
    while k < indices.len()
        invariant
            k <= indices.len(),
            residency@.len() == start.len(),
            forall|i: int|
                0 <= i < start.len() ==> #[trigger] residency@[i] == (start[i] || indices@.take(k as int).contains(
                    i as usize,
                )),
            changed == count_true(residency@) - count_true(start),
            count_true(residency@) >= count_true(start),
            changed <= k,
        decreases indices.len() - k,
    {
        let index = indices[k];
        let ghost prev = residency@;
        if index < residency.len() {
            if !residency[index] {
                proof {
                    lemma_count_true_set(residency@, index as int);
                }
                residency.set(index, true);
                changed = changed + 1;
            }
        }
        proof {
            let pre = indices@.take(k as int);
            let post = indices@.take(k + 1);
            assert(post =~= pre.push(index));
            assert forall|i: int| 0 <= i < start.len() implies #[trigger] residency@[i] == (start[i]
                || post.contains(i as usize)) by {
                if pre.contains(i as usize) {
                    let q = choose|q: int| 0 <= q < pre.len() && pre[q] == i as usize;
                    assert(post[q] == i as usize);
                }
                if i as usize == index {
                    assert(post[k as int] == index);
                } else if post.contains(i as usize) {
                    let q = choose|q: int| 0 <= q < post.len() && post[q] == i as usize;
                    assert(q < k);
                    assert(pre[q] == i as usize);
                }
            }
        }
        k = k + 1;
    }
    assert(indices@.take(indices@.len() as int) =~= indices@);
    changed
}

/// The assets that asset groups own.
#[derive(Debug)]
pub struct AssetGroupOwnership {
    pub mesh_primitives: Vec<(usize, usize)>,
    pub materials: Vec<usize>,
    pub images: Vec<usize>,
}

/// The assets selected by the active asset groups (the scene's scoped selection).
#[derive(Debug)]
pub struct ScopedAssetSelection {
    pub mesh_primitives: Vec<(usize, usize)>,
    pub materials: Vec<usize>,
    pub images: Vec<usize>,
}

/// Which owned assets are resident: assets that no group owns always are.
#[derive(Debug)]
pub struct SceneAssetResidencySets {
    pub all_resident: bool,
    pub owned_mesh_primitives: Vec<(usize, usize)>,
    pub resident_mesh_primitives: Vec<(usize, usize)>,
    pub owned_materials: Vec<usize>,
    pub resident_materials: Vec<usize>,
    pub owned_images: Vec<usize>,
    pub resident_images: Vec<usize>,
}

pub open spec fn owned_pairs(groups: Seq<AssetGroupOwnership>) -> Set<(usize, usize)> {
    Set::new(|x: (usize, usize)| exists|g: int| 0 <= g < groups.len() && #[trigger] groups[g].mesh_primitives@.contains(x))
}

pub open spec fn owned_materials_of(groups: Seq<AssetGroupOwnership>) -> Set<usize> {
    Set::new(|x: usize| exists|g: int| 0 <= g < groups.len() && #[trigger] groups[g].materials@.contains(x))
}

pub open spec fn owned_images_of(groups: Seq<AssetGroupOwnership>) -> Set<usize> {
    Set::new(|x: usize| exists|g: int| 0 <= g < groups.len() && #[trigger] groups[g].images@.contains(x))
}

impl SceneAssetResidencySets {
    /// The lists are ascending without repeats.
    pub open spec fn wf(&self) -> bool {
        &&& pairs_strictly_increasing(self.owned_mesh_primitives@)
        &&& pairs_strictly_increasing(self.resident_mesh_primitives@)
        &&& strictly_increasing(self.owned_materials@)
        &&& strictly_increasing(self.resident_materials@)
        &&& strictly_increasing(self.owned_images@)
        &&& strictly_increasing(self.resident_images@)
    }

    pub open spec fn primitive_resident_spec(&self, x: (usize, usize)) -> bool {
        self.all_resident || !self.owned_mesh_primitives@.contains(x) || self.resident_mesh_primitives@.contains(x)
    }

    pub open spec fn material_resident_spec(&self, x: usize) -> bool {
        self.all_resident || !self.owned_materials@.contains(x) || self.resident_materials@.contains(x)
    }

    pub open spec fn image_resident_spec(&self, x: usize) -> bool {
        self.all_resident || !self.owned_images@.contains(x) || self.resident_images@.contains(x)
    }

    /// The residency of a scene: everything when no group owns assets or no group is
    /// active, otherwise the owned assets of all groups against the active selection.
    pub fn for_scene(
        groups: &Vec<AssetGroupOwnership>,
        any_active_asset_group: bool,
        selection: ScopedAssetSelection,
    ) -> (sets: Self)
        ensures
            sets.wf(),
            sets.all_resident == (groups@.len() == 0 || !any_active_asset_group),
            sets.all_resident ==> {
                &&& sets.owned_mesh_primitives@.len() == 0
                &&& sets.resident_mesh_primitives@.len() == 0
                &&& sets.owned_materials@.len() == 0
                &&& sets.resident_materials@.len() == 0
                &&& sets.owned_images@.len() == 0
                &&& sets.resident_images@.len() == 0
            },
            !sets.all_resident ==> {
                &&& sets.owned_mesh_primitives@.to_set() == owned_pairs(groups@)
                &&& sets.owned_materials@.to_set() == owned_materials_of(groups@)
                &&& sets.owned_images@.to_set() == owned_images_of(groups@)
                &&& sets.resident_mesh_primitives@.to_set() == selection.mesh_primitives@.to_set()
                &&& sets.resident_materials@.to_set() == selection.materials@.to_set()
                &&& sets.resident_images@.to_set() == selection.images@.to_set()
            },
    {
        if groups.len() == 0 || !any_active_asset_group {
            return SceneAssetResidencySets {
                all_resident: true,
                owned_mesh_primitives: Vec::new(),
                resident_mesh_primitives: Vec::new(),
                owned_materials: Vec::new(),
                resident_materials: Vec::new(),
                owned_images: Vec::new(),
                resident_images: Vec::new(),
            };
        }
        let mut owned_mesh_primitives: Vec<(usize, usize)> = Vec::new();
        let mut owned_materials: Vec<usize> = Vec::new();
        let mut owned_images: Vec<usize> = Vec::new();
        let mut g: usize = 0;
        while g < groups.len()
            invariant
                g <= groups.len(),
                owned_mesh_primitives@.to_set() == owned_pairs(groups@.take(g as int)),
                owned_materials@.to_set() == owned_materials_of(groups@.take(g as int)),
                owned_images@.to_set() == owned_images_of(groups@.take(g as int)),
            decreases groups.len() - g,
        {
            let group = &groups[g];
            let ghost p0 = owned_mesh_primitives@;
            let ghost m0 = owned_materials@;
            let ghost i0 = owned_images@;
            append_pairs(&mut owned_mesh_primitives, &group.mesh_primitives);
            append_indices(&mut owned_materials, &group.materials);
            append_indices(&mut owned_images, &group.images);
            proof {
                let pre = groups@.take(g as int);
                let post = groups@.take(g + 1);
                assert(post =~= pre.push(*group));
                assert(owned_mesh_primitives@.to_set() =~= owned_pairs(post)) by {
                    assert forall|x: (usize, usize)| owned_pairs(post).contains(x) implies owned_mesh_primitives@.contains(x) by {
                        let h = choose|h: int| 0 <= h < post.len() && #[trigger] post[h].mesh_primitives@.contains(x);
                        if h < g {
                            assert(pre[h].mesh_primitives@.contains(x));
                            assert(owned_pairs(pre).contains(x));
                            assert(p0.to_set().contains(x));
                            let q = choose|q: int| 0 <= q < p0.len() && p0[q] == x;
                            assert(owned_mesh_primitives@[q] == x);
                        } else {
                            let q = choose|q: int| 0 <= q < group.mesh_primitives@.len() && group.mesh_primitives@[q] == x;
                            assert(owned_mesh_primitives@[p0.len() + q] == x);
                        }
                    }
                    assert forall|x: (usize, usize)| owned_mesh_primitives@.contains(x) implies owned_pairs(post).contains(x) by {
                        if p0.contains(x) {
                            assert(p0.to_set().contains(x));
                            let h = choose|h: int| 0 <= h < pre.len() && #[trigger] pre[h].mesh_primitives@.contains(x);
                            assert(post[h].mesh_primitives@.contains(x));
                        } else {
                            assert(post[g as int].mesh_primitives@.contains(x));
                        }
                    }
                }
                assert(owned_materials@.to_set() =~= owned_materials_of(post)) by {
                    assert forall|x: usize| owned_materials_of(post).contains(x) implies owned_materials@.contains(x) by {
                        let h = choose|h: int| 0 <= h < post.len() && #[trigger] post[h].materials@.contains(x);
                        if h < g {
                            assert(pre[h].materials@.contains(x));
                            assert(owned_materials_of(pre).contains(x));
                            assert(m0.to_set().contains(x));
                            let q = choose|q: int| 0 <= q < m0.len() && m0[q] == x;
                            assert(owned_materials@[q] == x);
                        } else {
                            let q = choose|q: int| 0 <= q < group.materials@.len() && group.materials@[q] == x;
                            assert(owned_materials@[m0.len() + q] == x);
                        }
                    }
                    assert forall|x: usize| owned_materials@.contains(x) implies owned_materials_of(post).contains(x) by {
                        if m0.contains(x) {
                            assert(m0.to_set().contains(x));
                            let h = choose|h: int| 0 <= h < pre.len() && #[trigger] pre[h].materials@.contains(x);
                            assert(post[h].materials@.contains(x));
                        } else {
                            assert(post[g as int].materials@.contains(x));
                        }
                    }
                }
                assert(owned_images@.to_set() =~= owned_images_of(post)) by {
                    assert forall|x: usize| owned_images_of(post).contains(x) implies owned_images@.contains(x) by {
                        let h = choose|h: int| 0 <= h < post.len() && #[trigger] post[h].images@.contains(x);
                        if h < g {
                            assert(pre[h].images@.contains(x));
                            assert(owned_images_of(pre).contains(x));
                            assert(i0.to_set().contains(x));
                            let q = choose|q: int| 0 <= q < i0.len() && i0[q] == x;
                            assert(owned_images@[q] == x);
                        } else {
                            let q = choose|q: int| 0 <= q < group.images@.len() && group.images@[q] == x;
                            assert(owned_images@[i0.len() + q] == x);
                        }
                    }
                    assert forall|x: usize| owned_images@.contains(x) implies owned_images_of(post).contains(x) by {
                        if i0.contains(x) {
                            assert(i0.to_set().contains(x));
                            let h = choose|h: int| 0 <= h < pre.len() && #[trigger] pre[h].images@.contains(x);
                            assert(post[h].images@.contains(x));
                        } else {
                            assert(post[g as int].images@.contains(x));
                        }
                    }
                }
            }
            g = g + 1;
        }
        proof {
            assert(groups@.take(groups@.len() as int) =~= groups@);
        }
        SceneAssetResidencySets {
            all_resident: false,
            owned_mesh_primitives: sorted_unique(owned_mesh_primitives),
            resident_mesh_primitives: sorted_unique(selection.mesh_primitives),
            owned_materials: sorted_unique_indices(owned_materials),
            resident_materials: sorted_unique_indices(selection.materials),
            owned_images: sorted_unique_indices(owned_images),
            resident_images: sorted_unique_indices(selection.images),
        }
    }

    /// A mesh primitive is resident unless a group owns it and the selection leaves it out. Only
    /// the two primitive lists need to be ascending.
    pub fn mesh_primitive_resident(&self, mesh_index: usize, primitive_index: usize) -> (r: bool)
        requires
            pairs_ascending(self.owned_mesh_primitives@),
            pairs_ascending(self.resident_mesh_primitives@),
        ensures
            r == self.primitive_resident_spec((mesh_index, primitive_index)),
    {
        self.all_resident || !sorted_contains_pair(&self.owned_mesh_primitives, (mesh_index, primitive_index))
            || sorted_contains_pair(&self.resident_mesh_primitives, (mesh_index, primitive_index))
    }

    /// A material is resident unless a group owns it and the selection leaves it out.
    pub fn material_resident(&self, material_index: usize) -> (r: bool)
        requires
            ascending(self.owned_materials@),
            ascending(self.resident_materials@),
        ensures
            r == self.material_resident_spec(material_index),
    {
        self.all_resident || !sorted_contains(&self.owned_materials, material_index) || sorted_contains(
            &self.resident_materials,
            material_index,
        )
    }

    /// An image is resident unless a group owns it and the selection leaves it out.
    pub fn image_resident(&self, image_index: usize) -> (r: bool)
        requires
            ascending(self.owned_images@),
            ascending(self.resident_images@),
        ensures
            r == self.image_resident_spec(image_index),
    {
        self.all_resident || !sorted_contains(&self.owned_images, image_index) || sorted_contains(
            &self.resident_images,
            image_index,
        )
    }
}

fn append_pairs(out: &mut Vec<(usize, usize)>, more: &Vec<(usize, usize)>)
    ensures
        final(out)@ == old(out)@ + more@,
{
    let mut k: usize = 0;
    while k < more.len()
        invariant
            k <= more.len(),
            out@ == old(out)@ + more@.take(k as int),
        decreases more.len() - k,
    {
        out.push(more[k]);
        assert(more@.take(k + 1) =~= more@.take(k as int).push(more@[k as int]));
        k = k + 1;
    }
    assert(more@.take(more@.len() as int) =~= more@);
}

fn append_indices(out: &mut Vec<usize>, more: &Vec<usize>)
    ensures
        final(out)@ == old(out)@ + more@,
{
    let mut k: usize = 0;
    while k < more.len()
        invariant
            k <= more.len(),
            out@ == old(out)@ + more@.take(k as int),
        decreases more.len() - k,
    {
        out.push(more[k]);
        assert(more@.take(k + 1) =~= more@.take(k as int).push(more@[k as int]));
        k = k + 1;
    }
    assert(more@.take(more@.len() as int) =~= more@);
}

/// What residency bookkeeping needs to know of one draw.
#[derive(Debug)]
pub struct DrawResidencyUse {
    pub active: bool,
    pub texture_indices: Vec<usize>,
    pub cube_texture_indices: Vec<usize>,
    pub material_slot_index: Option<usize>,
}

/// The slot is known and not resident.
pub open spec fn is_gap(residency: Seq<bool>, index: usize) -> bool {
    (index as int) < residency.len() && !residency[index as int]
}

pub open spec fn gaps_in(residency: Seq<bool>, indices: Seq<usize>) -> Set<usize> {
    Set::new(|t: usize| indices.contains(t) && is_gap(residency, t))
}

pub open spec fn uses_gap(residency: Seq<bool>, indices: Seq<usize>) -> bool {
    exists|k: int| 0 <= k < indices.len() && is_gap(residency, #[trigger] indices[k])
}

pub open spec fn slot_gap(residency: Seq<bool>, slot: Option<usize>) -> bool {
    match slot {
        Some(m) => is_gap(residency, m),
        None => false,
    }
}

/// The non-resident images used by active draws.
pub open spec fn image_gap_set(draws: Seq<DrawResidencyUse>, residency: Seq<bool>) -> Set<usize> {
    Set::new(|t: usize| exists|d: int| 0 <= d < draws.len() && (#[trigger] draws[d]).active
        && gaps_in(residency, draws[d].texture_indices@).contains(t))
}

/// The non-resident cube textures used by active draws.
pub open spec fn cube_gap_set(draws: Seq<DrawResidencyUse>, residency: Seq<bool>) -> Set<usize> {
    Set::new(|t: usize| exists|d: int| 0 <= d < draws.len() && (#[trigger] draws[d]).active
        && gaps_in(residency, draws[d].cube_texture_indices@).contains(t))
}

/// The non-resident material slots used by active draws.
pub open spec fn material_gap_set(draws: Seq<DrawResidencyUse>, residency: Seq<bool>) -> Set<usize> {
    Set::new(|m: usize| exists|d: int| 0 <= d < draws.len() && (#[trigger] draws[d]).active
        && draws[d].material_slot_index == Some(m) && is_gap(residency, m))
}

/// The number of draws satisfying `pred`.
pub open spec fn count_draws(draws: Seq<DrawResidencyUse>, pred: spec_fn(DrawResidencyUse) -> bool) -> nat
    decreases draws.len(),
{
    if draws.len() == 0 {
        0
    } else {
        count_draws(draws.drop_last(), pred) + if pred(draws.last()) {
            1nat
        } else {
            0nat
        }
    }
}

/// The resources that active draws use although they are not resident.
#[derive(Debug)]
pub struct SceneMeshActiveResidencyGaps {
    pub inactive_image_texture_indices: Vec<usize>,
    pub inactive_cube_texture_indices: Vec<usize>,
    pub inactive_material_slot_indices: Vec<usize>,
    pub active_draws_using_inactive_image_texture_count: usize,
    pub active_draws_using_inactive_cube_texture_count: usize,
    pub active_draws_using_inactive_material_slot_count: usize,
}

/// Adds the non-resident slots among `indices` to `out`; tells whether there was one.
fn collect_gaps(indices: &Vec<usize>, residency: &Vec<bool>, out: &mut Vec<usize>) -> (found: bool)
    ensures
        final(out)@.to_set() == old(out)@.to_set().union(gaps_in(residency@, indices@)),
        found == uses_gap(residency@, indices@),
{
    let mut found = false;
    let mut k: usize = 0;
    while k < indices.len()
        invariant
            k <= indices.len(),
            out@.to_set() == old(out)@.to_set().union(gaps_in(residency@, indices@.take(k as int))),
            found == uses_gap(residency@, indices@.take(k as int)),
        decreases indices.len() - k,
    {
        let t = indices[k];
        let ghost pre = indices@.take(k as int);
        let ghost post = indices@.take(k + 1);
        let ghost before = out@;
        proof {
            assert(post =~= pre.push(t));
        }
        if t < residency.len() && !residency[t] {
            push_unique_index(out, t);
            found = true;
            proof {
                before.lemma_push_to_set_commute(t);
                assert(post[k as int] == t);
                assert(uses_gap(residency@, post));
            }
        }
        proof {
            assert(gaps_in(residency@, post) =~= if is_gap(residency@, t) {
                gaps_in(residency@, pre).insert(t)
            } else {
                gaps_in(residency@, pre)
            }) by {
                assert forall|x: usize| post.contains(x) implies pre.contains(x) || x == t by {
                    let q = choose|q: int| 0 <= q < post.len() && post[q] == x;
                    if q < k {
                        assert(pre[q] == x);
                    }
                }
                assert forall|x: usize| pre.contains(x) implies post.contains(x) by {
                    let q = choose|q: int| 0 <= q < pre.len() && pre[q] == x;
                    assert(post[q] == x);
                }
                assert(post[k as int] == t);
            }
            if !is_gap(residency@, t) {
                assert(uses_gap(residency@, post) == uses_gap(residency@, pre)) by {
                    if uses_gap(residency@, post) {
                        let q = choose|q: int| 0 <= q < post.len() && is_gap(residency@, #[trigger] post[q]);
                        assert(q < k);
                        assert(pre[q] == post[q]);
                    }
                    if uses_gap(residency@, pre) {
                        let q = choose|q: int| 0 <= q < pre.len() && is_gap(residency@, #[trigger] pre[q]);
                        assert(pre[q] == post[q]);
                    }
                }
            }
            assert(out@.to_set() =~= old(out)@.to_set().union(gaps_in(residency@, post)));
        }
        k = k + 1;
    }
    assert(indices@.take(indices@.len() as int) =~= indices@);
    found
}

pub open spec fn draw_uses_image_gap(residency: Seq<bool>) -> spec_fn(DrawResidencyUse) -> bool {
    |d: DrawResidencyUse| d.active && uses_gap(residency, d.texture_indices@)
}

pub open spec fn draw_uses_cube_gap(residency: Seq<bool>) -> spec_fn(DrawResidencyUse) -> bool {
    |d: DrawResidencyUse| d.active && uses_gap(residency, d.cube_texture_indices@)
}

pub open spec fn draw_uses_material_gap(residency: Seq<bool>) -> spec_fn(DrawResidencyUse) -> bool {
    |d: DrawResidencyUse| d.active && slot_gap(residency, d.material_slot_index)
}

/// The non-resident images, cube textures and material slots that active draws use, each
/// ascending, and how many active draws use at least one of each.
pub fn active_residency_gaps_from_draws(
    draws: &Vec<DrawResidencyUse>,
    image_texture_residency: &Vec<bool>,
    cube_texture_residency: &Vec<bool>,
    material_slot_residency: &Vec<bool>,
) -> (gaps: SceneMeshActiveResidencyGaps)
    ensures
        strictly_increasing(gaps.inactive_image_texture_indices@),
        strictly_increasing(gaps.inactive_cube_texture_indices@),
        strictly_increasing(gaps.inactive_material_slot_indices@),
        gaps.inactive_image_texture_indices@.to_set() == image_gap_set(draws@, image_texture_residency@),
        gaps.inactive_cube_texture_indices@.to_set() == cube_gap_set(draws@, cube_texture_residency@),
        gaps.inactive_material_slot_indices@.to_set() == material_gap_set(draws@, material_slot_residency@),
        gaps.active_draws_using_inactive_image_texture_count == count_draws(
            draws@,
            draw_uses_image_gap(image_texture_residency@),
        ),
        gaps.active_draws_using_inactive_cube_texture_count == count_draws(
            draws@,
            draw_uses_cube_gap(cube_texture_residency@),
        ),
        gaps.active_draws_using_inactive_material_slot_count == count_draws(
            draws@,
            draw_uses_material_gap(material_slot_residency@),
        ),
{
    let mut images: Vec<usize> = Vec::new();
    let mut cubes: Vec<usize> = Vec::new();
    let mut materials: Vec<usize> = Vec::new();
    let mut image_count: usize = 0;
    let mut cube_count: usize = 0;
    let mut material_count: usize = 0;
    let mut d: usize = 0;
    while d < draws.len()
        invariant
            d <= draws.len(),
            images@.to_set() == image_gap_set(draws@.take(d as int), image_texture_residency@),
            cubes@.to_set() == cube_gap_set(draws@.take(d as int), cube_texture_residency@),
            materials@.to_set() == material_gap_set(draws@.take(d as int), material_slot_residency@),
            image_count == count_draws(draws@.take(d as int), draw_uses_image_gap(image_texture_residency@)),
            cube_count == count_draws(draws@.take(d as int), draw_uses_cube_gap(cube_texture_residency@)),
            material_count == count_draws(draws@.take(d as int), draw_uses_material_gap(material_slot_residency@)),
            image_count <= d,
            cube_count <= d,
            material_count <= d,
        decreases draws.len() - d,
    {
        let draw = &draws[d];
        let ghost pre = draws@.take(d as int);
        let ghost post = draws@.take(d + 1);
        let ghost images0 = images@;
        let ghost cubes0 = cubes@;
        let ghost materials0 = materials@;
        proof {
            assert(post =~= pre.push(*draw));
            assert(post.drop_last() =~= pre);
        }
        if draw.active {
            let uses_image = collect_gaps(&draw.texture_indices, image_texture_residency, &mut images);
            let uses_cube = collect_gaps(&draw.cube_texture_indices, cube_texture_residency, &mut cubes);
            if uses_image {
                image_count = image_count + 1;
            }
            if uses_cube {
                cube_count = cube_count + 1;
            }
            if let Some(m) = draw.material_slot_index {
                if m < material_slot_residency.len() && !material_slot_residency[m] {
                    push_unique_index(&mut materials, m);
                    material_count = material_count + 1;
                    proof {
                        materials0.lemma_push_to_set_commute(m);
                    }
                }
            }
        }
        proof {
            assert(image_gap_set(post, image_texture_residency@) =~= if draw.active {
                image_gap_set(pre, image_texture_residency@).union(gaps_in(image_texture_residency@, draw.texture_indices@))
            } else {
                image_gap_set(pre, image_texture_residency@)
            }) by {
                assert forall|t: usize| image_gap_set(post, image_texture_residency@).contains(t) implies (
                if draw.active {
                    image_gap_set(pre, image_texture_residency@).union(gaps_in(image_texture_residency@, draw.texture_indices@))
                } else {
                    image_gap_set(pre, image_texture_residency@)
                }).contains(t) by {
                    let e = choose|e: int| 0 <= e < post.len() && (#[trigger] post[e]).active
                        && gaps_in(image_texture_residency@, post[e].texture_indices@).contains(t);
                    if e < d {
                        assert(pre[e] == post[e]);
                    }
                }
                assert forall|t: usize| image_gap_set(pre, image_texture_residency@).contains(t) implies image_gap_set(
                    post,
                    image_texture_residency@,
                ).contains(t) by {
                    let e = choose|e: int| 0 <= e < pre.len() && (#[trigger] pre[e]).active
                        && gaps_in(image_texture_residency@, pre[e].texture_indices@).contains(t);
                    assert(post[e] == pre[e]);
                }
                if draw.active {
                    assert forall|t: usize| gaps_in(image_texture_residency@, draw.texture_indices@).contains(t) implies image_gap_set(
                        post,
                        image_texture_residency@,
                    ).contains(t) by {
                        assert(post[d as int] == *draw);
                    }
                }
            }
            assert(cube_gap_set(post, cube_texture_residency@) =~= if draw.active {
                cube_gap_set(pre, cube_texture_residency@).union(gaps_in(cube_texture_residency@, draw.cube_texture_indices@))
            } else {
                cube_gap_set(pre, cube_texture_residency@)
            }) by {
                assert forall|t: usize| cube_gap_set(post, cube_texture_residency@).contains(t) implies (
                if draw.active {
                    cube_gap_set(pre, cube_texture_residency@).union(gaps_in(cube_texture_residency@, draw.cube_texture_indices@))
                } else {
                    cube_gap_set(pre, cube_texture_residency@)
                }).contains(t) by {
                    let e = choose|e: int| 0 <= e < post.len() && (#[trigger] post[e]).active
                        && gaps_in(cube_texture_residency@, post[e].cube_texture_indices@).contains(t);
                    if e < d {
                        assert(pre[e] == post[e]);
                    }
                }
                assert forall|t: usize| cube_gap_set(pre, cube_texture_residency@).contains(t) implies cube_gap_set(
                    post,
                    cube_texture_residency@,
                ).contains(t) by {
                    let e = choose|e: int| 0 <= e < pre.len() && (#[trigger] pre[e]).active
                        && gaps_in(cube_texture_residency@, pre[e].cube_texture_indices@).contains(t);
                    assert(post[e] == pre[e]);
                }
                if draw.active {
                    assert forall|t: usize| gaps_in(cube_texture_residency@, draw.cube_texture_indices@).contains(t) implies cube_gap_set(
                        post,
                        cube_texture_residency@,
                    ).contains(t) by {
                        assert(post[d as int] == *draw);
                    }
                }
            }
            assert(material_gap_set(post, material_slot_residency@) =~= if draw.active && slot_gap(
                material_slot_residency@,
                draw.material_slot_index,
            ) {
                material_gap_set(pre, material_slot_residency@).insert(draw.material_slot_index->0)
            } else {
                material_gap_set(pre, material_slot_residency@)
            }) by {
                assert forall|m: usize| material_gap_set(post, material_slot_residency@).contains(m) implies (
                if draw.active && slot_gap(material_slot_residency@, draw.material_slot_index) {
                    material_gap_set(pre, material_slot_residency@).insert(draw.material_slot_index->0)
                } else {
                    material_gap_set(pre, material_slot_residency@)
                }).contains(m) by {
                    let e = choose|e: int| 0 <= e < post.len() && (#[trigger] post[e]).active
                        && post[e].material_slot_index == Some(m) && is_gap(material_slot_residency@, m);
                    if e < d {
                        assert(pre[e] == post[e]);
                    }
                }
                assert forall|m: usize| material_gap_set(pre, material_slot_residency@).contains(m) implies material_gap_set(
                    post,
                    material_slot_residency@,
                ).contains(m) by {
                    let e = choose|e: int| 0 <= e < pre.len() && (#[trigger] pre[e]).active
                        && pre[e].material_slot_index == Some(m) && is_gap(material_slot_residency@, m);
                    assert(post[e] == pre[e]);
                }
                if draw.active && slot_gap(material_slot_residency@, draw.material_slot_index) {
                    assert(post[d as int] == *draw);
                }
            }
        }
        d = d + 1;
    }
    proof {
        assert(draws@.take(draws@.len() as int) =~= draws@);
    }
    SceneMeshActiveResidencyGaps {
        inactive_image_texture_indices: sorted_unique_indices(images),
        inactive_cube_texture_indices: sorted_unique_indices(cubes),
        inactive_material_slot_indices: sorted_unique_indices(materials),
        active_draws_using_inactive_image_texture_count: image_count,
        active_draws_using_inactive_cube_texture_count: cube_count,
        active_draws_using_inactive_material_slot_count: material_count,
    }
}

/// The resources that a residency refresh loads and unloads.
#[derive(Debug)]
pub struct SceneMeshAssetResidencyRefresh {
    pub active_draw_state_changed_count: usize,
    pub mesh_buffer_load_indices: Vec<usize>,
    pub mesh_buffer_unload_indices: Vec<usize>,
    pub image_texture_load_indices: Vec<usize>,
    pub image_texture_unload_indices: Vec<usize>,
    pub cube_texture_load_indices: Vec<usize>,
    pub cube_texture_unload_indices: Vec<usize>,
    pub material_slot_load_indices: Vec<usize>,
    pub material_slot_unload_indices: Vec<usize>,
}

impl Default for SceneMeshAssetResidencyRefresh {
    fn default() -> (r: Self)
        ensures
            r.active_draw_state_changed_count == 0,
            r.mesh_buffer_load_indices@.len() == 0,
            r.mesh_buffer_unload_indices@.len() == 0,
            r.image_texture_load_indices@.len() == 0,
            r.image_texture_unload_indices@.len() == 0,
            r.cube_texture_load_indices@.len() == 0,
            r.cube_texture_unload_indices@.len() == 0,
            r.material_slot_load_indices@.len() == 0,
            r.material_slot_unload_indices@.len() == 0,
    {
        SceneMeshAssetResidencyRefresh::empty()
    }
}

impl SceneMeshAssetResidencyRefresh {
    /// A refresh that changes nothing.
    pub fn empty() -> (r: Self)
        ensures
            r.active_draw_state_changed_count == 0,
            r.mesh_buffer_load_indices@.len() == 0,
            r.mesh_buffer_unload_indices@.len() == 0,
            r.image_texture_load_indices@.len() == 0,
            r.image_texture_unload_indices@.len() == 0,
            r.cube_texture_load_indices@.len() == 0,
            r.cube_texture_unload_indices@.len() == 0,
            r.material_slot_load_indices@.len() == 0,
            r.material_slot_unload_indices@.len() == 0,
    {
        SceneMeshAssetResidencyRefresh {
            active_draw_state_changed_count: 0,
            mesh_buffer_load_indices: Vec::new(),
            mesh_buffer_unload_indices: Vec::new(),
            image_texture_load_indices: Vec::new(),
            image_texture_unload_indices: Vec::new(),
            cube_texture_load_indices: Vec::new(),
            cube_texture_unload_indices: Vec::new(),
            material_slot_load_indices: Vec::new(),
            material_slot_unload_indices: Vec::new(),
        }
    }

    /// Whether the refresh loads or unloads any scoped resource.
    pub fn has_scoped_resource_changes(&self) -> (r: bool)
        ensures
            r == (self.mesh_buffer_load_indices@.len() > 0 || self.mesh_buffer_unload_indices@.len() > 0
                || self.image_texture_load_indices@.len() > 0 || self.image_texture_unload_indices@.len() > 0
                || self.cube_texture_load_indices@.len() > 0 || self.cube_texture_unload_indices@.len() > 0
                || self.material_slot_load_indices@.len() > 0 || self.material_slot_unload_indices@.len() > 0),
    {
        !self.mesh_buffer_load_indices.is_empty() || !self.mesh_buffer_unload_indices.is_empty()
            || !self.image_texture_load_indices.is_empty() || !self.image_texture_unload_indices.is_empty()
            || !self.cube_texture_load_indices.is_empty() || !self.cube_texture_unload_indices.is_empty()
            || !self.material_slot_load_indices.is_empty() || !self.material_slot_unload_indices.is_empty()
    }
}

} // verus!
