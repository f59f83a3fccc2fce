use vstd::prelude::*;

verus! {

/// `p` is a permutation of `0..n`.
pub open spec fn is_permutation(p: Seq<int>, n: nat) -> bool {
    &&& p.len() == n
    &&& forall|i: int| 0 <= i < n ==> 0 <= #[trigger] p[i] < n
    &&& forall|i: int, j: int| 0 <= i < n && 0 <= j < n && i != j ==> p[i] != p[j]
}

/// `(key_a, pos_a)` precedes `(key_b, pos_b)` in the order of a stable sort:
/// smaller key first, and for equal keys the earlier original position first.
pub open spec fn stable_before(key_a: u128, pos_a: int, key_b: u128, pos_b: int) -> bool {
    key_a < key_b || (key_a == key_b && pos_a < pos_b)
}

/// `out` is `inp` rearranged by the permutation `p` (`out[i] == inp[p[i]]`) so that
/// keys ascend and items with equal keys keep their original relative order.
pub open spec fn stable_sorted_by<T>(out: Seq<(u128, T)>, inp: Seq<(u128, T)>, p: Seq<int>) -> bool {
    &&& out.len() == inp.len()
    &&& is_permutation(p, inp.len())
    &&& forall|i: int| 0 <= i < out.len() ==> #[trigger] out[i] == inp[p[i]]
    &&& forall|i: int, j: int|
        0 <= i < j < out.len() ==> stable_before(#[trigger] out[i].0, p[i], #[trigger] out[j].0, p[j])
}

/// `out` is the stable sort of `inp` by the `u128` key of each item.
pub open spec fn is_stable_sort_of<T>(out: Seq<(u128, T)>, inp: Seq<(u128, T)>) -> bool {
    exists|p: Seq<int>| stable_sorted_by(out, inp, p)
}

/// Sorts `items` by their keys, keeping the original order of items with equal keys
/// (the behaviour of `slice::sort_by_key`).
pub fn stable_sort_by_key<T: Copy>(items: &mut Vec<(u128, T)>)
    ensures
        is_stable_sort_of(final(items)@, old(items)@),
{
    let ghost inp = items@;
    let n = items.len();
    let ghost mut p: Seq<int> = Seq::new(n as nat, |k: int| k);
    if n == 0 {
        assert(stable_sorted_by(items@, inp, p));
        return;
    }
    let mut i: usize = 1;
    while i < n
        invariant
            1 <= i <= n,
            n == inp.len(),
            items@.len() == n,
            is_permutation(p, n as nat),
            forall|k: int| 0 <= k < n ==> #[trigger] items@[k] == inp[p[k]],
            forall|k: int| i <= k < n ==> #[trigger] p[k] == k,
            forall|a: int, b: int|
                0 <= a < b < i ==> stable_before(#[trigger] items@[a].0, p[a], #[trigger] items@[b].0, p[b]),
            forall|k: int| 0 <= k < i ==> #[trigger] p[k] < i,
        decreases n - i,
    {
        let mut j: usize = i;
        while j > 0 && items[j - 1].0 > items[j].0
            invariant
                0 <= j <= i < n,
                n == inp.len(),
                items@.len() == n,
                is_permutation(p, n as nat),
                forall|k: int| 0 <= k < n ==> #[trigger] items@[k] == inp[p[k]],
                forall|k: int| i < k < n ==> #[trigger] p[k] == k,
                p[j as int] == i,
                forall|k: int| 0 <= k <= i && k != j ==> #[trigger] p[k] < i,
                // the prefix before j is sorted, the part after j is sorted,
                // and everything before j precedes everything after j
                forall|a: int, b: int|
                    0 <= a < b <= i && a != j && b != j ==> stable_before(
                        #[trigger] items@[a].0,
                        p[a],
                        #[trigger] items@[b].0,
                        p[b],
                    ),
                // the moving item precedes everything after it
                forall|b: int| j < b <= i ==> items@[j as int].0 < #[trigger] items@[b].0,
            decreases j,
        {
            let prev = items[j - 1];
            let cur = items[j];
            items.set(j - 1, cur);
            items.set(j, prev);
            proof {
                let jj = j as int;
                let old_p = p;
                p = p.update(jj - 1, old_p[jj]).update(jj, old_p[jj - 1]);
                assert forall|x: int, y: int| 0 <= x < n && 0 <= y < n && x != y implies p[x] != p[y] by {
                    assert(old_p[x] != old_p[y] || x == y);
                }
            }
            j = j - 1;
        }
        proof {
            let jj = j as int;
            assert forall|a: int, b: int| 0 <= a < b <= i implies stable_before(
                #[trigger] items@[a].0,
                p[a],
                #[trigger] items@[b].0,
                p[b],
            ) by {
                if b == jj {
                    // a < j: either the loop stopped on a key no greater than the moving one,
                    // or there is nothing before j
                    assert(items@[jj - 1].0 <= items@[jj].0);
                    if a < jj - 1 {
                        assert(stable_before(items@[a].0, p[a], items@[jj - 1].0, p[jj - 1]));
                    }
                    assert(p[a] < i);
                } else if a == jj {
                    assert(items@[jj].0 < items@[b].0);
                }
            }
        }
        i = i + 1;
    }
    assert(stable_sorted_by(items@, inp, p));
}

/// Every position is the image of some position under a permutation.
pub proof fn lemma_permutation_onto(p: Seq<int>, n: nat, j: int)
    requires
        is_permutation(p, n),
        0 <= j < n,
    ensures
        exists|k: int| 0 <= k < n && p[k] == j,
{
    let dom = vstd::set_lib::set_int_range(0, n as int);
    let f = |k: int| p[k];
    let image = dom.map(f);
    vstd::set_lib::lemma_int_range(0, n as int);
    assert(vstd::relations::injective_on(f, dom)) by {
        assert forall|x1: int, x2: int| dom.contains(x1) && dom.contains(x2) && #[trigger] f(x1) == #[trigger] f(x2) implies x1 == x2 by {
            if x1 != x2 {
                assert(p[x1] != p[x2]);
            }
        }
    }
    vstd::set_lib::lemma_map_size(dom, image, f);
    assert(image.subset_of(dom)) by {
        assert forall|x: int| image.contains(x) implies dom.contains(x) by {
            let k = choose|k: int| dom.contains(k) && f(k) == x;
            assert(0 <= p[k] < n);
        }
    }
    vstd::set_lib::lemma_subset_equality(image, dom);
    assert(dom.contains(j));
    assert(image.contains(j));
    let k = choose|k: int| dom.contains(k) && f(k) == j;
    assert(0 <= k < n && p[k] == j);
}

/// A stable sort keeps the items: each item of the output is an item of the input and each
/// item of the input is an item of the output.
pub proof fn lemma_stable_sort_same_items<T>(out: Seq<(u128, T)>, inp: Seq<(u128, T)>)
    requires
        is_stable_sort_of(out, inp),
    ensures
        out.len() == inp.len(),
        forall|k: int| 0 <= k < out.len() ==> #[trigger] inp.contains(out[k]),
        forall|j: int| 0 <= j < inp.len() ==> #[trigger] out.contains(inp[j]),
        forall|j: int, k: int| 0 <= j < k < out.len() ==> #[trigger] out[j].0 <= #[trigger] out[k].0,
{
    let p = choose|p: Seq<int>| stable_sorted_by(out, inp, p);
    assert forall|k: int| 0 <= k < out.len() implies #[trigger] inp.contains(out[k]) by {
        assert(out[k] == inp[p[k]]);
    }
    assert forall|j: int| 0 <= j < inp.len() implies #[trigger] out.contains(inp[j]) by {
        lemma_permutation_onto(p, inp.len(), j);
        let k = choose|k: int| 0 <= k < inp.len() && p[k] == j;
        assert(out[k] == inp[j]);
    }
    assert forall|j: int, k: int| 0 <= j < k < out.len() implies #[trigger] out[j].0 <= #[trigger] out[k].0 by {
        assert(stable_before(out[j].0, p[j], out[k].0, p[k]));
    }
}

} // verus!
