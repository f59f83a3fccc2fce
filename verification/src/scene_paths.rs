use vstd::prelude::*;
use crate::text::{chars_of, push_all, string_from_chars};

verus! {

/// The parent table after the children `cs` of node `p` are recorded (a child index past the
/// table is ignored; a later record overwrites an earlier one).
pub open spec fn assign_children(table: Seq<Option<usize>>, p: usize, cs: Seq<usize>) -> Seq<Option<usize>>
    decreases cs.len(),
{
    if cs.len() == 0 {
        table
    } else {
        let t = assign_children(table, p, cs.drop_last());
        let c = cs.last();
        if (c as int) < t.len() {
            t.update(c as int, Some(p))
        } else {
            t
        }
    }
}

/// The parent table after the children of the first `m` nodes are recorded, for `n` nodes.
pub open spec fn parent_table(children: Seq<Seq<usize>>, n: nat, m: nat) -> Seq<Option<usize>>
    decreases m,
{
    if m == 0 {
        Seq::new(n, |i: int| None)
    } else {
        assign_children(parent_table(children, n, (m - 1) as nat), (m - 1) as usize, children[m - 1])
    }
}

/// Each node's parent: the last node that lists it as a child.
pub open spec fn parents_of(children: Seq<Seq<usize>>) -> Seq<Option<usize>> {
    parent_table(children, children.len(), children.len())
}

/// The parent links from `i` reach a root within `fuel` steps.
pub open spec fn chain_ends(parents: Seq<Option<usize>>, i: int, fuel: nat) -> bool
    decreases fuel,
{
    match parents[i] {
        None => true,
        Some(p) => fuel > 0 && 0 <= p < parents.len() && chain_ends(parents, p as int, (fuel - 1) as nat),
    }
}

/// The non-empty names on the way from node `i` up to its root, `i`'s own first.
pub open spec fn name_chain(
    parents: Seq<Option<usize>>,
    names: Seq<Option<Seq<char>>>,
    i: int,
    fuel: nat,
) -> Seq<Seq<char>>
    decreases fuel,
{
    let here: Seq<Seq<char>> = match names[i] {
        Some(name) => if name.len() > 0 {
            seq![name]
        } else {
            Seq::empty()
        },
        None => Seq::empty(),
    };
    match parents[i] {
        None => here,
        Some(p) => if fuel > 0 {
            here + name_chain(parents, names, p as int, (fuel - 1) as nat)
        } else {
            here
        },
    }
}

/// The parts joined with `/` between them.
pub open spec fn join_slash(parts: Seq<Seq<char>>) -> Seq<char>
    decreases parts.len(),
{
    if parts.len() == 0 {
        Seq::empty()
    } else if parts.len() == 1 {
        parts[0]
    } else {
        join_slash(parts.drop_last()) + seq!['/'] + parts.last()
    }
}

/// The path of node `i`: the non-empty names from its root down to it, joined with `/`.
pub open spec fn node_path(children: Seq<Seq<usize>>, names: Seq<Option<Seq<char>>>, i: int) -> Seq<char> {
    join_slash(name_chain(parents_of(children), names, i, children.len()).reverse())
}

pub open spec fn children_views(children: Seq<Vec<usize>>) -> Seq<Seq<usize>> {
    children.map_values(|c: Vec<usize>| c@)
}

pub open spec fn name_views(names: Seq<Option<String>>) -> Seq<Option<Seq<char>>> {
    names.map_values(|n: Option<String>| match n {
        Some(s) => Some(s@),
        None => None,
    })
}

proof fn lemma_chain_fuel(parents: Seq<Option<usize>>, names: Seq<Option<Seq<char>>>, i: int, f: nat, g: nat)
    requires
        chain_ends(parents, i, f),
        f <= g,
    ensures
        name_chain(parents, names, i, f) == name_chain(parents, names, i, g),
    decreases f,
{
    match parents[i] {
        None => {},
        Some(p) => {
            lemma_chain_fuel(parents, names, p as int, (f - 1) as nat, (g - 1) as nat);
        },
    }
}

proof fn lemma_chain_parts_nonempty(parents: Seq<Option<usize>>, names: Seq<Option<Seq<char>>>, i: int, f: nat)
    ensures
        forall|k: int| 0 <= k < name_chain(parents, names, i, f).len() ==> (#[trigger] name_chain(parents, names, i, f)[k]).len() > 0,
    decreases f,
{
    let here: Seq<Seq<char>> = match names[i] {
        Some(name) => if name.len() > 0 {
            seq![name]
        } else {
            Seq::empty()
        },
        None => Seq::empty(),
    };
    assert forall|k: int| 0 <= k < here.len() implies (#[trigger] here[k]).len() > 0 by {}
    match parents[i] {
        None => {},
        Some(p) => {
            if f > 0 {
                let up = name_chain(parents, names, p as int, (f - 1) as nat);
                lemma_chain_parts_nonempty(parents, names, p as int, (f - 1) as nat);
                assert forall|k: int| 0 <= k < (here + up).len() implies (#[trigger] (here + up)[k]).len() > 0 by {
                    if k >= here.len() {
                        assert((here + up)[k] == up[k - here.len()]);
                    }
                }
            }
        },
    }
}

proof fn lemma_join_empty(parts: Seq<Seq<char>>)
    requires
        forall|k: int| 0 <= k < parts.len() ==> (#[trigger] parts[k]).len() > 0,
    ensures
        (join_slash(parts).len() == 0) == (parts.len() == 0),
    decreases parts.len(),
{
    if parts.len() > 1 {
        lemma_join_empty(parts.drop_last());
    }
}

/// Law: a node's path extends its parent's: with a name, the parent's path, a `/` and the
/// name (just the name under a parent whose path is empty); without one, the parent's path.
/// A parentless node's path is its name, or empty.
pub proof fn lemma_node_path_extends_parent(children: Seq<Seq<usize>>, names: Seq<Option<Seq<char>>>, i: int)
    requires
        names.len() == children.len(),
        0 <= i < children.len(),
        chain_ends(parents_of(children), i, children.len()),
    ensures
        ({
            let own: Seq<char> = match names[i] {
                Some(name) => name,
                None => Seq::empty(),
            };
            match parents_of(children)[i] {
                None => node_path(children, names, i) == own,
                Some(p) => node_path(children, names, i) == if own.len() == 0 {
                    node_path(children, names, p as int)
                } else if node_path(children, names, p as int).len() == 0 {
                    own
                } else {
                    node_path(children, names, p as int) + seq!['/'] + own
                },
            }
        }),
{
    let parents = parents_of(children);
    let n = children.len();
    let own: Seq<char> = match names[i] {
        Some(name) => name,
        None => Seq::empty(),
    };
    let here: Seq<Seq<char>> = if own.len() > 0 { seq![own] } else { Seq::empty() };
    match parents[i] {
        None => {
            assert(name_chain(parents, names, i, n) == here);
            if own.len() > 0 {
                assert(here.reverse() =~= seq![own]);
            } else {
                assert(here.reverse() =~= Seq::<Seq<char>>::empty());
            }
        },
        Some(p) => {
            lemma_chain_fuel(parents, names, p as int, (n - 1) as nat, n);
            let up = name_chain(parents, names, p as int, n);
            assert(name_chain(parents, names, i, n) == here + up);
            lemma_chain_parts_nonempty(parents, names, p as int, n);
            lemma_join_empty(up.reverse());
            if own.len() > 0 {
                assert((here + up).reverse() =~= up.reverse().push(own));
                assert(up.reverse().push(own).drop_last() =~= up.reverse());
            } else {
                assert((here + up).reverse() =~= up.reverse());
            }
        },
    }
}

fn scene_parents(children: &Vec<Vec<usize>>) -> (parents: Vec<Option<usize>>)
    ensures
        parents@ == parents_of(children_views(children@)),
{
    let ghost ch = children_views(children@);
    let n = children.len();
    let mut parents: Vec<Option<usize>> = Vec::new();
    let mut i: usize = 0;
    while i < n
        invariant
            i <= n == children@.len(),
            parents@ == Seq::new(i as nat, |j: int| None::<usize>),
        decreases n - i,
    {
        parents.push(None);
        assert(parents@ =~= Seq::new((i + 1) as nat, |j: int| None::<usize>));
        i = i + 1;
    }
    assert(parents@ == parent_table(ch, n as nat, 0));
    let mut p: usize = 0;
    while p < n
        invariant
            p <= n == children@.len(),
            ch == children_views(children@),
            parents@ == parent_table(ch, n as nat, p as nat),
            parents@.len() == n,
        decreases n - p,
    {
        let cs = &children[p];
        let ghost start = parents@;
        let mut k: usize = 0;
        while k < cs.len()
            invariant
                k <= cs@.len(),
                cs@ == ch[p as int],
                parents@ == assign_children(start, p, cs@.take(k as int)),
                parents@.len() == n,
            decreases cs.len() - k,
        {
            assert(cs@.take(k + 1).drop_last() =~= cs@.take(k as int));
            let c = cs[k];
            if c < parents.len() {
                parents.set(c, Some(p));
            }
            k = k + 1;
        }
        assert(cs@.take(cs@.len() as int) =~= cs@);
        p = p + 1;
    }
    parents
}

proof fn lemma_table_len(children: Seq<Seq<usize>>, n: nat, m: nat)
    requires
        m <= children.len(),
    ensures
        parent_table(children, n, m).len() == n,
        forall|i: int| 0 <= i < n ==> match #[trigger] parent_table(children, n, m)[i] {
            Some(p) => (p as int) < m,
            None => true,
        },
    decreases m,
{
    if m > 0 {
        lemma_table_len(children, n, (m - 1) as nat);
        lemma_assign_len(parent_table(children, n, (m - 1) as nat), (m - 1) as usize, children[m - 1], m);
    }
}

proof fn lemma_assign_len(table: Seq<Option<usize>>, p: usize, cs: Seq<usize>, bound: nat)
    requires
        (p as int) < bound,
        forall|i: int| 0 <= i < table.len() ==> match #[trigger] table[i] {
            Some(q) => (q as int) < bound,
            None => true,
        },
    ensures
        assign_children(table, p, cs).len() == table.len(),
        forall|i: int| 0 <= i < table.len() ==> match #[trigger] assign_children(table, p, cs)[i] {
            Some(q) => (q as int) < bound,
            None => true,
        },
    decreases cs.len(),
{
    if cs.len() > 0 {
        lemma_assign_len(table, p, cs.drop_last(), bound);
    }
}

/// The path of every node: the non-empty names from its root down to it, joined with `/`
/// (a node's parent is the last node that lists it as a child). The parent links must not
/// form a cycle.
pub fn scene_node_paths(node_names: &Vec<Option<String>>, node_children: &Vec<Vec<usize>>) -> (paths: Vec<String>)
    requires
        node_names@.len() == node_children@.len(),
        forall|i: int|
            0 <= i < node_children@.len() ==> #[trigger] chain_ends(
                parents_of(children_views(node_children@)),
                i,
                node_children@.len() as nat,
            ),
    ensures
        paths@.len() == node_children@.len(),
        forall|i: int|
            0 <= i < paths@.len() ==> (#[trigger] paths@[i])@ == node_path(
                children_views(node_children@),
                name_views(node_names@),
                i,
            ),
{
    let ghost ch = children_views(node_children@);
    let ghost nv = name_views(node_names@);
    let parents = scene_parents(node_children);
    proof {
        lemma_table_len(ch, ch.len(), ch.len());
    }
    let n = node_children.len();
    let mut out: Vec<String> = Vec::new();
    let mut index: usize = 0;
    while index < n
        invariant
            index <= n == node_children@.len() == node_names@.len(),
            ch == children_views(node_children@),
            nv == name_views(node_names@),
            parents@ == parents_of(ch),
            parents@.len() == n,
            forall|i: int| 0 <= i < n ==> #[trigger] chain_ends(parents@, i, n as nat),
            out@.len() == index,
            forall|i: int| 0 <= i < index ==> (#[trigger] out@[i])@ == node_path(ch, nv, i),
        decreases n - index,
    {
        let mut chain: Vec<Vec<char>> = Vec::new();
        let mut cursor: usize = index;
        let mut fuel: usize = n;
        loop
            invariant_except_break
                chain@.map_values(|c: Vec<char>| c@) + name_chain(parents@, nv, cursor as int, fuel as nat) == name_chain(
                    parents@,
                    nv,
                    index as int,
                    n as nat,
                ),
            invariant
                n == parents@.len() == node_names@.len(),
                nv == name_views(node_names@),
                cursor < n,
                fuel <= n,
                chain_ends(parents@, cursor as int, fuel as nat),
            ensures
                chain@.map_values(|c: Vec<char>| c@) == name_chain(parents@, nv, index as int, n as nat),
            decreases fuel,
        {
            let ghost before = chain@.map_values(|c: Vec<char>| c@);
            match &node_names[cursor] {
                Some(name) => {
                    let name_chars = chars_of(name.as_str());
                    if name_chars.len() > 0 {
                        chain.push(name_chars);
                    }
                },
                None => {},
            }
            let ghost here = chain@.map_values(|c: Vec<char>| c@);
            assert(nv[cursor as int] == match node_names@[cursor as int] {
                Some(s) => Some(s@),
                None => None,
            });
            match parents[cursor] {
                None => {
                    assert(here =~= before + name_chain(parents@, nv, cursor as int, fuel as nat));
                    break;
                },
                Some(p) => {
                    assert(here + name_chain(parents@, nv, p as int, (fuel - 1) as nat) =~= before + name_chain(
                        parents@,
                        nv,
                        cursor as int,
                        fuel as nat,
                    ));
                    cursor = p;
                    fuel = fuel - 1;
                },
            }
        }
        let ghost parts = chain@.map_values(|c: Vec<char>| c@).reverse();
        let mut path: Vec<char> = Vec::new();
        let mut k: usize = chain.len();
        while k > 0
            invariant
                k <= chain@.len(),
                parts == chain@.map_values(|c: Vec<char>| c@).reverse(),
                path@ == join_slash(parts.take((chain@.len() - k) as int)),
            decreases k,
        {
            let ghost j: int = chain@.len() - k;
            assert(parts.take(j + 1).drop_last() =~= parts.take(j));
            assert(parts[j] == chain@[k - 1]@);
            if k < chain.len() {
                path.push('/');
            }
            push_all(&mut path, &chain[k - 1]);
            k = k - 1;
        }
        assert(parts.take(parts.len() as int) =~= parts);
        out.push(string_from_chars(&path));
        index = index + 1;
    }
    out
}


/// Every walk down the children from node `i` ends within `fuel` nodes (an index past the
/// nodes ends a walk at once).
pub open spec fn depth_bounded(children: Seq<Seq<usize>>, i: int, fuel: nat) -> bool
    decreases fuel,
{
    if i < 0 || i >= children.len() {
        true
    } else {
        fuel > 0 && forall|k: int|
            0 <= k < children[i].len() ==> depth_bounded(children, #[trigger] children[i][k] as int, (fuel - 1) as nat)
    }
}

/// The visibility table after visiting node `i` under a parent of visibility `pv`: the node
/// is visible when its parent is and it is itself, and its children are visited in order
/// under it (a node reached twice keeps what the last visit wrote).
pub open spec fn visit_spec(
    children: Seq<Seq<usize>>,
    visible: Seq<bool>,
    i: int,
    pv: bool,
    out: Seq<bool>,
    fuel: nat,
) -> Seq<bool>
    decreases fuel, 0nat,
{
    if i < 0 || i >= children.len() || fuel == 0 {
        out
    } else {
        let v = pv && visible[i];
        visit_list_spec(children, visible, children[i], v, out.update(i, v), (fuel - 1) as nat)
    }
}

/// The table after visiting the nodes `cs` in order, each under visibility `pv`.
pub open spec fn visit_list_spec(
    children: Seq<Seq<usize>>,
    visible: Seq<bool>,
    cs: Seq<usize>,
    pv: bool,
    out: Seq<bool>,
    fuel: nat,
) -> Seq<bool>
    decreases fuel, cs.len() + 1,
{
    if cs.len() == 0 {
        out
    } else {
        visit_spec(
            children,
            visible,
            cs.last() as int,
            pv,
            visit_list_spec(children, visible, cs.drop_last(), pv, out, fuel),
            fuel,
        )
    }
}

/// The nodes no node lists as a child, in order.
pub open spec fn parentless_nodes(children: Seq<Seq<usize>>) -> Seq<usize> {
    nodes_without_parent(parents_of(children))
}

/// The positions of `parents` that hold no parent, in order.
pub open spec fn nodes_without_parent(parents: Seq<Option<usize>>) -> Seq<usize> {
    Seq::new(parents.len(), |i: int| i as usize).filter(|i: usize| parents[i as int] is None)
}

/// The roots a visibility walk starts from: the scene's roots, or, when it lists none, the
/// parentless nodes.
pub open spec fn walk_roots(scene_roots: Seq<usize>, children: Seq<Seq<usize>>) -> Seq<usize> {
    if scene_roots.len() == 0 {
        parentless_nodes(children)
    } else {
        scene_roots
    }
}

/// Each node's effective visibility: every node starts hidden and the walk runs from each
/// root in turn, visible parents first.
pub open spec fn effective_visibility(children: Seq<Seq<usize>>, visible: Seq<bool>, roots: Seq<usize>) -> Seq<bool> {
    visit_list_spec(
        children,
        visible,
        roots,
        true,
        Seq::new(children.len(), |i: int| false),
        (children.len() + 1) as nat,
    )
}

fn visit(
    children: &Vec<Vec<usize>>,
    visible: &Vec<bool>,
    i: usize,
    pv: bool,
    out: &mut Vec<bool>,
    Ghost(fuel): Ghost<nat>,
)
    requires
        visible@.len() == children@.len() == old(out)@.len(),
        depth_bounded(children_views(children@), i as int, fuel),
    ensures
        final(out)@ == visit_spec(children_views(children@), visible@, i as int, pv, old(out)@, fuel),
    decreases fuel, 0nat,
{
    if i >= children.len() {
        return;
    }
    let v = pv && visible[i];
    out.set(i, v);
    proof {
        let ch = children_views(children@);
        assert(ch[i as int] == children@[i as int]@);
        assert forall|k: int| 0 <= k < children@[i as int]@.len() implies depth_bounded(
            ch,
            #[trigger] children@[i as int]@[k] as int,
            (fuel - 1) as nat,
        ) by {
            assert(ch[i as int][k] == children@[i as int]@[k]);
        }
    }
    visit_children(children, visible, &children[i], v, out, Ghost((fuel - 1) as nat));
}

fn visit_children(
    children: &Vec<Vec<usize>>,
    visible: &Vec<bool>,
    cs: &Vec<usize>,
    pv: bool,
    out: &mut Vec<bool>,
    Ghost(fuel): Ghost<nat>,
)
    requires
        visible@.len() == children@.len() == old(out)@.len(),
        forall|k: int| 0 <= k < cs@.len() ==> depth_bounded(children_views(children@), #[trigger] cs@[k] as int, fuel),
    ensures
        final(out)@ == visit_list_spec(children_views(children@), visible@, cs@, pv, old(out)@, fuel),
        final(out)@.len() == old(out)@.len(),
    decreases fuel, cs@.len() + 1,
{
    let ghost ch = children_views(children@);
    let mut k: usize = 0;
    while k < cs.len()
        invariant
            k <= cs@.len(),
            visible@.len() == children@.len() == out@.len(),
            ch == children_views(children@),
            forall|q: int| 0 <= q < cs@.len() ==> depth_bounded(ch, #[trigger] cs@[q] as int, fuel),
            out@ == visit_list_spec(ch, visible@, cs@.take(k as int), pv, old(out)@, fuel),
        decreases cs.len() - k,
    {
        assert(cs@.take(k + 1).drop_last() =~= cs@.take(k as int));
        assert(depth_bounded(ch, cs@[k as int] as int, fuel));
        visit(children, visible, cs[k], pv, out, Ghost(fuel));
        proof {
            lemma_visit_len(ch, visible@, cs@[k as int] as int, pv, visit_list_spec(ch, visible@, cs@.take(k as int), pv, old(out)@, fuel), fuel);
        }
        k = k + 1;
    }
    assert(cs@.take(cs@.len() as int) =~= cs@);
}

proof fn lemma_visit_len(children: Seq<Seq<usize>>, visible: Seq<bool>, i: int, pv: bool, out: Seq<bool>, fuel: nat)
    requires
        out.len() == children.len(),
    ensures
        visit_spec(children, visible, i, pv, out, fuel).len() == out.len(),
    decreases fuel, 0nat,
{
    if !(i < 0 || i >= children.len() || fuel == 0) {
        let v = pv && visible[i];
        lemma_visit_list_len(children, visible, children[i], v, out.update(i, v), (fuel - 1) as nat);
    }
}

proof fn lemma_visit_list_len(
    children: Seq<Seq<usize>>,
    visible: Seq<bool>,
    cs: Seq<usize>,
    pv: bool,
    out: Seq<bool>,
    fuel: nat,
)
    requires
        out.len() == children.len(),
    ensures
        visit_list_spec(children, visible, cs, pv, out, fuel).len() == out.len(),
    decreases fuel, cs.len() + 1,
{
    if cs.len() > 0 {
        lemma_visit_list_len(children, visible, cs.drop_last(), pv, out, fuel);
        lemma_visit_len(
            children,
            visible,
            cs.last() as int,
            pv,
            visit_list_spec(children, visible, cs.drop_last(), pv, out, fuel),
            fuel,
        );
    }
}

/// The parentless nodes, in order.
fn parentless(parents: &Vec<Option<usize>>) -> (out: Vec<usize>)
    ensures
        out@ == nodes_without_parent(parents@),
{
    let ghost all = Seq::new(parents@.len(), |i: int| i as usize);
    let ghost pred = |i: usize| parents@[i as int] is None;
    let mut out: Vec<usize> = Vec::new();
    let mut k: usize = 0;
    while k < parents.len()
        invariant
            k <= parents@.len(),
            all == Seq::new(parents@.len(), |i: int| i as usize),
            pred == (|i: usize| parents@[i as int] is None),
            out@ == all.take(k as int).filter(pred),
        decreases parents.len() - k,
    {
        proof {
            reveal(Seq::filter);
            assert(all.take(k + 1).drop_last() =~= all.take(k as int));
            assert(all.take(k + 1).last() == k);
        }
        if parents[k].is_none() {
            out.push(k);
        }
        k = k + 1;
    }
    assert(all.take(parents@.len() as int) =~= all);
    out
}

proof fn lemma_visit_keeps_hidden(children: Seq<Seq<usize>>, visible: Seq<bool>, i: int, pv: bool, out: Seq<bool>, fuel: nat)
    requires
        out.len() == children.len() == visible.len(),
        forall|j: int| 0 <= j < out.len() && #[trigger] out[j] ==> visible[j],
    ensures
        forall|j: int|
            0 <= j < out.len() && #[trigger] visit_spec(children, visible, i, pv, out, fuel)[j] ==> visible[j],
    decreases fuel, 0nat,
{
    if !(i < 0 || i >= children.len() || fuel == 0) {
        let v = pv && visible[i];
        let written = out.update(i, v);
        assert forall|j: int| 0 <= j < written.len() && #[trigger] written[j] implies visible[j] by {
            if j != i {
                assert(written[j] == out[j]);
            }
        }
        lemma_visit_list_keeps_hidden(children, visible, children[i], v, written, (fuel - 1) as nat);
        assert(visit_spec(children, visible, i, pv, out, fuel) == visit_list_spec(
            children,
            visible,
            children[i],
            v,
            written,
            (fuel - 1) as nat,
        ));
    }
}

proof fn lemma_visit_list_keeps_hidden(
    children: Seq<Seq<usize>>,
    visible: Seq<bool>,
    cs: Seq<usize>,
    pv: bool,
    out: Seq<bool>,
    fuel: nat,
)
    requires
        out.len() == children.len() == visible.len(),
        forall|j: int| 0 <= j < out.len() && #[trigger] out[j] ==> visible[j],
    ensures
        forall|j: int|
            0 <= j < out.len() && #[trigger] visit_list_spec(children, visible, cs, pv, out, fuel)[j] ==> visible[j],
    decreases fuel, cs.len() + 1,
{
    if cs.len() > 0 {
        let before = visit_list_spec(children, visible, cs.drop_last(), pv, out, fuel);
        lemma_visit_list_keeps_hidden(children, visible, cs.drop_last(), pv, out, fuel);
        lemma_visit_list_len(children, visible, cs.drop_last(), pv, out, fuel);
        lemma_visit_keeps_hidden(children, visible, cs.last() as int, pv, before, fuel);
        assert(visit_list_spec(children, visible, cs, pv, out, fuel) == visit_spec(
            children,
            visible,
            cs.last() as int,
            pv,
            before,
            fuel,
        ));
    }
}

/// A node is effectively visible only when it is itself visible, whatever the hierarchy
/// and the roots.
pub proof fn lemma_effectively_visible_only_if_visible(children: Seq<Seq<usize>>, visible: Seq<bool>, roots: Seq<usize>)
    requires
        visible.len() == children.len(),
    ensures
        forall|j: int|
            0 <= j < children.len() && #[trigger] effective_visibility(children, visible, roots)[j] ==> visible[j],
{
    let start = Seq::new(children.len(), |i: int| false);
    lemma_visit_list_keeps_hidden(children, visible, roots, true, start, (children.len() + 1) as nat);
}

/// Each node's effective visibility: a node is visible when it and every node above it on
/// the way down from a root are (a node reached on several ways keeps what the last visit
/// wrote); the walk starts at the scene's roots, or, when the scene lists none, at the
/// parentless nodes. No walk down from a root may run into a cycle.
pub fn scene_effective_visibility(
    node_visible: &Vec<bool>,
    node_children: &Vec<Vec<usize>>,
    scene_roots: &Vec<usize>,
) -> (out: Vec<bool>)
    requires
        node_visible@.len() == node_children@.len(),
        forall|k: int|
            0 <= k < walk_roots(scene_roots@, children_views(node_children@)).len() ==> depth_bounded(
                children_views(node_children@),
                #[trigger] walk_roots(scene_roots@, children_views(node_children@))[k] as int,
                (node_children@.len() + 1) as nat,
            ),
    ensures
        out@ == effective_visibility(
            children_views(node_children@),
            node_visible@,
            walk_roots(scene_roots@, children_views(node_children@)),
        ),
{
    let ghost ch = children_views(node_children@);
    let n = node_children.len();
    let mut out: Vec<bool> = Vec::new();
    let mut k: usize = 0;
    while k < n
        invariant
            k <= n == node_children@.len(),
            out@ == Seq::new(k as nat, |i: int| false),
        decreases n - k,
    {
        out.push(false);
        assert(out@ =~= Seq::new((k + 1) as nat, |i: int| false));
        k = k + 1;
    }
    if scene_roots.len() == 0 {
        let parents = scene_parents(node_children);
        let roots = parentless(&parents);
        assert(roots@ == walk_roots(scene_roots@, ch));
        visit_children(node_children, node_visible, &roots, true, &mut out, Ghost((n + 1) as nat));
    } else {
        assert(scene_roots@ == walk_roots(scene_roots@, ch));
        visit_children(node_children, node_visible, scene_roots, true, &mut out, Ghost((n + 1) as nat));
    }
    out
}

proof fn lemma_visit_keeps_visible(
    children: Seq<Seq<usize>>,
    visible: Seq<bool>,
    i: int,
    pv: bool,
    out: Seq<bool>,
    fuel: nat,
)
    requires
        visible.len() == children.len() == out.len(),
        forall|j: int| 0 <= j < out.len() && #[trigger] out[j] ==> visible[j],
    ensures
        forall|j: int|
            0 <= j < out.len() && #[trigger] visit_spec(children, visible, i, pv, out, fuel)[j] ==> visible[j],
    decreases fuel, 0nat,
{
    if !(i < 0 || i >= children.len() || fuel == 0) {
        let v = pv && visible[i];
        let o2 = out.update(i, v);
        assert forall|j: int| 0 <= j < o2.len() && #[trigger] o2[j] implies visible[j] by {
            if j != i {
                assert(out[j]);
            }
        }
        lemma_visit_list_keeps_visible(children, visible, children[i], v, o2, (fuel - 1) as nat);
        assert(visit_spec(children, visible, i, pv, out, fuel) == visit_list_spec(
            children,
            visible,
            children[i],
            v,
            o2,
            (fuel - 1) as nat,
        ));
    }
}

proof fn lemma_visit_list_keeps_visible(
    children: Seq<Seq<usize>>,
    visible: Seq<bool>,
    cs: Seq<usize>,
    pv: bool,
    out: Seq<bool>,
    fuel: nat,
)
    requires
        visible.len() == children.len() == out.len(),
        forall|j: int| 0 <= j < out.len() && #[trigger] out[j] ==> visible[j],
    ensures
        forall|j: int|
            0 <= j < out.len() && #[trigger] visit_list_spec(children, visible, cs, pv, out, fuel)[j] ==> visible[j],
    decreases fuel, cs.len() + 1,
{
    if cs.len() > 0 {
        let mid = visit_list_spec(children, visible, cs.drop_last(), pv, out, fuel);
        lemma_visit_list_keeps_visible(children, visible, cs.drop_last(), pv, out, fuel);
        lemma_visit_list_len(children, visible, cs.drop_last(), pv, out, fuel);
        lemma_visit_keeps_visible(children, visible, cs.last() as int, pv, mid, fuel);
        assert(visit_list_spec(children, visible, cs, pv, out, fuel) == visit_spec(
            children,
            visible,
            cs.last() as int,
            pv,
            mid,
            fuel,
        ));
    }
}

/// Law: a node is only ever effectively visible when it is visible itself, and the table has
/// one entry per node.
pub proof fn lemma_effectively_visible_nodes_are_visible(
    children: Seq<Seq<usize>>,
    visible: Seq<bool>,
    roots: Seq<usize>,
)
    requires
        visible.len() == children.len(),
    ensures
        effective_visibility(children, visible, roots).len() == children.len(),
        forall|i: int|
            0 <= i < children.len() && #[trigger] effective_visibility(children, visible, roots)[i] ==> visible[i],
{
    let start = Seq::new(children.len(), |i: int| false);
    lemma_visit_list_len(children, visible, roots, true, start, (children.len() + 1) as nat);
    lemma_visit_list_keeps_visible(children, visible, roots, true, start, (children.len() + 1) as nat);
}

/// The part of a path after its last `/` (all of it without one).
pub open spec fn last_segment(path: Seq<char>) -> Seq<char>
    decreases path.len(),
{
    if path.len() == 0 {
        path
    } else if path.last() == '/' {
        Seq::empty()
    } else {
        last_segment(path.drop_last()).push(path.last())
    }
}

/// The leaf name of a skin joint's node: the last segment of its node path (empty for a
/// joint or node out of range).
pub fn mesh_cloth_assist_joint_leaf(joint_nodes: &Vec<usize>, node_paths: &Vec<String>, joint_index: usize) -> (leaf: String)
    ensures
        leaf@ == if joint_index < joint_nodes@.len() && (joint_nodes@[joint_index as int] as int) < node_paths@.len() {
            last_segment(node_paths@[joint_nodes@[joint_index as int] as int]@)
        } else {
            Seq::empty()
        },
{
    if joint_index >= joint_nodes.len() {
        return string_from_chars(&Vec::new());
    }
    let node = joint_nodes[joint_index];
    if node >= node_paths.len() {
        return string_from_chars(&Vec::new());
    }
    let path = chars_of(node_paths[node].as_str());
    let mut start: usize = path.len();
    assert(path@.take(path@.len() as int) =~= path@);
    assert(path@.skip(path@.len() as int) =~= Seq::<char>::empty());
    assert(last_segment(path@) + Seq::<char>::empty() =~= last_segment(path@));
    while start > 0 && path[start - 1] != '/'
        invariant
            start <= path@.len(),
            forall|q: int| start <= q < path@.len() ==> path@[q] != '/',
            last_segment(path@) == last_segment(path@.take(start as int)) + path@.skip(start as int),
        decreases start,
    {
        proof {
            let t = path@.take(start as int);
            assert(t.drop_last() =~= path@.take(start - 1));
            assert(t.last() == path@[start - 1]);
            assert(path@.skip(start - 1) =~= seq![path@[start - 1]] + path@.skip(start as int));
            assert(last_segment(path@.take(start - 1)).push(path@[start - 1]) + path@.skip(start as int) =~= last_segment(
                path@.take(start - 1),
            ) + path@.skip(start - 1));
        }
        start = start - 1;
    }
    proof {
        if start > 0 {
            assert(path@.take(start as int).last() == '/');
        } else {
            assert(path@.take(0) =~= Seq::<char>::empty());
        }
        assert(Seq::<char>::empty() + path@.skip(start as int) =~= path@.skip(start as int));
    }
    let mut out: Vec<char> = Vec::new();
    let mut k: usize = start;
    while k < path.len()
        invariant
            start <= k <= path@.len(),
            out@ == path@.subrange(start as int, k as int),
        decreases path.len() - k,
    {
        out.push(path[k]);
        assert(path@.subrange(start as int, k + 1) =~= path@.subrange(start as int, k as int).push(path@[k as int]));
        k = k + 1;
    }
    assert(path@.subrange(start as int, path@.len() as int) =~= path@.skip(start as int));
    string_from_chars(&out)
}


/// `k` is a valid position in node `p`'s child list.
pub open spec fn child_edge(children: Seq<Seq<usize>>, p: int, k: int) -> bool {
    0 <= p < children.len() && 0 <= k < children[p].len()
}

/// Every child index names a node.
pub open spec fn children_in_range(children: Seq<Seq<usize>>) -> bool {
    forall|p: int, k: int| child_edge(children, p, k) ==> (#[trigger] children[p][k]) < children.len()
}

/// No node is listed as a child twice, under one parent or two.
pub open spec fn single_parent(children: Seq<Seq<usize>>) -> bool {
    forall|p1: int, k1: int, p2: int, k2: int|
        child_edge(children, p1, k1) && child_edge(children, p2, k2) && #[trigger] children[p1][k1]
            == #[trigger] children[p2][k2] ==> p1 == p2 && k1 == k2
}

/// Node `x` lies exactly `d` child steps below node `a`.
pub open spec fn descends(children: Seq<Seq<usize>>, a: int, x: int, d: nat) -> bool
    decreases d,
{
    if d == 0 {
        a == x
    } else {
        exists|k: int|
            #![trigger children[a][k]]
            child_edge(children, a, k) && descends(children, children[a][k] as int, x, (d - 1) as nat)
    }
}

proof fn lemma_visit_frame(
    children: Seq<Seq<usize>>,
    visible: Seq<bool>,
    i: int,
    pv: bool,
    out: Seq<bool>,
    fuel: nat,
    j: int,
)
    requires
        out.len() == children.len(),
        0 <= j < out.len(),
        forall|d: nat| d < fuel ==> !#[trigger] descends(children, i, j, d),
    ensures
        visit_spec(children, visible, i, pv, out, fuel)[j] == out[j],
    decreases fuel, 0nat,
{
    if !(i < 0 || i >= children.len() || fuel == 0) {
        assert(!descends(children, i, j, 0));
        let v = pv && visible[i];
        let written = out.update(i, v);
        let f1 = (fuel - 1) as nat;
        assert forall|k: int, d: nat| 0 <= k < children[i].len() && d < f1 implies !#[trigger] descends(
            children,
            children[i][k] as int,
            j,
            d,
        ) by {
            if descends(children, children[i][k] as int, j, d) {
                assert(child_edge(children, i, k));
                assert(descends(children, i, j, d + 1));
            }
        }
        lemma_visit_list_frame(children, visible, children[i], v, written, f1, j);
    }
}

proof fn lemma_visit_list_frame(
    children: Seq<Seq<usize>>,
    visible: Seq<bool>,
    cs: Seq<usize>,
    pv: bool,
    out: Seq<bool>,
    fuel: nat,
    j: int,
)
    requires
        out.len() == children.len(),
        0 <= j < out.len(),
        forall|k: int, d: nat| 0 <= k < cs.len() && d < fuel ==> !#[trigger] descends(children, cs[k] as int, j, d),
    ensures
        visit_list_spec(children, visible, cs, pv, out, fuel)[j] == out[j],
    decreases fuel, cs.len() + 1,
{
    if cs.len() > 0 {
        let pre = cs.drop_last();
        let before = visit_list_spec(children, visible, pre, pv, out, fuel);
        assert forall|k: int, d: nat| 0 <= k < pre.len() && d < fuel implies !#[trigger] descends(children, pre[k] as int, j, d) by {
            assert(pre[k] == cs[k]);
        }
        lemma_visit_list_frame(children, visible, pre, pv, out, fuel, j);
        lemma_visit_list_len(children, visible, pre, pv, out, fuel);
        assert forall|d: nat| d < fuel implies !#[trigger] descends(children, cs.last() as int, j, d) by {
            assert(cs.last() == cs[cs.len() - 1]);
        }
        lemma_visit_frame(children, visible, cs.last() as int, pv, before, fuel, j);
    }
}

proof fn lemma_descends_depth(children: Seq<Seq<usize>>, a: int, x: int, d: nat, f: nat)
    requires
        children_in_range(children),
        0 <= a < children.len(),
        depth_bounded(children, a, f),
        descends(children, a, x, d),
    ensures
        d < f,
        0 <= x < children.len(),
        depth_bounded(children, x, (f - d) as nat),
    decreases d,
{
    if d > 0 {
        let k = choose|k: int|
            #![trigger children[a][k]]
            child_edge(children, a, k) && descends(children, children[a][k] as int, x, (d - 1) as nat);
        let c = children[a][k] as int;
        assert(c < children.len());
        assert(depth_bounded(children, c, (f - 1) as nat));
        lemma_descends_depth(children, c, x, (d - 1) as nat, (f - 1) as nat);
    }
}

proof fn lemma_no_return(children: Seq<Seq<usize>>, i: int, f: nat, d: nat)
    requires
        children_in_range(children),
        0 <= i < children.len(),
        depth_bounded(children, i, f),
        d > 0,
    ensures
        !descends(children, i, i, d),
    decreases f,
{
    if descends(children, i, i, d) {
        lemma_descends_depth(children, i, i, d, f);
        lemma_no_return(children, i, (f - d) as nat, d);
    }
}

proof fn lemma_descends_compose(children: Seq<Seq<usize>>, a: int, b: int, x: int, d1: nat, d2: nat)
    requires
        descends(children, a, b, d1),
        descends(children, b, x, d2),
    ensures
        descends(children, a, x, d1 + d2),
    decreases d1,
{
    if d1 > 0 {
        let k = choose|k: int|
            #![trigger children[a][k]]
            child_edge(children, a, k) && descends(children, children[a][k] as int, b, (d1 - 1) as nat);
        lemma_descends_compose(children, children[a][k] as int, b, x, (d1 - 1) as nat, d2);
        assert(descends(children, children[a][k] as int, x, (d1 - 1 + d2) as nat));
    }
}

/// The last step of a descent goes through a parent of `x`.
proof fn lemma_descends_last_step(children: Seq<Seq<usize>>, a: int, x: int, d: nat)
    requires
        descends(children, a, x, d),
        d > 0,
    ensures
        exists|p: int, k: int|
            child_edge(children, p, k) && #[trigger] children[p][k] == x && descends(children, a, p, (d - 1) as nat),
    decreases d,
{
    let k = choose|k: int|
        #![trigger children[a][k]]
        child_edge(children, a, k) && descends(children, children[a][k] as int, x, (d - 1) as nat);
    let c = children[a][k] as int;
    if d == 1 {
        assert(children[a][k] == x);
        assert(descends(children, a, a, 0));
    } else {
        lemma_descends_last_step(children, c, x, (d - 1) as nat);
        let (p, q) = choose|p: int, q: int|
            child_edge(children, p, q) && #[trigger] children[p][q] == x && descends(children, c, p, (d - 2) as nat);
        assert(descends(children, a, p, (d - 1) as nat));
        assert(children[p][q] == x);
    }
}

/// Two nodes above `x` lie one above the other, the one further from `x` on top.
proof fn lemma_descends_comparable(children: Seq<Seq<usize>>, a: int, b: int, x: int, da: nat, db: nat)
    requires
        single_parent(children),
        descends(children, a, x, da),
        descends(children, b, x, db),
        da <= db,
    ensures
        descends(children, b, a, (db - da) as nat),
    decreases da,
{
    if da > 0 {
        lemma_descends_last_step(children, a, x, da);
        lemma_descends_last_step(children, b, x, db);
        let (p1, k1) = choose|p: int, k: int|
            child_edge(children, p, k) && #[trigger] children[p][k] == x && descends(children, a, p, (da - 1) as nat);
        let (p2, k2) = choose|p: int, k: int|
            child_edge(children, p, k) && #[trigger] children[p][k] == x && descends(children, b, p, (db - 1) as nat);
        assert(children[p1][k1] == children[p2][k2]);
        assert(p1 == p2);
        lemma_descends_comparable(children, a, b, p1, (da - 1) as nat, (db - 1) as nat);
    }
}

/// The subtrees under two different children of one node, or under two different
/// parentless nodes, share no node.
proof fn lemma_disjoint_under(children: Seq<Seq<usize>>, a: int, b: int, x: int, da: nat, db: nat)
    requires
        children_in_range(children),
        single_parent(children),
        a != b,
        da <= db,
        descends(children, a, x, da),
        descends(children, b, x, db),
    ensures
        da < db,
        exists|p: int, k: int|
            child_edge(children, p, k) && #[trigger] children[p][k] == a && descends(children, b, p, (db - da - 1) as nat),
{
    lemma_descends_comparable(children, a, b, x, da, db);
    lemma_descends_last_step(children, b, a, (db - da) as nat);
}

/// The visit of a list of nodes whose subtrees share no node: each listed node gets `pv` and
/// its own visibility, each child below one of them is visible exactly when it and its
/// parent are, and nodes below none of them keep their values.
proof fn lemma_visit_list_values(
    children: Seq<Seq<usize>>,
    visible: Seq<bool>,
    cs: Seq<usize>,
    pv: bool,
    out: Seq<bool>,
    fuel: nat,
)
    requires
        children_in_range(children),
        single_parent(children),
        out.len() == children.len() == visible.len(),
        forall|k: int| 0 <= k < cs.len() ==> (#[trigger] cs[k]) < children.len(),
        forall|k: int| 0 <= k < cs.len() ==> depth_bounded(children, #[trigger] cs[k] as int, fuel),
        forall|k1: int, k2: int, x: int, d1: nat, d2: nat|
            0 <= k1 < cs.len() && 0 <= k2 < cs.len() && k1 != k2 && #[trigger] descends(children, cs[k1] as int, x, d1)
                ==> !#[trigger] descends(children, cs[k2] as int, x, d2),
    ensures
        ({
            let r = visit_list_spec(children, visible, cs, pv, out, fuel);
            &&& r.len() == out.len()
            &&& forall|k: int| 0 <= k < cs.len() ==> r[#[trigger] cs[k] as int] == (pv && visible[cs[k] as int])
            &&& forall|k: int, p: int, q: int, d: nat|
                0 <= k < cs.len() && child_edge(children, p, q) && #[trigger] descends(children, cs[k] as int, p, d)
                    ==> r[#[trigger] children[p][q] as int] == (visible[children[p][q] as int] && r[p])
            &&& forall|j: int|
                0 <= j < out.len() && (forall|k: int, d: nat| 0 <= k < cs.len() ==> !#[trigger] descends(children, cs[k] as int, j, d))
                    ==> #[trigger] r[j] == out[j]
        }),
    decreases fuel, cs.len() + 1,
{
    lemma_visit_list_len(children, visible, cs, pv, out, fuel);
    if cs.len() > 0 {
        let pre = cs.drop_last();
        let last = cs.last() as int;
        let n = cs.len() - 1;
        assert(cs[n] as int == last);
        let before = visit_list_spec(children, visible, pre, pv, out, fuel);
        assert forall|k1: int, k2: int, x: int, d1: nat, d2: nat|
            0 <= k1 < pre.len() && 0 <= k2 < pre.len() && k1 != k2 && #[trigger] descends(children, pre[k1] as int, x, d1)
                implies !#[trigger] descends(children, pre[k2] as int, x, d2) by {
            assert(pre[k1] == cs[k1] && pre[k2] == cs[k2]);
        }
        assert forall|k: int| 0 <= k < pre.len() implies depth_bounded(children, #[trigger] pre[k] as int, fuel) by {
            assert(pre[k] == cs[k]);
        }
        assert forall|k: int| 0 <= k < pre.len() implies (#[trigger] pre[k]) < children.len() by {
            assert(pre[k] == cs[k]);
        }
        lemma_visit_list_values(children, visible, pre, pv, out, fuel);
        let r = visit_list_spec(children, visible, cs, pv, out, fuel);
        assert(r == visit_spec(children, visible, last, pv, before, fuel));
        assert(depth_bounded(children, last, fuel));
        lemma_visit_values(children, visible, last, pv, before, fuel);
        // Nodes below an earlier listed node are not below the last one.
        assert forall|k: int, x: int, d: nat|
            0 <= k < pre.len() && #[trigger] descends(children, pre[k] as int, x, d) && 0 <= x < out.len() implies r[x] == before[x] by {
            assert(pre[k] == cs[k]);
            assert forall|e: nat| e < fuel implies !#[trigger] descends(children, last, x, e) by {
                if descends(children, last, x, e) {
                    assert(descends(children, cs[k] as int, x, d));
                    assert(descends(children, cs[n] as int, x, e));
                }
            }
            lemma_visit_frame(children, visible, last, pv, before, fuel, x);
        }
        assert forall|k: int| 0 <= k < cs.len() implies r[#[trigger] cs[k] as int] == (pv && visible[cs[k] as int]) by {
            if k < n {
                assert(pre[k] == cs[k]);
                assert(descends(children, pre[k] as int, cs[k] as int, 0));
                lemma_descends_depth(children, pre[k] as int, cs[k] as int, 0, fuel);
            }
        }
        assert forall|k: int, p: int, q: int, d: nat|
            0 <= k < cs.len() && child_edge(children, p, q) && #[trigger] descends(children, cs[k] as int, p, d)
                implies r[#[trigger] children[p][q] as int] == (visible[children[p][q] as int] && r[p]) by {
            if k < n {
                assert(pre[k] == cs[k]);
                let c = children[p][q] as int;
                assert(descends(children, p, c, 1)) by {
                    assert(child_edge(children, p, q) && descends(children, children[p][q] as int, c, 0));
                }
                lemma_descends_compose(children, cs[k] as int, p, c, d, 1);
                lemma_descends_depth(children, cs[k] as int, p, d, fuel);
                lemma_descends_depth(children, cs[k] as int, c, d + 1, fuel);
                assert(descends(children, pre[k] as int, p, d));
                assert(descends(children, pre[k] as int, c, (d + 1) as nat));
            }
        }
        assert forall|j: int|
            0 <= j < out.len() && (forall|k: int, d: nat| 0 <= k < cs.len() ==> !#[trigger] descends(children, cs[k] as int, j, d))
                implies #[trigger] r[j] == out[j] by {
            assert forall|k: int, d: nat| 0 <= k < pre.len() implies !#[trigger] descends(children, pre[k] as int, j, d) by {
                assert(pre[k] == cs[k]);
            }
            assert forall|e: nat| e < fuel implies !#[trigger] descends(children, last, j, e) by {
                assert(!descends(children, cs[n] as int, j, e));
            }
            lemma_visit_frame(children, visible, last, pv, before, fuel, j);
        }
    }
}

/// The visit of one node: it gets `pv` and its own visibility, and each child below it is
/// visible exactly when it and its parent are.
proof fn lemma_visit_values(children: Seq<Seq<usize>>, visible: Seq<bool>, i: int, pv: bool, out: Seq<bool>, fuel: nat)
    requires
        children_in_range(children),
        single_parent(children),
        out.len() == children.len() == visible.len(),
        0 <= i < children.len(),
        depth_bounded(children, i, fuel),
    ensures
        ({
            let r = visit_spec(children, visible, i, pv, out, fuel);
            &&& r[i] == (pv && visible[i])
            &&& forall|p: int, q: int, d: nat|
                child_edge(children, p, q) && #[trigger] descends(children, i, p, d) ==> r[#[trigger] children[p][q] as int]
                    == (visible[children[p][q] as int] && r[p])
        }),
    decreases fuel, 0nat,
{
    let v = pv && visible[i];
    let written = out.update(i, v);
    let f1 = (fuel - 1) as nat;
    let cs = children[i];
    assert forall|k: int| 0 <= k < cs.len() implies (#[trigger] cs[k]) < children.len() by {
        assert(child_edge(children, i, k));
    }
    assert forall|k1: int, k2: int, x: int, d1: nat, d2: nat|
        0 <= k1 < cs.len() && 0 <= k2 < cs.len() && k1 != k2 && #[trigger] descends(children, cs[k1] as int, x, d1)
            implies !#[trigger] descends(children, cs[k2] as int, x, d2) by {
        if descends(children, cs[k2] as int, x, d2) {
            assert(child_edge(children, i, k1) && child_edge(children, i, k2));
            if cs[k1] == cs[k2] {
                assert(children[i][k1] == children[i][k2]);
            } else {
                let (a, b, da, db) = if d1 <= d2 {
                    (cs[k1] as int, cs[k2] as int, d1, d2)
                } else {
                    (cs[k2] as int, cs[k1] as int, d2, d1)
                };
                lemma_disjoint_under(children, a, b, x, da, db);
                let (p, q) = choose|p: int, q: int|
                    child_edge(children, p, q) && #[trigger] children[p][q] == a && descends(children, b, p, (db - da - 1) as nat);
                // `a` is a child of `i`, so its only parent is `i`: `i` lies below its child `b`.
                let ka = if a == cs[k1] as int { k1 } else { k2 };
                let kb = if a == cs[k1] as int { k2 } else { k1 };
                assert(children[i][ka] == a);
                assert(children[p][q] == children[i][ka]);
                assert(p == i);
                assert(descends(children, i, b, 1)) by {
                    assert(child_edge(children, i, kb) && descends(children, children[i][kb] as int, b, 0));
                }
                lemma_descends_compose(children, i, b, i, 1, (db - da - 1) as nat);
                lemma_no_return(children, i, fuel, (1 + (db - da - 1)) as nat);
            }
        }
    }
    assert forall|k: int| 0 <= k < cs.len() implies depth_bounded(children, #[trigger] cs[k] as int, f1) by {
        assert(children[i][k] == cs[k]);
    }
    lemma_visit_list_values(children, visible, cs, v, written, f1);
    let r = visit_spec(children, visible, i, pv, out, fuel);
    assert(r == visit_list_spec(children, visible, cs, v, written, f1));
    // `i` lies below none of its children.
    assert forall|k: int, d: nat| 0 <= k < cs.len() implies !#[trigger] descends(children, cs[k] as int, i, d) by {
        if descends(children, cs[k] as int, i, d) {
            assert(descends(children, i, cs[k] as int, 1)) by {
                assert(child_edge(children, i, k) && descends(children, children[i][k] as int, cs[k] as int, 0));
            }
            lemma_descends_compose(children, i, cs[k] as int, i, 1, d);
            lemma_no_return(children, i, fuel, (1 + d) as nat);
        }
    }
    assert(r[i] == written[i]);
    assert forall|p: int, q: int, d: nat|
        child_edge(children, p, q) && #[trigger] descends(children, i, p, d) implies r[#[trigger] children[p][q] as int]
            == (visible[children[p][q] as int] && r[p]) by {
        if d == 0 {
            assert(p == i);
            assert(cs[q] == children[p][q]);
        } else {
            let k = choose|k: int|
                #![trigger children[i][k]]
                child_edge(children, i, k) && descends(children, children[i][k] as int, p, (d - 1) as nat);
            assert(cs[k] == children[i][k]);
            assert(descends(children, cs[k] as int, p, (d - 1) as nat));
        }
    }
}

/// In a forest walked from parentless roots, each listed once: a root is effectively
/// visible exactly when it is visible, a child exactly when it and its parent are (so a
/// node is effectively visible exactly when it and every node above it are), and a node
/// that no listed root leads to stays hidden.
pub proof fn lemma_effective_visibility_in_forest(children: Seq<Seq<usize>>, visible: Seq<bool>, roots: Seq<usize>)
    requires
        visible.len() == children.len(),
        children_in_range(children),
        single_parent(children),
        forall|k: int| 0 <= k < roots.len() ==> (#[trigger] roots[k]) < children.len(),
        forall|k1: int, k2: int| 0 <= k1 < k2 < roots.len() ==> #[trigger] roots[k1] != #[trigger] roots[k2],
        forall|k: int, p: int, q: int| 0 <= k < roots.len() && child_edge(children, p, q) ==> #[trigger] children[p][q]
            != #[trigger] roots[k],
        forall|k: int| 0 <= k < roots.len() ==> depth_bounded(children, #[trigger] roots[k] as int, (children.len() + 1) as nat),
    ensures
        ({
            let e = effective_visibility(children, visible, roots);
            &&& e.len() == children.len()
            &&& forall|k: int| 0 <= k < roots.len() ==> e[#[trigger] roots[k] as int] == visible[roots[k] as int]
            &&& forall|p: int, q: int| child_edge(children, p, q) ==> e[#[trigger] children[p][q] as int] == (visible[children[p][q] as int] && e[p])
            &&& forall|j: int|
                0 <= j < children.len() && (forall|k: int| 0 <= k < roots.len() ==> #[trigger] roots[k] != j) && (forall|p: int, q: int|
                    child_edge(children, p, q) ==> #[trigger] children[p][q] != j) ==> !#[trigger] e[j]
        }),
{
    let n = children.len();
    let start = Seq::new(n, |i: int| false);
    let fuel = (n + 1) as nat;
    assert forall|k1: int, k2: int, x: int, d1: nat, d2: nat|
        0 <= k1 < roots.len() && 0 <= k2 < roots.len() && k1 != k2 && #[trigger] descends(children, roots[k1] as int, x, d1)
            implies !#[trigger] descends(children, roots[k2] as int, x, d2) by {
        if descends(children, roots[k2] as int, x, d2) {
            if k1 < k2 {
                assert(roots[k1] != roots[k2]);
            } else {
                assert(roots[k2] != roots[k1]);
            }
            let (a, b, da, db, ka) = if d1 <= d2 {
                (roots[k1] as int, roots[k2] as int, d1, d2, k1)
            } else {
                (roots[k2] as int, roots[k1] as int, d2, d1, k2)
            };
            lemma_disjoint_under(children, a, b, x, da, db);
            let (p, q) = choose|p: int, q: int|
                child_edge(children, p, q) && #[trigger] children[p][q] == a && descends(children, b, p, (db - da - 1) as nat);
            assert(children[p][q] != roots[ka]);
        }
    }
    lemma_visit_list_values(children, visible, roots, true, start, fuel);
    let e = effective_visibility(children, visible, roots);
    assert forall|p: int, q: int| child_edge(children, p, q) implies e[#[trigger] children[p][q] as int] == (visible[children[p][q] as int]
        && e[p]) by {
        let c = children[p][q] as int;
        if exists|k: int, d: nat| 0 <= k < roots.len() && #[trigger] descends(children, roots[k] as int, p, d) {
        } else {
            assert forall|k: int, d: nat| 0 <= k < roots.len() implies !#[trigger] descends(children, roots[k] as int, c, d) by {
                if descends(children, roots[k] as int, c, d) {
                    if d == 0 {
                        assert(children[p][q] != roots[k]);
                    } else {
                        lemma_descends_last_step(children, roots[k] as int, c, d);
                        let (p2, q2) = choose|p2: int, q2: int|
                            child_edge(children, p2, q2) && #[trigger] children[p2][q2] == c && descends(
                                children,
                                roots[k] as int,
                                p2,
                                (d - 1) as nat,
                            );
                        assert(children[p2][q2] == children[p][q]);
                        assert(p2 == p);
                    }
                }
            }
            assert(c < n);
            assert(e[c] == start[c]);
            assert(e[p] == start[p]);
        }
    }
    assert forall|j: int|
        0 <= j < children.len() && (forall|k: int| 0 <= k < roots.len() ==> #[trigger] roots[k] != j) && (forall|p: int, q: int|
            child_edge(children, p, q) ==> #[trigger] children[p][q] != j) implies !#[trigger] e[j] by {
        assert forall|k: int, d: nat| 0 <= k < roots.len() implies !#[trigger] descends(children, roots[k] as int, j, d) by {
            if descends(children, roots[k] as int, j, d) {
                if d == 0 {
                    assert(roots[k] != j);
                } else {
                    lemma_descends_last_step(children, roots[k] as int, j, d);
                }
            }
        }
        assert(e[j] == start[j]);
    }
}

} // verus!
