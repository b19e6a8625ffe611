//! The inheritance tree as a mathematical object: parent links, the
//! ancestor relation, and what the tags and families say about it.

use std::ops::Range;
use vstd::prelude::*;

verus! {

/// Every parent link points at a class of the table.
pub open spec fn parents_in_range(parents: Seq<Option<int>>) -> bool {
    forall|i: int|
        0 <= i < parents.len() ==> (#[trigger] parents[i] matches Some(p) ==> 0 <= p
            < parents.len())
}

/// The class reached from class `i` by following `k` parent links.
pub open spec fn nth_ancestor(parents: Seq<Option<int>>, i: int, k: nat) -> Option<int>
    decreases k,
{
    if !(0 <= i < parents.len()) {
        None
    } else if k == 0 {
        Some(i)
    } else {
        match parents[i] {
            Some(p) => nth_ancestor(parents, p, (k - 1) as nat),
            None => None,
        }
    }
}

/// Class `d` is class `c` or one of its descendants.
pub open spec fn descends(parents: Seq<Option<int>>, d: int, c: int) -> bool {
    exists|k: nat| nth_ancestor(parents, d, k) == Some(c)
}

/// Whether `tag` lies in the family.
pub open spec fn in_family(family: Range<u32>, tag: u32) -> bool {
    family.start <= tag < family.end
}

/// The tags and families describe the tree: the root has tag 0, every class
/// descends from it, no two classes share a tag, and the family of a class
/// holds the tags of the class and of its descendants, and no other tag.
pub open spec fn tree_ok(parents: Seq<Option<int>>, families: Seq<Range<u32>>, root: int) -> bool {
    &&& parents.len() == families.len()
    &&& 0 <= root < parents.len()
    &&& parents[root] is None
    &&& parents_in_range(parents)
    &&& families[root].start == 0
    &&& forall|i: int| 0 <= i < parents.len() ==> (#[trigger] families[i]).end <= parents.len()
    &&& forall|i: int| 0 <= i < parents.len() ==> descends(parents, i, root)
    &&& forall|i: int, j: int|
        0 <= i < parents.len() && 0 <= j < parents.len() && i != j ==> (
        #[trigger] families[i]).start != (#[trigger] families[j]).start
    &&& forall|c: int, d: int|
        0 <= c < parents.len() && 0 <= d < parents.len() ==> (#[trigger] descends(parents, d, c)
            <==> in_family(families[c], families[d].start))
}

/// Every class descends from itself.
pub proof fn lemma_descends_self(parents: Seq<Option<int>>, i: int)
    requires
        0 <= i < parents.len(),
    ensures
        descends(parents, i, i),
{
    assert(nth_ancestor(parents, i, 0) == Some(i));
}

/// A class that descends from another is a class of the table, and so is
/// the other.
pub proof fn lemma_nth_in_range(parents: Seq<Option<int>>, i: int, k: nat)
    requires
        parents_in_range(parents),
        nth_ancestor(parents, i, k) is Some,
    ensures
        0 <= i < parents.len(),
        0 <= nth_ancestor(parents, i, k).unwrap() < parents.len(),
    decreases k,
{
    if k > 0 {
        lemma_nth_in_range(parents, parents[i].unwrap(), (k - 1) as nat);
    }
}

/// Following `k1` links to a class and `k2` more from there is following
/// `k1 + k2` links.
pub proof fn lemma_nth_compose(
    parents: Seq<Option<int>>,
    a: int,
    k1: nat,
    b: int,
    k2: nat,
    c: int,
)
    requires
        nth_ancestor(parents, a, k1) == Some(b),
        nth_ancestor(parents, b, k2) == Some(c),
    ensures
        nth_ancestor(parents, a, k1 + k2) == Some(c),
    decreases k1,
{
    if k1 > 0 {
        lemma_nth_compose(parents, parents[a].unwrap(), (k1 - 1) as nat, b, k2, c);
    }
}

/// Where `k1 + k2` links can be followed, so can the first `k1`, and the
/// other `k2` lead on from where they end.
pub proof fn lemma_nth_split(parents: Seq<Option<int>>, a: int, k1: nat, k2: nat)
    requires
        nth_ancestor(parents, a, k1 + k2) is Some,
    ensures
        nth_ancestor(parents, a, k1) is Some,
        nth_ancestor(parents, nth_ancestor(parents, a, k1).unwrap(), k2) == nth_ancestor(
            parents,
            a,
            k1 + k2,
        ),
    decreases k1,
{
    if k1 > 0 {
        lemma_nth_split(parents, parents[a].unwrap(), (k1 - 1) as nat, k2);
    }
}

/// A class descends from whatever a class that it descends from descends
/// from.
pub proof fn lemma_descends_trans(parents: Seq<Option<int>>, a: int, b: int, c: int)
    requires
        descends(parents, a, b),
        descends(parents, b, c),
    ensures
        descends(parents, a, c),
{
    let k1 = choose|k: nat| nth_ancestor(parents, a, k) == Some(b);
    let k2 = choose|k: nat| nth_ancestor(parents, b, k) == Some(c);
    lemma_nth_compose(parents, a, k1, b, k2, c);
}

/// A class descends from whatever its parent descends from.
pub proof fn lemma_descends_step(parents: Seq<Option<int>>, x: int, c: int)
    requires
        0 <= x < parents.len(),
        parents[x] is Some,
        descends(parents, parents[x].unwrap(), c),
    ensures
        descends(parents, x, c),
{
    let k = choose|k: nat| nth_ancestor(parents, parents[x].unwrap(), k) == Some(c);
    assert(nth_ancestor(parents, x, k + 1) == Some(c));
}

/// A class that descends from another class has a parent, and the parent
/// descends from that class too.
pub proof fn lemma_descends_unstep(parents: Seq<Option<int>>, x: int, c: int)
    requires
        descends(parents, x, c),
        x != c,
    ensures
        0 <= x < parents.len(),
        parents[x] is Some,
        descends(parents, parents[x].unwrap(), c),
{
    let k = choose|k: nat| nth_ancestor(parents, x, k) == Some(c);
    assert(k > 0);
    assert(nth_ancestor(parents, parents[x].unwrap(), (k - 1) as nat) == Some(c));
}

/// In a tree that the tags describe, two classes that descend from each
/// other are one class.
pub proof fn lemma_descends_antisymmetric(
    parents: Seq<Option<int>>,
    families: Seq<Range<u32>>,
    root: int,
    a: int,
    b: int,
)
    requires
        tree_ok(parents, families, root),
        descends(parents, a, b),
        descends(parents, b, a),
    ensures
        a == b,
{
    let k = choose|k: nat| nth_ancestor(parents, a, k) == Some(b);
    lemma_nth_in_range(parents, a, k);
    assert(descends(parents, a, b) <==> in_family(families[b], families[a].start));
    assert(descends(parents, b, a) <==> in_family(families[a], families[b].start));
}

/// A class that is its own parent has no other ancestor.
pub proof fn lemma_self_parent(parents: Seq<Option<int>>, x: int, k: nat)
    requires
        0 <= x < parents.len(),
        parents[x] == Some(x),
    ensures
        nth_ancestor(parents, x, k) == Some(x),
    decreases k,
{
    if k > 0 {
        lemma_self_parent(parents, x, (k - 1) as nat);
    }
}

/// In a tree that the tags describe, the tag of a class lies in its own
/// family and below the number of classes, and the parent of a class has a
/// smaller tag.
pub proof fn lemma_tag_bounds(
    parents: Seq<Option<int>>,
    families: Seq<Range<u32>>,
    root: int,
    x: int,
)
    requires
        tree_ok(parents, families, root),
        0 <= x < parents.len(),
    ensures
        families[x].start < families[x].end,
        families[x].end <= parents.len(),
        parents[x] matches Some(p) ==> 0 <= p < parents.len() && families[p].start
            < families[x].start,
{
    lemma_descends_self(parents, x);
    assert(descends(parents, x, x) <==> in_family(families[x], families[x].start));
    if let Some(p) = parents[x] {
        lemma_descends_self(parents, p);
        lemma_descends_step(parents, x, p);
        assert(descends(parents, x, p) <==> in_family(families[p], families[x].start));
        if p == x {
            assert(descends(parents, x, root));
            let k = choose|k: nat| nth_ancestor(parents, x, k) == Some(root);
            lemma_self_parent(parents, x, k);
            assert(x == root);
        } else {
            assert(families[p].start != families[x].start);
        }
    }
}

} // verus!
