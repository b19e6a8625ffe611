//! The depth-first walk that gives every class its tag and its family.

use crate::semant::hierarchy::{
    descends, in_family, tree_ok, lemma_descends_self, lemma_descends_step, lemma_descends_trans,
    lemma_descends_unstep, nth_ancestor, parents_in_range,
};
use std::ops::Range;
use vstd::prelude::*;

verus! {

/// The number of entries that hold nothing.
pub open spec fn count_none(s: Seq<Option<u32>>) -> nat
    decreases s.len(),
{
    if s.len() == 0 {
        0
    } else {
        count_none(s.drop_last()) + if s.last() is None {
            1nat
        } else {
            0nat
        }
    }
}

proof fn lemma_count_none_bound(s: Seq<Option<u32>>)
    ensures
        count_none(s) <= s.len(),
    decreases s.len(),
{
    if s.len() > 0 {
        lemma_count_none_bound(s.drop_last());
    }
}

proof fn lemma_count_none_fill(s: Seq<Option<u32>>, i: int, v: u32)
    requires
        0 <= i < s.len(),
        s[i] is None,
    ensures
        count_none(s.update(i, Some(v))) + 1 == count_none(s),
    decreases s.len(),
{
    let s2 = s.update(i, Some(v));
    if i == s.len() - 1 {
        assert(s2.drop_last() =~= s.drop_last());
    } else {
        assert(s2.drop_last() =~= s.drop_last().update(i, Some(v)));
        lemma_count_none_fill(s.drop_last(), i, v);
    }
}

proof fn lemma_count_none_all(s: Seq<Option<u32>>)
    requires
        forall|i: int| 0 <= i < s.len() ==> s[i] is None,
    ensures
        count_none(s) == s.len(),
    decreases s.len(),
{
    if s.len() > 0 {
        lemma_count_none_all(s.drop_last());
    }
}

/// The classes among the first `m` whose parent is `c`, in table order.
pub open spec fn children_upto(parents: Seq<Option<int>>, c: int, m: nat) -> Seq<int>
    decreases m,
{
    if m == 0 {
        Seq::empty()
    } else {
        let rest = children_upto(parents, c, (m - 1) as nat);
        if m <= parents.len() && parents[m - 1] == Some(c) {
            rest.push(m - 1)
        } else {
            rest
        }
    }
}

/// The children of class `c`, in table order.
pub open spec fn children_of(parents: Seq<Option<int>>, c: int) -> Seq<int> {
    children_upto(parents, c, parents.len())
}

/// The children among the first `m` classes: exactly the classes among
/// them whose parent is `c`, in rising order.
pub proof fn lemma_children_upto(parents: Seq<Option<int>>, c: int, m: nat)
    requires
        m <= parents.len(),
    ensures
        forall|y: int|
            children_upto(parents, c, m).contains(y) <==> 0 <= y < m && parents[y] == Some(c),
        forall|j: int|
            0 <= j < children_upto(parents, c, m).len() ==> 0 <= #[trigger] children_upto(
                parents,
                c,
                m,
            )[j] < m,
        forall|i: int, j: int|
            0 <= i < j < children_upto(parents, c, m).len() ==> children_upto(parents, c, m)[i]
                < children_upto(parents, c, m)[j],
    decreases m,
{
    if m > 0 {
        let rest = children_upto(parents, c, (m - 1) as nat);
        lemma_children_upto(parents, c, (m - 1) as nat);
        let cur = children_upto(parents, c, m);
        assert forall|y: int| cur.contains(y) <==> 0 <= y < m && parents[y] == Some(c) by {
            if parents[m - 1] == Some(c) {
                if cur.contains(y) {
                    let j = choose|j: int| 0 <= j < cur.len() && cur[j] == y;
                    if j < rest.len() {
                        assert(rest[j] == y);
                        assert(rest.contains(y));
                    }
                }
                if 0 <= y < m && parents[y] == Some(c) {
                    if y == m - 1 {
                        assert(cur[rest.len() as int] == y);
                    } else {
                        assert(rest.contains(y));
                        let j = choose|j: int| 0 <= j < rest.len() && rest[j] == y;
                        assert(cur[j] == y);
                    }
                }
            }
        }
    }
}

/// The children lists hold, for every class, its children in table order.
pub open spec fn kids_ok(parents: Seq<Option<int>>, kids: Seq<Seq<int>>) -> bool {
    &&& kids.len() == parents.len()
    &&& forall|c: int| 0 <= c < kids.len() ==> #[trigger] kids[c] == children_of(parents, c)
}

/// The children lists as sequences of integers.
pub open spec fn kids_of(children: Seq<Vec<usize>>) -> Seq<Seq<int>> {
    Seq::new(children.len(), |c: int| Seq::new(children[c].len() as nat, |j: int| children[c][j] as int))
}

/// What holds of a class whose subtree has been walked: its children are
/// walked and their families lie side by side inside its own, from the tag
/// after its own tag to the end of its family; and every tag in its family
/// belongs to the class or to a descendant.
pub open spec fn finished_ok(
    parents: Seq<Option<int>>,
    kids: Seq<Seq<int>>,
    tags: Seq<Option<u32>>,
    ends: Seq<Option<u32>>,
    x: int,
) -> bool {
    &&& tags[x] is Some
    &&& ends[x] is Some
    &&& tags[x].unwrap() < ends[x].unwrap()
    &&& forall|j: int|
        0 <= j < kids[x].len() ==> {
            &&& tags[#[trigger] kids[x][j]] is Some
            &&& ends[kids[x][j]] is Some
            &&& tags[x].unwrap() < tags[kids[x][j]].unwrap()
            &&& ends[kids[x][j]].unwrap() <= ends[x].unwrap()
        }
    &&& laid_out(kids[x], tags, ends, tags[x].unwrap(), ends[x].unwrap(), kids[x].len() as int)
    &&& forall|y: int|
        0 <= y < tags.len() && (#[trigger] tags[y]) is Some && tags[x].unwrap() <= tags[y].unwrap()
            < ends[x].unwrap() ==> descends(parents, y, x)
}

/// The families of the first `j` children in `ch` lie side by side, from
/// `tag + 1` to `upto`.
pub open spec fn laid_out(
    ch: Seq<int>,
    tags: Seq<Option<u32>>,
    ends: Seq<Option<u32>>,
    tag: u32,
    upto: u32,
    j: int,
) -> bool {
    if j == 0 {
        upto == tag + 1
    } else {
        &&& tags[ch[0]] == Some((tag + 1) as u32)
        &&& ends[ch[j - 1]] == Some(upto)
        &&& forall|i: int|
            0 <= i < j - 1 ==> tags[#[trigger] ch[i + 1]].unwrap() == ends[ch[i]].unwrap()
    }
}

/// What holds between the steps of the walk.
#[verifier::opaque]
pub open spec fn walk_inv(
    parents: Seq<Option<int>>,
    kids: Seq<Seq<int>>,
    tags: Seq<Option<u32>>,
    ends: Seq<Option<u32>>,
    counter: u32,
) -> bool {
    &&& tags.len() == parents.len()
    &&& ends.len() == parents.len()
    &&& counter + count_none(tags) == parents.len()
    &&& forall|x: int| 0 <= x < tags.len() ==> (#[trigger] tags[x] matches Some(v) ==> v < counter)
    &&& forall|x: int|
        0 <= x < tags.len() && (#[trigger] tags[x]) is Some && parents[x] is Some ==> {
            &&& tags[parents[x].unwrap()] is Some
            &&& tags[parents[x].unwrap()].unwrap() < tags[x].unwrap()
        }
    &&& forall|x: int, y: int|
        0 <= x < tags.len() && 0 <= y < tags.len() && x != y && (#[trigger] tags[x]) is Some && (
        #[trigger] tags[y]) is Some ==> tags[x].unwrap() != tags[y].unwrap()
    &&& forall|x: int|
        0 <= x < ends.len() && (#[trigger] ends[x]) is Some ==> ends[x].unwrap() <= counter
            && finished_ok(parents, kids, tags, ends, x)
}

/// What was tagged before is as it was.
pub open spec fn frame(
    tags0: Seq<Option<u32>>,
    ends0: Seq<Option<u32>>,
    tags: Seq<Option<u32>>,
    ends: Seq<Option<u32>>,
) -> bool {
    &&& tags.len() == tags0.len()
    &&& ends.len() == ends0.len()
    &&& forall|x: int|
        0 <= x < tags0.len() && (#[trigger] tags0[x]) is Some ==> tags[x] == tags0[x] && ends[x]
            == ends0[x]
}

/// An ancestor of a tagged class is tagged, with a tag that is not larger.
proof fn lemma_ancestor_tag(
    parents: Seq<Option<int>>,
    kids: Seq<Seq<int>>,
    tags: Seq<Option<u32>>,
    ends: Seq<Option<u32>>,
    counter: u32,
    x: int,
    k: nat,
)
    requires
        walk_inv(parents, kids, tags, ends, counter),
        parents_in_range(parents),
        0 <= x < tags.len(),
        tags[x] is Some,
        nth_ancestor(parents, x, k) is Some,
    ensures
        tags[nth_ancestor(parents, x, k).unwrap()] is Some,
        tags[nth_ancestor(parents, x, k).unwrap()].unwrap() <= tags[x].unwrap(),
    decreases k,
{
    reveal(walk_inv);
    if k > 0 {
        lemma_ancestor_tag(parents, kids, tags, ends, counter, parents[x].unwrap(), (k - 1) as nat);
    }
}

/// The children lists hold classes of the table, each list in rising
/// order, and every class stands in the list of its parent.
pub proof fn lemma_kids(parents: Seq<Option<int>>, kids: Seq<Seq<int>>)
    requires
        kids_ok(parents, kids),
    ensures
        forall|c: int, j: int|
            0 <= c < parents.len() && 0 <= j < kids[c].len() ==> 0 <= (#[trigger] kids[c][j])
                < parents.len() && parents[kids[c][j]] == Some(c),
        forall|c: int, i: int, j: int|
            0 <= c < parents.len() && 0 <= i < j < kids[c].len() ==> (#[trigger] kids[c][i]) < (
            #[trigger] kids[c][j]),
        forall|c: int, y: int|
            0 <= c < parents.len() && 0 <= y < parents.len() && parents[y] == Some(c)
                ==> #[trigger] kids[c].contains(y),
{
    assert forall|c: int| 0 <= c < parents.len() implies {
        &&& forall|j: int|
            0 <= j < (#[trigger] kids[c]).len() ==> 0 <= (#[trigger] kids[c][j]) < parents.len()
                && parents[kids[c][j]] == Some(c)
        &&& forall|i: int, j: int|
            0 <= i < j < kids[c].len() ==> (#[trigger] kids[c][i]) < (#[trigger] kids[c][j])
        &&& forall|y: int|
            0 <= y < parents.len() && parents[y] == Some(c) ==> #[trigger] kids[c].contains(y)
    } by {
        lemma_children_upto(parents, c, parents.len());
        assert(kids[c] == children_of(parents, c));
        assert forall|j: int| 0 <= j < kids[c].len() implies 0 <= (#[trigger] kids[c][j])
            < parents.len() && parents[kids[c][j]] == Some(c) by {
            assert(kids[c].contains(kids[c][j]));
        }
    }
}

/// A walked class stays as it is when tags and ends are only added, and
/// the added tags lie behind its family.
proof fn lemma_finished_stays(
    parents: Seq<Option<int>>,
    kids: Seq<Seq<int>>,
    tags: Seq<Option<u32>>,
    ends: Seq<Option<u32>>,
    tags2: Seq<Option<u32>>,
    ends2: Seq<Option<u32>>,
    x: int,
)
    requires
        kids_ok(parents, kids),
        tags.len() == parents.len(),
        ends.len() == parents.len(),
        tags2.len() == parents.len(),
        ends2.len() == parents.len(),
        0 <= x < parents.len(),
        ends[x] is Some,
        finished_ok(parents, kids, tags, ends, x),
        forall|y: int| 0 <= y < tags.len() && (#[trigger] tags[y]) is Some ==> tags2[y] == tags[y],
        forall|y: int| 0 <= y < ends.len() && (#[trigger] ends[y]) is Some ==> ends2[y] == ends[y],
        forall|y: int|
            0 <= y < tags.len() && tags[y] is None && (#[trigger] tags2[y]) is Some
                ==> tags2[y].unwrap() >= ends[x].unwrap(),
    ensures
        finished_ok(parents, kids, tags2, ends2, x),
{
    lemma_kids(parents, kids);
    let ch = kids[x];
    assert forall|j: int| 0 <= j < ch.len() implies {
        &&& tags2[#[trigger] ch[j]] is Some
        &&& ends2[ch[j]] is Some
        &&& tags2[x].unwrap() < tags2[ch[j]].unwrap()
        &&& ends2[ch[j]].unwrap() <= ends2[x].unwrap()
    } by {
        assert(tags[ch[j]] is Some);
        assert(ends[ch[j]] is Some);
    }
    let n = ch.len() as int;
    if n > 0 {
        assert(tags[ch[0]] is Some);
        assert(ends[ch[n - 1]] is Some);
        assert forall|i: int| 0 <= i < n - 1 implies tags2[#[trigger] ch[i + 1]].unwrap()
            == ends2[ch[i]].unwrap() by {
            assert(tags[ch[i + 1]] is Some);
            assert(ends[ch[i]] is Some);
        }
    }
    assert(laid_out(ch, tags2, ends2, tags2[x].unwrap(), ends2[x].unwrap(), n));
    assert forall|y: int|
        0 <= y < tags2.len() && (#[trigger] tags2[y]) is Some && tags2[x].unwrap() <= tags2[y].unwrap()
            < ends2[x].unwrap() implies descends(parents, y, x) by {
        if tags[y] is None {
            assert(tags2[y].unwrap() >= ends[x].unwrap());
        } else {
            assert(tags[y] is Some);
        }
    }
}

/// What holds while the walk stands at class `c`, whose tag is `counter`,
/// with the first `j` children walked and `next` the first unused tag.
#[verifier::opaque]
pub open spec fn visiting(
    parents: Seq<Option<int>>,
    kids: Seq<Seq<int>>,
    tags0: Seq<Option<u32>>,
    ends0: Seq<Option<u32>>,
    tags: Seq<Option<u32>>,
    ends: Seq<Option<u32>>,
    c: int,
    counter: u32,
    next: u32,
    j: int,
) -> bool {
    &&& walk_inv(parents, kids, tags, ends, next)
    &&& frame(tags0, ends0, tags, ends)
    &&& 0 <= c < parents.len()
    &&& 0 <= j <= kids[c].len()
    &&& tags0[c] is None
    &&& tags[c] == Some(counter)
    &&& ends[c] is None
    &&& counter < next
    &&& laid_out(kids[c], tags, ends, counter, next, j)
    &&& forall|i: int|
        0 <= i < j ==> {
            &&& tags[#[trigger] kids[c][i]] is Some
            &&& ends[kids[c][i]] is Some
            &&& counter < tags[kids[c][i]].unwrap()
            &&& ends[kids[c][i]].unwrap() <= next
        }
    &&& forall|x: int|
        0 <= x < parents.len() && x != c && tags0[x] is None && (#[trigger] tags[x]) is Some ==> {
            &&& ends[x] is Some
            &&& tags[x].unwrap() > counter
            &&& exists|i: int| 0 <= i < j && #[trigger] descends(parents, x, kids[c][i])
        }
}

/// What a walk of the subtree of class `c` leaves behind.
#[verifier::opaque]
pub open spec fn visited(
    parents: Seq<Option<int>>,
    kids: Seq<Seq<int>>,
    tags0: Seq<Option<u32>>,
    ends0: Seq<Option<u32>>,
    tags: Seq<Option<u32>>,
    ends: Seq<Option<u32>>,
    c: int,
    counter: u32,
    e: u32,
) -> bool {
    &&& walk_inv(parents, kids, tags, ends, e)
    &&& frame(tags0, ends0, tags, ends)
    &&& tags[c] == Some(counter)
    &&& ends[c] == Some(e)
    &&& counter < e
    &&& forall|x: int|
        0 <= x < parents.len() && tags0[x] is None && (#[trigger] tags[x]) is Some ==> ends[x] is Some
            && tags[x].unwrap() >= counter && descends(parents, x, c)
}

proof fn lemma_visit_begin(
    parents: Seq<Option<int>>,
    kids: Seq<Seq<int>>,
    tags0: Seq<Option<u32>>,
    ends0: Seq<Option<u32>>,
    c: int,
    counter: u32,
)
    requires
        parents_in_range(parents),
        parents.len() <= u32::MAX,
        kids_ok(parents, kids),
        walk_inv(parents, kids, tags0, ends0, counter),
        0 <= c < parents.len(),
        tags0[c] is None,
        parents[c] matches Some(p) ==> tags0[p] is Some,
    ensures
        counter < parents.len(),
        tags0.len() == parents.len(),
        ends0.len() == parents.len(),
        visiting(
            parents,
            kids,
            tags0,
            ends0,
            tags0.update(c, Some(counter)),
            ends0,
            c,
            counter,
            (counter + 1) as u32,
            0,
        ),
{
    reveal(walk_inv);
    reveal(visiting);
    let tags = tags0.update(c, Some(counter));
    lemma_count_none_fill(tags0, c, counter);
    lemma_count_none_bound(tags);
    lemma_kids(parents, kids);
    if ends0[c] is Some {
        assert(finished_ok(parents, kids, tags0, ends0, c));
    }
    let next = (counter + 1) as u32;
    assert forall|x: int| 0 <= x < ends0.len() && (#[trigger] ends0[x]) is Some implies ends0[x].unwrap()
        <= next && finished_ok(parents, kids, tags, ends0, x) by {
        lemma_finished_stays(parents, kids, tags0, ends0, tags, ends0, x);
    }
    assert forall|x: int|
        0 <= x < tags.len() && (#[trigger] tags[x]) is Some && parents[x] is Some implies {
        &&& tags[parents[x].unwrap()] is Some
        &&& tags[parents[x].unwrap()].unwrap() < tags[x].unwrap()
    } by {
        if x == c {
            assert(tags0[parents[c].unwrap()] is Some);
        } else {
            assert(tags0[x] is Some);
            assert(tags0[parents[x].unwrap()] is Some);
        }
    }
    assert(walk_inv(parents, kids, tags, ends0, next));
}

proof fn lemma_child_untagged(
    parents: Seq<Option<int>>,
    kids: Seq<Seq<int>>,
    tags0: Seq<Option<u32>>,
    ends0: Seq<Option<u32>>,
    tags: Seq<Option<u32>>,
    ends: Seq<Option<u32>>,
    c: int,
    counter: u32,
    next: u32,
    j: int,
)
    requires
        parents_in_range(parents),
        kids_ok(parents, kids),
        walk_inv(parents, kids, tags0, ends0, counter),
        visiting(parents, kids, tags0, ends0, tags, ends, c, counter, next, j),
        j < kids[c].len(),
    ensures
        0 <= kids[c][j] < parents.len(),
        parents[kids[c][j]] == Some(c),
        tags[c] is Some,
        tags[kids[c][j]] is None,
        next < parents.len(),
        counter < next,
        tags.len() == parents.len(),
        ends.len() == parents.len(),
        walk_inv(parents, kids, tags, ends, next),
{
    reveal(walk_inv);
    reveal(visiting);
    let ch = kids[c];
    let kk = ch[j];
    lemma_kids(parents, kids);
    if tags[kk] is Some {
        if tags0[kk] is Some {
            assert(tags0[parents[kk].unwrap()] is Some);
        } else {
            assert(kk != c);
            let i = choose|i: int| 0 <= i < j && #[trigger] descends(parents, kk, ch[i]);
            assert(ch[i] < ch[j]);
            lemma_descends_unstep(parents, kk, ch[i]);
            let m = choose|m: nat| nth_ancestor(parents, c, m) == Some(ch[i]);
            lemma_ancestor_tag(parents, kids, tags, ends, next, c, m);
            assert(false);
        }
    }
    lemma_count_none_fill(tags, kk, next);
    lemma_count_none_bound(tags.update(kk, Some(next)));
}

proof fn lemma_child_done(
    parents: Seq<Option<int>>,
    kids: Seq<Seq<int>>,
    tags0: Seq<Option<u32>>,
    ends0: Seq<Option<u32>>,
    tags1: Seq<Option<u32>>,
    ends1: Seq<Option<u32>>,
    tags2: Seq<Option<u32>>,
    ends2: Seq<Option<u32>>,
    c: int,
    counter: u32,
    next1: u32,
    next2: u32,
    j: int,
)
    requires
        parents_in_range(parents),
        kids_ok(parents, kids),
        visiting(parents, kids, tags0, ends0, tags1, ends1, c, counter, next1, j),
        j < kids[c].len(),
        visited(parents, kids, tags1, ends1, tags2, ends2, kids[c][j], next1, next2),
    ensures
        visiting(parents, kids, tags0, ends0, tags2, ends2, c, counter, next2, j + 1),
{
    reveal(visiting);
    reveal(visited);
    lemma_kids(parents, kids);
    assert(tags1.len() == parents.len() && ends1.len() == parents.len()) by {
        reveal(walk_inv);
    }
    let ch = kids[c];
    let k = ch[j];
    assert(tags1[c] is Some);
    assert forall|i: int| 0 <= i < j + 1 implies {
        &&& tags2[#[trigger] ch[i]] is Some
        &&& ends2[ch[i]] is Some
        &&& counter < tags2[ch[i]].unwrap()
        &&& ends2[ch[i]].unwrap() <= next2
    } by {
        if i < j {
            assert(tags1[ch[i]] is Some);
        }
    }
    assert(laid_out(ch, tags2, ends2, counter, next2, j + 1)) by {
        if j > 0 {
            assert(tags1[ch[0]] is Some);
            assert(tags1[ch[j - 1]] is Some);
            assert forall|i: int| 0 <= i < j implies tags2[#[trigger] ch[i + 1]].unwrap()
                == ends2[ch[i]].unwrap() by {
                assert(tags1[ch[i]] is Some);
                if i < j - 1 {
                    assert(tags1[ch[i + 1]] is Some);
                }
            }
        }
    }
    assert forall|x: int|
        0 <= x < parents.len() && x != c && tags0[x] is None && (#[trigger] tags2[x]) is Some implies {
        &&& ends2[x] is Some
        &&& tags2[x].unwrap() > counter
        &&& exists|i: int| 0 <= i < j + 1 && #[trigger] descends(parents, x, ch[i])
    } by {
        if tags1[x] is Some {
            let i = choose|i: int| 0 <= i < j && #[trigger] descends(parents, x, ch[i]);
            assert(0 <= i < j + 1 && descends(parents, x, ch[i]));
        } else {
            assert(descends(parents, x, ch[j]));
        }
    }
}

proof fn lemma_visit_end(
    parents: Seq<Option<int>>,
    kids: Seq<Seq<int>>,
    tags0: Seq<Option<u32>>,
    ends0: Seq<Option<u32>>,
    tags: Seq<Option<u32>>,
    ends: Seq<Option<u32>>,
    c: int,
    counter: u32,
    next: u32,
)
    requires
        parents_in_range(parents),
        kids_ok(parents, kids),
        walk_inv(parents, kids, tags0, ends0, counter),
        visiting(parents, kids, tags0, ends0, tags, ends, c, counter, next, kids[c].len() as int),
    ensures
        ends.len() == parents.len(),
        visited(parents, kids, tags0, ends0, tags, ends.update(c, Some(next)), c, counter, next),
{
    reveal(walk_inv);
    reveal(visiting);
    reveal(visited);
    lemma_kids(parents, kids);
    let ch = kids[c];
    let ends3 = ends.update(c, Some(next));
    assert forall|i: int| 0 <= i < ch.len() implies (#[trigger] ch[i]) != c by {
        assert(counter < tags[ch[i]].unwrap());
    }
    assert(laid_out(ch, tags, ends3, counter, next, ch.len() as int)) by {
        if ch.len() > 0 {
            assert(ch[ch.len() - 1] != c);
            assert(ch[0] != c);
        }
    }
    assert forall|y: int|
        0 <= y < tags.len() && (#[trigger] tags[y]) is Some && counter <= tags[y].unwrap() < next implies descends(
        parents,
        y,
        c,
    ) by {
        lemma_descends_self(parents, c);
        if y != c {
            if tags0[y] is Some {
                assert(tags0[y].unwrap() < counter);
            } else {
                let i = choose|i: int| 0 <= i < ch.len() && #[trigger] descends(parents, y, ch[i]);
                lemma_descends_step(parents, ch[i], c);
                lemma_descends_trans(parents, y, ch[i], c);
            }
        }
    }
    assert(finished_ok(parents, kids, tags, ends3, c));
    assert forall|x: int| 0 <= x < ends3.len() && (#[trigger] ends3[x]) is Some implies ends3[x].unwrap()
        <= next && finished_ok(parents, kids, tags, ends3, x) by {
        if x != c {
            lemma_finished_stays(parents, kids, tags, ends, tags, ends3, x);
        }
    }
    assert(walk_inv(parents, kids, tags, ends3, next));
    assert forall|x: int|
        0 <= x < parents.len() && tags0[x] is None && (#[trigger] tags[x]) is Some implies ends3[x] is Some
        && tags[x].unwrap() >= counter && descends(parents, x, c) by {
        lemma_descends_self(parents, c);
    }
    assert(frame(tags0, ends0, tags, ends3));
}

/// Walks the subtree of class `c`: gives the class the tag `counter`, walks
/// the subtrees of its children in order, and ends the family of the class
/// at the first tag that the subtree has not used, which it returns.
pub(crate) fn set_families(
    children: &Vec<Vec<usize>>,
    c: usize,
    tags: &mut Vec<Option<u32>>,
    ends: &mut Vec<Option<u32>>,
    counter: u32,
    Ghost(parents): Ghost<Seq<Option<int>>>,
) -> (e: u32)
    requires
        parents_in_range(parents),
        parents.len() <= u32::MAX,
        kids_ok(parents, kids_of(children@)),
        walk_inv(parents, kids_of(children@), old(tags)@, old(ends)@, counter),
        c < parents.len(),
        old(tags)[c as int] is None,
        parents[c as int] matches Some(p) ==> old(tags)[p] is Some,
    ensures
        visited(
            parents,
            kids_of(children@),
            old(tags)@,
            old(ends)@,
            final(tags)@,
            final(ends)@,
            c as int,
            counter,
            e,
        ),
    decreases parents.len() - counter,
{
    let ghost kids = kids_of(children@);
    let ghost tags0 = tags@;
    let ghost ends0 = ends@;
    proof {
        lemma_visit_begin(parents, kids, tags0, ends0, c as int, counter);
    }
    tags.set(c, Some(counter));
    let mut next: u32 = counter + 1;
    let mut j: usize = 0;
    while j < children[c].len()
        invariant
            parents_in_range(parents),
            parents.len() <= u32::MAX,
            kids == kids_of(children@),
            kids_ok(parents, kids),
            c < parents.len(),
            j <= children[c as int].len(),
            walk_inv(parents, kids, tags0, ends0, counter),
            visiting(parents, kids, tags0, ends0, tags@, ends@, c as int, counter, next, j as int),
        decreases children[c as int].len() - j,
    {
        let k = children[c][j];
        let ghost tags1 = tags@;
        let ghost ends1 = ends@;
        let ghost next1 = next;
        proof {
            assert(kids[c as int][j as int] == k as int);
            lemma_child_untagged(
                parents,
                kids,
                tags0,
                ends0,
                tags@,
                ends@,
                c as int,
                counter,
                next,
                j as int,
            );
        }
        next = set_families(children, k, tags, ends, next, Ghost(parents));
        proof {
            lemma_child_done(
                parents,
                kids,
                tags0,
                ends0,
                tags1,
                ends1,
                tags@,
                ends@,
                c as int,
                counter,
                next1,
                next,
                j as int,
            );
        }
        j += 1;
    }
    proof {
        assert(j == kids[c as int].len());
        lemma_visit_end(parents, kids, tags0, ends0, tags@, ends@, c as int, counter, next);
    }
    ends.set(c, Some(next));
    next
}

/// The families that the walk has recorded.
pub open spec fn families_of(tags: Seq<Option<u32>>, ends: Seq<Option<u32>>) -> Seq<Range<u32>> {
    Seq::new(tags.len(), |i: int| tags[i].unwrap()..ends[i].unwrap())
}

/// The families lie as a depth-first walk in table order leaves them: the
/// family of a class starts at its tag, the families of its children follow
/// one another from the next tag on, and the family ends where the last of
/// them ends.
pub open spec fn preorder_layout(parents: Seq<Option<int>>, families: Seq<Range<u32>>) -> bool {
    forall|x: int|
        0 <= x < parents.len() ==> {
            let ch = #[trigger] children_of(parents, x);
            if ch.len() == 0 {
                families[x].end == families[x].start + 1
            } else {
                &&& families[ch[0]].start == families[x].start + 1
                &&& families[x].end == families[ch[ch.len() - 1]].end
                &&& forall|i: int|
                    0 <= i < ch.len() - 1 ==> families[#[trigger] ch[i + 1]].start
                        == families[ch[i]].end
            }
        }
}

/// The state in which the walk starts: nothing is tagged.
pub proof fn lemma_walk_start(
    parents: Seq<Option<int>>,
    kids: Seq<Seq<int>>,
    tags: Seq<Option<u32>>,
    ends: Seq<Option<u32>>,
)
    requires
        tags.len() == parents.len(),
        ends.len() == parents.len(),
        forall|i: int| 0 <= i < tags.len() ==> tags[i] is None,
        forall|i: int| 0 <= i < ends.len() ==> ends[i] is None,
    ensures
        walk_inv(parents, kids, tags, ends, 0),
{
    reveal(walk_inv);
    lemma_count_none_all(tags);
}

/// After the walk from the root, a class that descends from the root has a
/// tag.
proof fn lemma_reached(
    parents: Seq<Option<int>>,
    kids: Seq<Seq<int>>,
    tags: Seq<Option<u32>>,
    ends: Seq<Option<u32>>,
    e: u32,
    root: int,
    x: int,
    k: nat,
)
    requires
        parents_in_range(parents),
        kids_ok(parents, kids),
        walk_inv(parents, kids, tags, ends, e),
        forall|y: int| 0 <= y < tags.len() && (#[trigger] tags[y]) is Some ==> ends[y] is Some,
        0 <= root < parents.len(),
        tags[root] is Some,
        nth_ancestor(parents, x, k) == Some(root),
    ensures
        0 <= x < parents.len(),
        tags[x] is Some,
    decreases k,
{
    reveal(walk_inv);
    if k > 0 {
        let p = parents[x].unwrap();
        lemma_reached(parents, kids, tags, ends, e, root, p, (k - 1) as nat);
        lemma_kids(parents, kids);
        assert(kids[p].contains(x));
        assert(finished_ok(parents, kids, tags, ends, p));
    }
}

/// After the walk, the family of a class lies inside the family of each of
/// its ancestors.
proof fn lemma_nested(
    parents: Seq<Option<int>>,
    kids: Seq<Seq<int>>,
    tags: Seq<Option<u32>>,
    ends: Seq<Option<u32>>,
    e: u32,
    d: int,
    k: nat,
)
    requires
        parents_in_range(parents),
        kids_ok(parents, kids),
        walk_inv(parents, kids, tags, ends, e),
        forall|y: int| 0 <= y < tags.len() ==> (#[trigger] tags[y]) is Some && ends[y] is Some,
        nth_ancestor(parents, d, k) is Some,
    ensures
        0 <= d < parents.len(),
        0 <= nth_ancestor(parents, d, k).unwrap() < parents.len(),
        tags[nth_ancestor(parents, d, k).unwrap()].unwrap() <= tags[d].unwrap(),
        tags[d].unwrap() < ends[d].unwrap(),
        ends[d].unwrap() <= ends[nth_ancestor(parents, d, k).unwrap()].unwrap(),
    decreases k,
{
    reveal(walk_inv);
    assert(tags[d] is Some);
    assert(ends[d] is Some);
    assert(finished_ok(parents, kids, tags, ends, d));
    if k > 0 {
        let p = parents[d].unwrap();
        lemma_nested(parents, kids, tags, ends, e, p, (k - 1) as nat);
        lemma_kids(parents, kids);
        assert(kids[p].contains(d));
        assert(tags[p] is Some);
        assert(ends[p] is Some);
        assert(finished_ok(parents, kids, tags, ends, p));
    }
}

/// What the walk from the root has found: the classes that have a tag are
/// those that descend from the root; and where every class has one, the
/// families describe the tree.
pub proof fn lemma_walk_result(
    parents: Seq<Option<int>>,
    kids: Seq<Seq<int>>,
    tags0: Seq<Option<u32>>,
    ends0: Seq<Option<u32>>,
    tags: Seq<Option<u32>>,
    ends: Seq<Option<u32>>,
    root: int,
    e: u32,
)
    requires
        parents_in_range(parents),
        kids_ok(parents, kids),
        0 <= root < parents.len(),
        parents[root] is None,
        tags0.len() == parents.len(),
        forall|i: int| 0 <= i < tags0.len() ==> tags0[i] is None,
        visited(parents, kids, tags0, ends0, tags, ends, root, 0, e),
    ensures
        tags.len() == parents.len(),
        ends.len() == parents.len(),
        forall|x: int|
            0 <= x < parents.len() ==> ((#[trigger] tags[x]) is Some <==> descends(parents, x, root)),
        forall|x: int| 0 <= x < parents.len() && (#[trigger] tags[x]) is Some ==> ends[x] is Some,
        (forall|x: int| 0 <= x < parents.len() ==> (#[trigger] tags[x]) is Some) ==> tree_ok(
            parents,
            families_of(tags, ends),
            root,
        ) && preorder_layout(parents, families_of(tags, ends)),
{
    reveal(visited);
    assert(tags.len() == parents.len() && ends.len() == parents.len()) by {
        reveal(walk_inv);
    }
    assert forall|x: int| 0 <= x < parents.len() implies ((#[trigger] tags[x]) is Some <==> descends(
        parents,
        x,
        root,
    )) by {
        if descends(parents, x, root) {
            let k = choose|k: nat| nth_ancestor(parents, x, k) == Some(root);
            lemma_reached(parents, kids, tags, ends, e, root, x, k);
        }
    }
    if forall|x: int| 0 <= x < parents.len() ==> (#[trigger] tags[x]) is Some {
        let fams = families_of(tags, ends);
        assert forall|c: int, d: int| 0 <= c < parents.len() && 0 <= d < parents.len() implies (
        #[trigger] descends(parents, d, c) <==> in_family(fams[c], fams[d].start)) by {
            assert(tags[c] is Some && tags[d] is Some);
            if descends(parents, d, c) {
                let k = choose|k: nat| nth_ancestor(parents, d, k) == Some(c);
                lemma_nested(parents, kids, tags, ends, e, d, k);
            }
            if in_family(fams[c], fams[d].start) {
                reveal(walk_inv);
                assert(ends[c] is Some);
                assert(finished_ok(parents, kids, tags, ends, c));
            }
        }
        assert forall|i: int, j: int|
            0 <= i < parents.len() && 0 <= j < parents.len() && i != j implies (#[trigger] fams[i]).start
            != (#[trigger] fams[j]).start by {
            reveal(walk_inv);
            assert(tags[i] is Some && tags[j] is Some);
        }
        assert forall|i: int| 0 <= i < parents.len() implies (#[trigger] fams[i]).end <= parents.len() by {
            reveal(walk_inv);
            assert(tags[i] is Some);
            assert(ends[i] is Some);
        }
        assert(tree_ok(parents, fams, root));
        assert forall|x: int| 0 <= x < parents.len() implies {
            let ch = #[trigger] children_of(parents, x);
            if ch.len() == 0 {
                fams[x].end == fams[x].start + 1
            } else {
                &&& fams[ch[0]].start == fams[x].start + 1
                &&& fams[x].end == fams[ch[ch.len() - 1]].end
                &&& forall|i: int|
                    0 <= i < ch.len() - 1 ==> fams[#[trigger] ch[i + 1]].start == fams[ch[i]].end
            }
        } by {
            reveal(walk_inv);
            lemma_kids(parents, kids);
            assert(tags[x] is Some);
            assert(ends[x] is Some);
            assert(finished_ok(parents, kids, tags, ends, x));
            let ch = kids[x];
            assert(ch == children_of(parents, x));
            if ch.len() > 0 {
                assert(0 <= ch[0] < parents.len());
                assert(0 <= ch[ch.len() - 1] < parents.len());
                assert forall|i: int| 0 <= i < ch.len() - 1 implies fams[#[trigger] ch[i + 1]].start
                    == fams[ch[i]].end by {
                    assert(0 <= ch[i] < parents.len());
                    assert(0 <= ch[i + 1] < parents.len());
                }
            }
        }
    }
}

} // verus!
