//! The inheritance tree: the parent of every class is checked, every class
//! learns its children, and a depth-first walk from the root class gives
//! every class its tag and its family.

use crate::ast::{Class, TypeID};
use crate::error::{ErrorKind, ErrorView, SemantError};
use crate::name_table::NameMap;
use crate::semant::hierarchy::{descends, parents_in_range, tree_ok};
use crate::semant::tagging::{
    children_of, children_upto, families_of, kids_of, kids_ok, lemma_walk_result, lemma_walk_start,
    preorder_layout, set_families,
};
use std::ops::Range;
use vstd::prelude::*;

verus! {

/// The first result that `f` gives at a position from `from` up to `to`.
pub open spec fn first_some<T>(f: spec_fn(int) -> Option<T>, from: int, to: int) -> Option<T>
    decreases to - from,
{
    if from >= to {
        None
    } else {
        match f(from) {
            Some(e) => Some(e),
            None => first_some(f, from + 1, to),
        }
    }
}

/// The table and every class in it are well formed.
pub open spec fn classes_wf(t: &NameMap<Class>) -> bool {
    &&& t.wf()
    &&& forall|i: int| 0 <= i < t.values().len() ==> (#[trigger] t.values()[i]).wf()
}

/// The table holds the root class, and the root class has no parent.
pub open spec fn has_root(t: &NameMap<Class>) -> bool {
    &&& t.contains_name("Object"@)
    &&& t.value_of("Object"@).parent_name is None
}

/// The position of the root class.
pub open spec fn root_of(t: &NameMap<Class>) -> int {
    t.position("Object"@).unwrap()
}

/// For every class, the position of its declared parent.
pub open spec fn parents_of(t: &NameMap<Class>) -> Seq<Option<int>> {
    Seq::new(
        t.values().len(),
        |i: int|
            match t.values()[i].parent_name {
                Some(p) => t.position(p@),
                None => None,
            },
    )
}

/// For every class, its family.
pub open spec fn families_in(t: &NameMap<Class>) -> Seq<Range<u32>> {
    Seq::new(t.values().len(), |i: int| t.values()[i].family)
}

/// What is wrong with the declared parent or the name of class `i`.
pub open spec fn illegal_parent(t: &NameMap<Class>, i: int) -> Option<ErrorView> {
    let c = t.values()[i];
    if c.parent_name matches Some(p) && (p@ == "Bool"@ || p@ == "String"@ || p@ == "Int"@ || p@
        == "SELF_TYPE"@) {
        Some(
            ErrorView {
                kind: ErrorKind::IllegalParent,
                file_name: c.file_name@,
                line_no: c.line_no,
                names: seq![t.keys()[i], c.parent_name.unwrap()@],
            },
        )
    } else if t.keys()[i] == "SELF_TYPE"@ {
        Some(
            ErrorView {
                kind: ErrorKind::RedefinedSelfType,
                file_name: c.file_name@,
                line_no: c.line_no,
                names: seq![],
            },
        )
    } else {
        None
    }
}

/// What is wrong with the declared parent or the name of each class.
pub open spec fn illegal_parent_at(t: &NameMap<Class>) -> spec_fn(int) -> Option<ErrorView> {
    |i: int| illegal_parent(t, i)
}

/// The violation of class `i` if its declared parent is no class.
pub open spec fn undefined_parent(t: &NameMap<Class>, i: int) -> Option<ErrorView> {
    let c = t.values()[i];
    if c.parent_name matches Some(p) && !t.contains_name(p@) {
        Some(
            ErrorView {
                kind: ErrorKind::UndefinedParent,
                file_name: c.file_name@,
                line_no: c.line_no,
                names: seq![t.keys()[i], c.parent_name.unwrap()@],
            },
        )
    } else {
        None
    }
}

/// The violation of each class whose declared parent is no class.
pub open spec fn undefined_parent_at(t: &NameMap<Class>) -> spec_fn(int) -> Option<ErrorView> {
    |i: int| undefined_parent(t, i)
}

/// The violation of class `i` if it does not descend from the root class.
pub open spec fn off_tree(t: &NameMap<Class>, i: int) -> Option<ErrorView> {
    let c = t.values()[i];
    if !descends(parents_of(t), i, root_of(t)) {
        Some(
            ErrorView {
                kind: ErrorKind::InheritanceCycle,
                file_name: c.file_name@,
                line_no: c.line_no,
                names: seq![t.keys()[i]],
            },
        )
    } else {
        None
    }
}

/// The violation of each class that does not descend from the root class.
pub open spec fn off_tree_at(t: &NameMap<Class>) -> spec_fn(int) -> Option<ErrorView> {
    |i: int| off_tree(t, i)
}

/// The first violation in the inheritance graph: an illegal parent or a
/// class named `SELF_TYPE`, else a parent that is no class, else a class
/// that does not descend from the root class; each the first in table order.
pub open spec fn graph_violation(t: &NameMap<Class>) -> Option<ErrorView> {
    let n = t.values().len() as int;
    match first_some(illegal_parent_at(t), 0, n) {
        Some(e) => Some(e),
        None => match first_some(undefined_parent_at(t), 0, n) {
            Some(e) => Some(e),
            None => first_some(off_tree_at(t), 0, n),
        },
    }
}

/// Class `b` says what class `a` declares.
pub open spec fn same_declaration(a: Class, b: Class) -> bool {
    &&& a.file_name == b.file_name
    &&& a.file_no == b.file_no
    &&& a.basic == b.basic
    &&& a.line_no == b.line_no
    &&& a.parent_name == b.parent_name
    &&& a.attrs == b.attrs
    &&& a.methods == b.methods
    &&& a.method_name_to_pos == b.method_name_to_pos
    &&& a.dispatch_table == b.dispatch_table
}

/// The names of the classes at the positions `ch`.
pub open spec fn names_at(keys: Seq<Seq<char>>, ch: Seq<int>) -> Seq<Seq<char>> {
    Seq::new(ch.len(), |j: int| keys[ch[j]])
}

/// The names in a list of class names.
pub open spec fn type_names(v: Seq<TypeID>) -> Seq<Seq<char>> {
    Seq::new(v.len(), |j: int| v[j]@)
}

/// Every class names its children, in table order.
pub open spec fn children_named(t: &NameMap<Class>) -> bool {
    forall|i: int|
        0 <= i < t.values().len() ==> type_names((#[trigger] t.values()[i]).child_names@)
            == names_at(t.keys(), children_of(parents_of(t), i))
}

/// The tags and families describe the inheritance tree, and lie as the
/// depth-first walk from the root class leaves them.
pub open spec fn tree_built(t: &NameMap<Class>) -> bool {
    &&& t.wf()
    &&& has_root(t)
    &&& children_named(t)
    &&& tree_ok(parents_of(t), families_in(t), root_of(t))
    &&& preorder_layout(parents_of(t), families_in(t))
}

/// Table `out` is table `t` with the tree built: the same classes in the
/// same order, each with what it declares.
pub open spec fn enriched(t: &NameMap<Class>, out: &NameMap<Class>) -> bool {
    &&& out.keys() == t.keys()
    &&& out.values().len() == t.values().len()
    &&& forall|i: int|
        0 <= i < t.values().len() ==> same_declaration(t.values()[i], #[trigger] out.values()[i])
    &&& tree_built(out)
}

/// Every parent link of a well-formed table points at a class of the table.
pub proof fn lemma_parents_in_range(t: &NameMap<Class>)
    requires
        t.wf(),
    ensures
        parents_in_range(parents_of(t)),
        parents_of(t).len() == t.values().len(),
{
}

/// Tables with the same names and the same declared parents have the same
/// parent links.
pub proof fn lemma_same_parents(t: &NameMap<Class>, out: &NameMap<Class>)
    requires
        out.keys() == t.keys(),
        out.values().len() == t.values().len(),
        forall|i: int|
            0 <= i < t.values().len() ==> t.values()[i].parent_name == (
            #[trigger] out.values()[i]).parent_name,
    ensures
        parents_of(out) == parents_of(t),
{
    assert(parents_of(out) =~= parents_of(t));
}

/// Looks for a class that inherits from `Int`, `Bool`, `String` or
/// `SELF_TYPE`, or is named `SELF_TYPE`.
fn check_parents_legal(classes: &NameMap<Class>) -> (r: Result<(), SemantError>)
    requires
        classes.wf(),
    ensures
        match r {
            Ok(_) => first_some(illegal_parent_at(classes), 0, classes.values().len() as int)
                is None,
            Err(e) => first_some(illegal_parent_at(classes), 0, classes.values().len() as int)
                == Some(e@),
        },
{
    let n = classes.len();
    let ghost f = illegal_parent_at(classes);
    let mut i: usize = 0;
    while i < n
        invariant
            classes.wf(),
            n == classes.values().len(),
            i <= n,
            f == illegal_parent_at(classes),
            first_some(f, 0, n as int) == first_some(f, i as int, n as int),
        decreases n - i,
    {
        let class = classes.value(i);
        let name = classes.key(i);
        match &class.parent_name {
            Some(p) => {
                if p.is_bool() || p.is_string() || p.is_int() || p.is_self_type() {
                    return Err(
                        SemantError::with_names2(
                            ErrorKind::IllegalParent,
                            class.file_name.as_str(),
                            class.line_no,
                            name.as_str(),
                            p.as_str(),
                        ),
                    );
                }
            },
            None => {},
        }
        if name.as_str().eq("SELF_TYPE") {
            return Err(
                SemantError::new(
                    ErrorKind::RedefinedSelfType,
                    class.file_name.as_str(),
                    class.line_no,
                ),
            );
        }
        proof {
            assert(f(i as int) is None);
        }
        i += 1;
    }
    Ok(())
}

/// Finds the parent of every class and lists, for every class, its children
/// in table order.
fn link_children(classes: &NameMap<Class>) -> (r: Result<Vec<Vec<usize>>, SemantError>)
    requires
        classes.wf(),
    ensures
        match r {
            Ok(children) => {
                &&& first_some(undefined_parent_at(classes), 0, classes.values().len() as int)
                    is None
                &&& kids_ok(parents_of(classes), kids_of(children@))
                &&& forall|i: int|
                    0 <= i < classes.values().len() ==> (
                    #[trigger] classes.values()[i]).parent_name is Some ==> parents_of(
                        classes,
                    )[i] is Some
            },
            Err(e) => first_some(undefined_parent_at(classes), 0, classes.values().len() as int)
                == Some(e@),
        },
{
    let n = classes.len();
    let ghost f = undefined_parent_at(classes);
    let ghost parents = parents_of(classes);
    let mut children: Vec<Vec<usize>> = Vec::new();
    let mut c: usize = 0;
    while c < n
        invariant
            c <= n,
            children.len() == c,
            forall|k: int| 0 <= k < c ==> (#[trigger] children[k]).len() == 0,
        decreases n - c,
    {
        children.push(Vec::new());
        c += 1;
    }
    let mut i: usize = 0;
    while i < n
        invariant
            classes.wf(),
            n == classes.values().len(),
            i <= n,
            f == undefined_parent_at(classes),
            parents == parents_of(classes),
            first_some(f, 0, n as int) == first_some(f, i as int, n as int),
            children.len() == n,
            forall|k: int|
                0 <= k < n ==> (#[trigger] kids_of(children@)[k]) == children_upto(
                    parents,
                    k,
                    i as nat,
                ),
            forall|k: int|
                0 <= k < i ==> (#[trigger] classes.values()[k]).parent_name is Some ==> parents[k]
                    is Some,
        decreases n - i,
    {
        let class = classes.value(i);
        let ghost before = kids_of(children@);
        match &class.parent_name {
            Some(p) => {
                match classes.index_of(p.as_str()) {
                    Some(pi) => {
                        children[pi].push(i);
                        proof {
                            assert(parents[i as int] == Some(pi as int));
                            assert forall|k: int| 0 <= k < n implies (#[trigger] kids_of(
                                children@,
                            )[k]) == children_upto(parents, k, (i + 1) as nat) by {
                                assert(before[k] == children_upto(parents, k, i as nat));
                                if k == pi {
                                    assert(kids_of(children@)[k] =~= before[k].push(i as int));
                                } else {
                                    assert(kids_of(children@)[k] =~= before[k]);
                                }
                            }
                        }
                    },
                    None => {
                        return Err(
                            SemantError::with_names2(
                                ErrorKind::UndefinedParent,
                                class.file_name.as_str(),
                                class.line_no,
                                classes.key(i).as_str(),
                                p.as_str(),
                            ),
                        );
                    },
                }
            },
            None => {
                proof {
                    assert(parents[i as int] is None);
                    assert forall|k: int| 0 <= k < n implies (#[trigger] kids_of(children@)[k])
                        == children_upto(parents, k, (i + 1) as nat) by {
                        assert(before[k] == children_upto(parents, k, i as nat));
                    }
                }
            },
        }
        proof {
            assert(f(i as int) is None);
        }
        i += 1;
    }
    proof {
        assert(kids_of(children@).len() == parents.len());
    }
    Ok(children)
}

/// Gives every class the names of its children.
fn name_children(classes: &mut NameMap<Class>, children: &Vec<Vec<usize>>)
    requires
        old(classes).wf(),
        kids_ok(parents_of(old(classes)), kids_of(children@)),
    ensures
        final(classes).wf(),
        final(classes).keys() == old(classes).keys(),
        final(classes).values().len() == old(classes).values().len(),
        forall|i: int|
            0 <= i < old(classes).values().len() ==> {
                &&& same_declaration(old(classes).values()[i], #[trigger] final(classes).values()[i])
                &&& final(classes).values()[i].family == old(classes).values()[i].family
                &&& type_names(final(classes).values()[i].child_names@) == names_at(
                    old(classes).keys(),
                    children_of(parents_of(old(classes)), i),
                )
            },
{
    let n = classes.len();
    let ghost orig = *classes;
    let ghost parents = parents_of(classes);
    let ghost kids = kids_of(children@);
    proof {
        crate::semant::tagging::lemma_kids(parents, kids);
    }
    let mut c: usize = 0;
    while c < n
        invariant
            orig.wf(),
            classes.wf(),
            c <= n,
            n == orig.values().len(),
            children.len() == n,
            parents == parents_of(&orig),
            kids == kids_of(children@),
            kids_ok(parents, kids),
            forall|k: int, j: int|
                0 <= k < parents.len() && 0 <= j < kids[k].len() ==> 0 <= (#[trigger] kids[k][j])
                    < parents.len(),
            classes.keys() == orig.keys(),
            classes.values().len() == n,
            forall|i: int|
                0 <= i < n ==> {
                    &&& same_declaration(orig.values()[i], #[trigger] classes.values()[i])
                    &&& classes.values()[i].family == orig.values()[i].family
                },
            forall|i: int|
                0 <= i < c ==> type_names((#[trigger] classes.values()[i]).child_names@)
                    == names_at(orig.keys(), children_of(parents, i)),
        decreases n - c,
    {
        let mut names: Vec<TypeID> = Vec::new();
        let mut j: usize = 0;
        while j < children[c].len()
            invariant
                c < n,
                children.len() == n,
                n == classes.values().len(),
                classes.keys().len() == n,
                kids == kids_of(children@),
                parents.len() == n,
                forall|k: int, j: int|
                    0 <= k < parents.len() && 0 <= j < kids[k].len() ==> 0 <= (
                    #[trigger] kids[k][j]) < parents.len(),
                j <= children[c as int].len(),
                names.len() == j,
                forall|k: int|
                    0 <= k < j ==> (#[trigger] names[k])@ == classes.keys()[kids[c as int][k]],
            decreases children[c as int].len() - j,
        {
            let k = children[c][j];
            proof {
                assert(kids[c as int][j as int] == k);
            }
            names.push(TypeID::new(classes.key(k).clone()));
            j += 1;
        }
        proof {
            assert(kids[c as int] == children_of(parents, c as int));
            assert(type_names(names@) =~= names_at(orig.keys(), children_of(parents, c as int)));
        }
        let class = classes.value_mut(c);
        class.child_names = names;
        c += 1;
    }
}

/// Looks for a class that the walk from the root class has not reached.
fn find_unreached(classes: &NameMap<Class>, tags: &Vec<Option<u32>>) -> (r: Result<
    (),
    SemantError,
>)
    requires
        classes.wf(),
        has_root(classes),
        tags.len() == classes.values().len(),
        forall|x: int|
            0 <= x < tags.len() ==> ((#[trigger] tags[x]) is Some <==> descends(
                parents_of(classes),
                x,
                root_of(classes),
            )),
    ensures
        match r {
            Ok(_) => {
                &&& first_some(off_tree_at(classes), 0, classes.values().len() as int) is None
                &&& forall|x: int| 0 <= x < tags.len() ==> (#[trigger] tags[x]) is Some
            },
            Err(e) => first_some(off_tree_at(classes), 0, classes.values().len() as int) == Some(
                e@,
            ),
        },
{
    let n = classes.len();
    let ghost f = off_tree_at(classes);
    let mut i: usize = 0;
    while i < n
        invariant
            classes.wf(),
            n == classes.values().len(),
            tags.len() == n,
            i <= n,
            f == off_tree_at(classes),
            first_some(f, 0, n as int) == first_some(f, i as int, n as int),
            forall|x: int|
                0 <= x < tags.len() ==> ((#[trigger] tags[x]) is Some <==> descends(
                    parents_of(classes),
                    x,
                    root_of(classes),
                )),
            forall|x: int| 0 <= x < i ==> (#[trigger] tags[x]) is Some,
        decreases n - i,
    {
        if tags[i].is_none() {
            let class = classes.value(i);
            return Err(
                SemantError::with_name(
                    ErrorKind::InheritanceCycle,
                    class.file_name.as_str(),
                    class.line_no,
                    classes.key(i).as_str(),
                ),
            );
        }
        proof {
            assert(f(i as int) is None);
        }
        i += 1;
    }
    Ok(())
}

/// Gives every class the family that the walk has recorded for it.
fn store_families(
    classes: &mut NameMap<Class>,
    tags: &Vec<Option<u32>>,
    ends: &Vec<Option<u32>>,
)
    requires
        old(classes).wf(),
        tags.len() == old(classes).values().len(),
        ends.len() == old(classes).values().len(),
        forall|x: int| 0 <= x < tags.len() ==> (#[trigger] tags[x]) is Some,
        forall|x: int| 0 <= x < ends.len() ==> (#[trigger] ends[x]) is Some,
    ensures
        final(classes).wf(),
        final(classes).keys() == old(classes).keys(),
        final(classes).values().len() == old(classes).values().len(),
        families_in(final(classes)) == families_of(tags@, ends@),
        forall|i: int|
            0 <= i < old(classes).values().len() ==> {
                &&& same_declaration(old(classes).values()[i], #[trigger] final(classes).values()[i])
                &&& final(classes).values()[i].child_names == old(classes).values()[i].child_names
            },
{
    let n = classes.len();
    let ghost orig = *classes;
    let mut i: usize = 0;
    while i < n
        invariant
            classes.wf(),
            i <= n,
            n == orig.values().len(),
            tags.len() == n,
            ends.len() == n,
            forall|x: int| 0 <= x < tags.len() ==> (#[trigger] tags[x]) is Some,
            forall|x: int| 0 <= x < ends.len() ==> (#[trigger] ends[x]) is Some,
            classes.keys() == orig.keys(),
            classes.values().len() == n,
            forall|k: int|
                0 <= k < n ==> {
                    &&& same_declaration(orig.values()[k], #[trigger] classes.values()[k])
                    &&& classes.values()[k].child_names == orig.values()[k].child_names
                },
            forall|k: int|
                0 <= k < i ==> (#[trigger] classes.values()[k]).family == (tags[k].unwrap()..ends[k].unwrap()),
        decreases n - i,
    {
        let start = match tags[i] {
            Some(t) => t,
            None => 0,
        };
        let end = match ends[i] {
            Some(e) => e,
            None => 0,
        };
        let class = classes.value_mut(i);
        class.family = start..end;
        i += 1;
    }
    proof {
        assert(families_in(classes) =~= families_of(tags@, ends@));
    }
}

/// Builds the inheritance tree. Every class must have a legal parent that
/// is a class of the program, and must descend from the root class; the
/// first class in table order that fails the first of these rules, else the
/// second, else the third, is reported. Otherwise every class gets the
/// names of its children, in table order, and a depth-first walk from the
/// root class over the children in that order gives it its tag and family.
pub fn build_inheritiance_tree(classes: NameMap<Class>) -> (r: Result<NameMap<Class>, SemantError>)
    requires
        classes_wf(&classes),
        has_root(&classes),
        classes.values().len() <= u32::MAX,
    ensures
        match r {
            Ok(out) => graph_violation(&classes) is None && enriched(&classes, &out),
            Err(e) => graph_violation(&classes) == Some(e@),
        },
{
    let ghost orig = classes;
    let mut classes = classes;
    match check_parents_legal(&classes) {
        Err(e) => {
            return Err(e);
        },
        Ok(_) => {},
    }
    let children = match link_children(&classes) {
        Err(e) => {
            return Err(e);
        },
        Ok(children) => children,
    };
    let ghost parents = parents_of(&orig);
    let ghost kids = kids_of(children@);
    let n = classes.len();
    let mut tags: Vec<Option<u32>> = Vec::new();
    let mut ends: Vec<Option<u32>> = Vec::new();
    let mut i: usize = 0;
    while i < n
        invariant
            i <= n,
            tags.len() == i,
            ends.len() == i,
            forall|k: int| 0 <= k < i ==> (#[trigger] tags[k]) is None,
            forall|k: int| 0 <= k < i ==> (#[trigger] ends[k]) is None,
        decreases n - i,
    {
        tags.push(None);
        ends.push(None);
        i += 1;
    }
    let root = match classes.index_of("Object") {
        Some(root) => root,
        None => vstd::pervasive::unreached(),
    };
    let ghost tags0 = tags@;
    let ghost ends0 = ends@;
    proof {
        lemma_parents_in_range(&orig);
        lemma_walk_start(parents, kids, tags0, ends0);
        assert(parents[root as int] is None);
    }
    let e = set_families(&children, root, &mut tags, &mut ends, 0, Ghost(parents));
    proof {
        lemma_walk_result(parents, kids, tags0, ends0, tags@, ends@, root as int, e);
    }
    match find_unreached(&classes, &tags) {
        Err(e) => {
            return Err(e);
        },
        Ok(_) => {},
    }
    proof {
        assert forall|x: int| 0 <= x < ends.len() implies (#[trigger] ends[x]) is Some by {
            assert(tags[x] is Some);
        }
    }
    name_children(&mut classes, &children);
    let ghost named = classes;
    store_families(&mut classes, &tags, &ends);
    proof {
        lemma_same_parents(&orig, &named);
        lemma_same_parents(&orig, &classes);
        assert forall|i: int| 0 <= i < orig.values().len() implies same_declaration(
            orig.values()[i],
            #[trigger] classes.values()[i],
        ) by {
            assert(same_declaration(orig.values()[i], named.values()[i]));
            assert(same_declaration(named.values()[i], classes.values()[i]));
        }
        assert(children_named(&classes)) by {
            assert forall|i: int| 0 <= i < classes.values().len() implies type_names(
                (#[trigger] classes.values()[i]).child_names@,
            ) == names_at(classes.keys(), children_of(parents_of(&classes), i)) by {
                assert(same_declaration(named.values()[i], classes.values()[i]));
            }
        }
        assert(has_root(&classes)) by {
            assert(same_declaration(orig.values()[root as int], classes.values()[root as int]));
        }
    }
    Ok(classes)
}

} // verus!
