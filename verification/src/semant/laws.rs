//! What holds of every program that the analysis accepts, and of some that
//! it refuses.

use crate::ast::{Class, Method, TypeID};
use crate::error::ErrorKind;
use crate::name_table::{position_of, NameMap};
use crate::semant::build_inheritiance_tree::{
    classes_wf, enriched, families_in, first_some, graph_violation, has_root, illegal_parent_at,
    lemma_same_parents, off_tree, off_tree_at, parents_of, root_of, tree_built,
    undefined_parent_at,
};
use crate::semant::conformance::{maps_ok, parent_links};
use crate::semant::first_pass::layout::{
    attr_names, class_out, class_settled, fp_run, inherited_names, pass_out, slot_names,
    slots_upto, tables_match, with_method, PassState, Slot, SlotView,
};
use crate::semant::first_pass::rules::Pools;
use crate::semant::hierarchy::{
    descends, in_family, lemma_descends_self, lemma_descends_unstep, lemma_nth_compose,
    lemma_nth_in_range, lemma_nth_split, nth_ancestor,
};
use crate::semant::second_pass::class_rules::{sp_class_out, sp_pass_out, sp_run, Program};
use crate::semant::second_pass::rules::Env;
use crate::semant::verify_main::main_violation;
use crate::semant::{
    first_stage, initial_pools, lemma_enriched_wf, lemma_passed_wf, semant_ok, tree_maps,
};
use std::ops::Range;
use vstd::prelude::*;

verus! {

/// Once the tree is built, the family of a class holds the tag of the
/// class itself and the tags of its descendants, and the tag of no other
/// class.
pub proof fn lemma_family_holds_descendants(t: &NameMap<Class>, c: int, d: int)
    requires
        tree_built(t),
        0 <= c < t.values().len(),
        0 <= d < t.values().len(),
    ensures
        in_family(t.values()[c].family, t.values()[c].family.start),
        descends(parents_of(t), d, c) <==> in_family(
            t.values()[c].family,
            t.values()[d].family.start,
        ),
{
    let parents = parents_of(t);
    let fams = families_in(t);
    lemma_descends_self(parents, c);
    assert(descends(parents, c, c) <==> in_family(fams[c], fams[c].start));
    assert(descends(parents, d, c) <==> in_family(fams[c], fams[d].start));
}

/// The maps that the typing rules read describe the tree that the table
/// holds, as long as no class bears the name of a placeholder type.
pub proof fn lemma_maps_describe_tree(
    t: &NameMap<Class>,
    parent_names: &NameMap<TypeID>,
    families: &NameMap<Range<u32>>,
)
    requires
        tree_built(t),
        tree_maps(t, parent_names, families),
        !t.contains_name("SELF_TYPE"@),
        !t.contains_name("_no_type"@),
    ensures
        maps_ok(parent_names, families),
        parent_links(parent_names, families) == parents_of(t),
{
    let a = parent_links(parent_names, families);
    let b = parents_of(t);
    assert(a.len() == b.len());
    assert forall|i: int| 0 <= i < a.len() implies a[i] == b[i] by {
        assert(t.values()[i].parent_name is Some || t.values()[i].parent_name is None);
    }
    assert(a =~= b);
}

/// Following parent links from a class on a cycle leads back to the class
/// after any number of steps and more.
proof fn lemma_cycle_goes_on(parents: Seq<Option<int>>, i: int, k: nat, bound: nat) -> (j: nat)
    requires
        k >= 1,
        nth_ancestor(parents, i, k) == Some(i),
    ensures
        j >= bound,
        nth_ancestor(parents, i, j) == Some(i),
    decreases bound,
{
    if bound == 0 {
        k
    } else {
        let j = lemma_cycle_goes_on(parents, i, k, (bound - 1) as nat);
        if j >= bound {
            j
        } else {
            lemma_nth_compose(parents, i, j, i, k, i);
            j + k
        }
    }
}

/// A class that is its own ancestor does not descend from a class without
/// a parent.
pub proof fn lemma_cycle_off_tree(parents: Seq<Option<int>>, root: int, i: int, k: nat)
    requires
        0 <= root < parents.len(),
        parents[root] is None,
        k >= 1,
        nth_ancestor(parents, i, k) == Some(i),
    ensures
        !descends(parents, i, root),
{
    if descends(parents, i, root) {
        let m = choose|m: nat| nth_ancestor(parents, i, m) == Some(root);
        let j = lemma_cycle_goes_on(parents, i, k, m + 1);
        lemma_nth_split(parents, i, m, (j - m) as nat);
        assert(nth_ancestor(parents, root, (j - m) as nat) is None);
    }
}

/// Where some position up to `to` gives a result, so does the search, and
/// the result that the search gives is that of some position.
pub proof fn lemma_first_some<T>(f: spec_fn(int) -> Option<T>, from: int, to: int, at: int)
    requires
        from <= at < to,
        f(at) is Some,
    ensures
        first_some(f, from, to) is Some,
        exists|k: int| from <= k < to && #[trigger] f(k) == first_some(f, from, to),
    decreases to - from,
{
    if f(from) is Some {
        assert(f(from) == first_some(f, from, to));
    } else {
        lemma_first_some(f, from + 1, to, at);
        let k = choose|k: int| from + 1 <= k < to && #[trigger] f(k) == first_some(f, from + 1, to);
        assert(from <= k < to && f(k) == first_some(f, from, to));
    }
}

/// A class that declares itself as its own ancestor, at whatever
/// distance, keeps the tree from being built: where the parents are legal
/// and defined, the violation is an inheritance cycle.
pub proof fn lemma_cycle_rejected(t: &NameMap<Class>, i: int, k: nat)
    requires
        t.wf(),
        has_root(t),
        0 <= i < t.values().len(),
        k >= 1,
        nth_ancestor(parents_of(t), i, k) == Some(i),
    ensures
        graph_violation(t) is Some,
        first_some(illegal_parent_at(t), 0, t.values().len() as int) is None && first_some(
            undefined_parent_at(t),
            0,
            t.values().len() as int,
        ) is None ==> graph_violation(t)->Some_0.kind == ErrorKind::InheritanceCycle,
{
    let parents = parents_of(t);
    let root = root_of(t);
    let n = t.values().len() as int;
    assert(parents[root] is None) by {
        let r = t.position("Object"@).unwrap();
        assert(t.value_of("Object"@) == t.values()[r]);
    }
    lemma_cycle_off_tree(parents, root, i, k);
    assert(off_tree_at(t)(i) is Some);
    lemma_first_some(off_tree_at(t), 0, n, i);
    let w = choose|w: int|
        0 <= w < n && #[trigger] off_tree_at(t)(w) == first_some(off_tree_at(t), 0, n);
    assert(off_tree(t, w) is Some);
}

/// The names of the slots after a method.
pub proof fn lemma_with_method(slots: Seq<SlotView>, name: Seq<char>, owner: Seq<char>, m: Method)
    requires
        slot_names(slots).no_duplicates(),
    ensures
        slot_names(with_method(slots, name, owner, m)).no_duplicates(),
        with_method(slots, name, owner, m).len() >= slots.len(),
        forall|pos: int|
            0 <= pos < slots.len() ==> {
                &&& (#[trigger] with_method(slots, name, owner, m)[pos]).name == slots[pos].name
                &&& slots[pos].name == name ==> with_method(slots, name, owner, m)[pos].owner
                    == owner
                &&& slots[pos].name != name ==> with_method(slots, name, owner, m)[pos]
                    == slots[pos]
            },
{
    let names = slot_names(slots);
    let r = with_method(slots, name, owner, m);
    match position_of(names, name) {
        Some(s) => {
            assert(names[s] == name);
            assert(slot_names(r) =~= names);
            assert forall|pos: int| 0 <= pos < slots.len() && slots[pos].name == name implies pos
                == s by {
                assert(names[pos] == name);
            }
        },
        None => {
            assert(slot_names(r) =~= names.push(name));
            assert forall|pos: int| 0 <= pos < slots.len() implies slots[pos].name != name by {
                assert(names[pos] == slots[pos].name);
            }
        },
    }
}

/// The slots that a class inherits keep their places and their methods
/// through the methods of the class. A slot whose method the class
/// declares goes to the class; every other slot stays with the class that
/// had it.
pub proof fn lemma_slots_upto(
    names: Seq<Seq<char>>,
    ms: Seq<Method>,
    i: int,
    owner: Seq<char>,
    slots: Seq<SlotView>,
    pos: int,
)
    requires
        slot_names(slots).no_duplicates(),
        0 <= pos < slots.len(),
        0 <= i <= names.len(),
    ensures
        slot_names(slots_upto(names, ms, i, owner, slots)).no_duplicates(),
        slots_upto(names, ms, i, owner, slots).len() >= slots.len(),
        slots_upto(names, ms, i, owner, slots)[pos].name == slots[pos].name,
        (exists|j: int| 0 <= j < i && names[j] == slots[pos].name) ==> slots_upto(
            names,
            ms,
            i,
            owner,
            slots,
        )[pos].owner == owner,
        (forall|j: int| 0 <= j < i ==> names[j] != slots[pos].name) ==> slots_upto(
            names,
            ms,
            i,
            owner,
            slots,
        )[pos] == slots[pos],
    decreases i,
{
    if i > 0 {
        lemma_slots_upto(names, ms, i - 1, owner, slots, pos);
        let before = slots_upto(names, ms, i - 1, owner, slots);
        lemma_with_method(before, names[i - 1], owner, ms[i - 1]);
        let after = slots_upto(names, ms, i, owner, slots);
        assert(after == with_method(before, names[i - 1], owner, ms[i - 1]));
        if exists|j: int| 0 <= j < i && names[j] == slots[pos].name {
            let j = choose|j: int| 0 <= j < i && names[j] == slots[pos].name;
            if j < i - 1 {
                assert(0 <= j < i - 1 && names[j] == slots[pos].name);
            }
        }
    }
}

/// What a passed table holds of the tables of class `c`.
proof fn lemma_class_tables(t: &NameMap<Class>, out: &NameMap<Class>, s: PassState, c: int)
    requires
        pass_out(t, out, s),
        0 <= c < t.values().len(),
    ensures
        tables_match(out.values()[c], s.slots[c]),
        class_settled(t, c, s),
{
    reveal(class_out);
    assert(class_out(t, out, c, s));
}

/// Overriding never moves a method to another slot. In a program that has
/// passed the first pass, every slot of the dispatch table of a parent is
/// a slot of the dispatch table of its child, for the same method. Where
/// the child declares the method, the slot names the child as the
/// implementing class; where it does not, the slot names the class that
/// the parent's table names.
pub proof fn lemma_override_slot_stable(
    t: &NameMap<Class>,
    out: &NameMap<Class>,
    s: PassState,
    d: int,
    p: int,
    slot: int,
)
    requires
        pass_out(t, out, s),
        0 <= d < t.values().len(),
        0 <= p < t.values().len(),
        parents_of(t)[d] == Some(p),
        t.values()[d].methods.wf(),
        0 <= slot < out.values()[p].dispatch_table.len(),
    ensures
        slot < out.values()[d].dispatch_table.len(),
        out.values()[d].dispatch_table[slot].1@ == out.values()[p].dispatch_table[slot].1@,
        t.values()[d].methods.contains_name(out.values()[p].dispatch_table[slot].1@)
            ==> out.values()[d].dispatch_table[slot].0@ == t.keys()[d],
        !t.values()[d].methods.contains_name(out.values()[p].dispatch_table[slot].1@)
            ==> out.values()[d].dispatch_table[slot].0@ == out.values()[p].dispatch_table[slot].0@,
{
    lemma_class_tables(t, out, s, d);
    lemma_class_tables(t, out, s, p);
    let inherited = s.slots[p];
    let class = t.values()[d];
    let names = class.methods.keys();
    let n = class.methods.values().len() as int;
    assert(slot_names(inherited) == out.values()[p].method_name_to_pos.keys());
    lemma_slots_upto(names, class.methods.values(), n, t.keys()[d], inherited, slot);
    let x = inherited[slot].name;
    if names.contains(x) {
        let j = choose|j: int| 0 <= j < names.len() && names[j] == x;
        assert(0 <= j < n && names[j] == x);
    }
}

/// A slot keeps its method all the way down. In a program that has passed
/// the first pass, every slot of the dispatch table of a class is a slot of
/// the dispatch table of each of its descendants, for the same method.
pub proof fn lemma_slot_same_in_descendants(
    t: &NameMap<Class>,
    out: &NameMap<Class>,
    s: PassState,
    d: int,
    a: int,
    k: nat,
    slot: int,
)
    requires
        t.wf(),
        forall|i: int| 0 <= i < t.values().len() ==> (#[trigger] t.values()[i]).methods.wf(),
        pass_out(t, out, s),
        nth_ancestor(parents_of(t), d, k) == Some(a),
        0 <= a < t.values().len(),
        0 <= slot < out.values()[a].dispatch_table.len(),
    ensures
        0 <= d < t.values().len(),
        slot < out.values()[d].dispatch_table.len(),
        out.values()[d].dispatch_table[slot].1@ == out.values()[a].dispatch_table[slot].1@,
    decreases k,
{
    lemma_nth_in_range(parents_of(t), d, k);
    if k > 0 {
        let p = parents_of(t)[d].unwrap();
        lemma_slot_same_in_descendants(t, out, s, p, a, (k - 1) as nat, slot);
        lemma_override_slot_stable(t, out, s, d, p, slot);
    }
}

/// A class holds the attributes of every class that it descends from.
proof fn lemma_visible_holds(
    t: &NameMap<Class>,
    out: &NameMap<Class>,
    s: PassState,
    c: int,
    a: int,
    k: nat,
    j: int,
)
    requires
        t.wf(),
        pass_out(t, out, s),
        nth_ancestor(parents_of(t), c, k) == Some(a),
        0 <= a < t.values().len(),
        0 <= j < t.values()[a].attrs.len(),
    ensures
        0 <= c < t.values().len(),
        s.visible[c].contains(t.values()[a].attrs[j].name@),
    decreases k,
{
    let x = t.values()[a].attrs[j].name@;
    assert(0 <= c < t.values().len()) by {
        lemma_nth_in_range(parents_of(t), c, k);
    }
    lemma_class_tables(t, out, s, c);
    let inh = inherited_names(t, c, s);
    let own = attr_names(t.values()[c].attrs@, t.values()[c].attrs.len() as int);
    if k == 0 {
        assert(own[j] == x);
        assert((inh + own)[inh.len() + j] == x);
    } else {
        let p = parents_of(t)[c].unwrap();
        lemma_visible_holds(t, out, s, p, a, (k - 1) as nat, j);
        let at = choose|at: int| 0 <= at < s.visible[p].len() && s.visible[p][at] == x;
        assert((inh + own)[at] == x);
    }
}

/// Attributes are never shadowed. In a program that has passed the first
/// pass, no attribute of a class has the name of an attribute of a class
/// that it descends from: a program in which one has is refused.
pub proof fn lemma_attributes_never_shadow(
    t: &NameMap<Class>,
    out: &NameMap<Class>,
    s: PassState,
    d: int,
    a: int,
    i: int,
    j: int,
)
    requires
        t.wf(),
        pass_out(t, out, s),
        descends(parents_of(t), d, a),
        d != a,
        0 <= d < t.values().len(),
        0 <= a < t.values().len(),
        0 <= i < t.values()[d].attrs.len(),
        0 <= j < t.values()[a].attrs.len(),
    ensures
        t.values()[d].attrs[i].name@ != t.values()[a].attrs[j].name@,
{
    let parents = parents_of(t);
    lemma_descends_unstep(parents, d, a);
    let p = parents[d].unwrap();
    let k = choose|k: nat| nth_ancestor(parents, p, k) == Some(a);
    lemma_visible_holds(t, out, s, p, a, k, j);
    lemma_class_tables(t, out, s, d);
    let attr = t.values()[d].attrs[i];
    assert(inherited_names(t, d, s) == s.visible[p]);
}

/// The second pass leaves the tree as it is.
pub proof fn lemma_typed_tree(
    t: &NameMap<Class>,
    out: &NameMap<Class>,
    pr: Program,
    envs: Seq<Env>,
)
    requires
        tree_built(t),
        sp_pass_out(t, out, pr, envs),
    ensures
        tree_built(out),
{
    let n = t.values().len();
    assert(out.values().len() == n);
    assert forall|i: int| 0 <= i < n implies {
        &&& t.values()[i].parent_name == (#[trigger] out.values()[i]).parent_name
        &&& t.values()[i].family == out.values()[i].family
        &&& t.values()[i].child_names == out.values()[i].child_names
    } by {
        assert(sp_class_out(t, out, i, pr, envs[i]));
    }
    lemma_same_parents(t, out);
    assert(families_in(out) =~= families_in(t));
    assert(has_root(out)) by {
        let r = t.position("Object"@).unwrap();
        assert(t.values()[r].parent_name == out.values()[r].parent_name);
    }
}

/// What the analysis returns has the classes of its input, in their order,
/// with the tree built: the tags and families describe the inheritance
/// tree.
pub proof fn lemma_analysed_tree(
    t: &NameMap<Class>,
    out: &NameMap<Class>,
    ints: Seq<u32>,
    strs: Seq<Seq<char>>,
)
    requires
        classes_wf(t),
        semant_ok(t, out, ints, strs),
    ensures
        out.keys() == t.keys(),
        tree_built(out),
{
    let (t1, t2, sigs, parent_names, families) = choose|
        t1: NameMap<Class>,
        t2: NameMap<Class>,
        sigs: NameMap<NameMap<Slot>>,
        parent_names: NameMap<TypeID>,
        families: NameMap<Range<u32>>,
    |
        {
            &&& enriched(t, &t1)
            &&& main_violation(&t1) is None
            &&& #[trigger] first_stage(
                &t1,
                &t2,
                Pools { ints, strs },
                &sigs,
                &parent_names,
                &families,
            )
            &&& sp_run(
                &t2,
                t2.values().len() as int,
                Program { sigs, parent_names, families },
            ) matches Ok(envs)
            &&& sp_pass_out(
                &t2,
                out,
                Program { sigs, parent_names, families },
                envs,
            )
        };
    lemma_enriched_wf(t, &t1);
    let s = fp_run(
        &t1,
        t1.values().len() as int,
        initial_pools(),
    )->Ok_0;
    lemma_passed_wf(&t1, &t2, s);
    let pr = Program { sigs, parent_names, families };
    let envs = sp_run(&t2, t2.values().len() as int, pr)->Ok_0;
    lemma_typed_tree(&t2, out, pr, envs);
}

} // verus!
