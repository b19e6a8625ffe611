//! The first pass over the classes: attribute offsets, dispatch tables, the
//! declarations' own rules, and the pools of constants.

pub mod class_pass;
pub mod first_pass_attr;
pub mod first_pass_branch;
pub mod first_pass_expr;
pub mod first_pass_method;
pub mod layout;
pub mod rules;

use crate::ast::{Attr, Class, Method, TypeID};
use crate::error::{ErrorView, SemantError};
use crate::name_table::{IntSet, NameMap, NameSet};
use crate::semant::build_inheritiance_tree::{
    classes_wf, families_in, lemma_parents_in_range, parents_of, root_of, tree_built,
};
use crate::semant::first_pass::class_pass::{make_tables, pass_attrs, pass_methods};
use crate::semant::first_pass::first_pass_expr::pools_of;
use crate::semant::first_pass::layout::{
    attr_names, attr_out, base_offset, class_out, class_scope, class_slots, class_with_tag, fp_class,
    fp_run, inherited_names, inherited_slots, initial_state, method_out, pass_out, slots_view,
    class_settled, fp_attrs, lemma_attrs_clean, lemma_methods_clean, lemma_run_stops,
    tables_match, PassState, Slot, ATTR_OFFSET_START,
};
use crate::semant::first_pass::rules::{is_prefix, lemma_fp_out_mono, Pools};
use crate::semant::hierarchy::{lemma_tag_bounds, tree_ok};
use std::ops::Range;
use vstd::prelude::*;

verus! {

/// What the pass knows, as the rules read it.
pub open spec fn state_of(
    int_table: &IntSet,
    str_table: &NameSet,
    visible: Seq<NameSet>,
    next_offset: Seq<i32>,
    slots: Seq<NameMap<Slot>>,
) -> PassState {
    PassState {
        pools: pools_of(int_table, str_table),
        visible: Seq::new(visible.len(), |i: int| visible[i]@),
        next_offset: Seq::new(next_offset.len(), |i: int| next_offset[i] as int),
        slots: Seq::new(slots.len(), |i: int| slots_view(&slots[i])),
    }
}

/// The records of the pass are well formed and within their bounds.
pub open spec fn state_ok(
    visible: Seq<NameSet>,
    next_offset: Seq<i32>,
    slots: Seq<NameMap<Slot>>,
    n: nat,
) -> bool {
    &&& visible.len() == n
    &&& next_offset.len() == n
    &&& slots.len() == n
    &&& forall|i: int| 0 <= i < n ==> (#[trigger] visible[i]).wf()
    &&& forall|i: int| 0 <= i < n ==> 0 <= (#[trigger] next_offset[i]) <= 32768
    &&& forall|i: int|
        0 <= i < n ==> (#[trigger] slots[i]).wf() && slots[i].values().len() <= 32768
}

/// What holds of a passed class with the strings of the moment holds with
/// every later list of strings, as long as the records that it rests on
/// stay as they are.
pub proof fn lemma_class_out_stable(
    t: &NameMap<Class>,
    out1: &NameMap<Class>,
    out2: &NameMap<Class>,
    d: int,
    s1: PassState,
    s2: PassState,
)
    requires
        class_out(t, out1, d, s1),
        out2.values()[d] == out1.values()[d],
        base_offset(t, d, s1) == base_offset(t, d, s2),
        inherited_names(t, d, s1) == inherited_names(t, d, s2),
        inherited_slots(t, d, s1) == inherited_slots(t, d, s2),
        s1.slots[d] == s2.slots[d],
        s1.visible[d] == s2.visible[d],
        s1.next_offset[d] == s2.next_offset[d],
        is_prefix(s1.pools.strs, s2.pools.strs),
        s2.pools.strs.no_duplicates(),
    ensures
        class_out(t, out2, d, s2),
{
    reveal(class_out);
    let a = t.values()[d];
    let b = out2.values()[d];
    let cx = class_scope(t, d);
    assert forall|k: int| 0 <= k < a.attrs.len() implies attr_out(
        a.attrs[k],
        #[trigger] b.attrs[k],
        cx,
        base_offset(t, d, s2) + k,
        s2.pools.strs,
    ) by {
        assert(attr_out(a.attrs[k], b.attrs[k], cx, base_offset(t, d, s1) + k, s1.pools.strs));
        lemma_fp_out_mono(a.attrs[k].init, b.attrs[k].init, cx, s1.pools.strs, s2.pools.strs);
    }
    assert forall|k: int| 0 <= k < a.methods.values().len() implies method_out(
        a.methods.values()[k],
        #[trigger] b.methods.values()[k],
        cx,
        s2.pools.strs,
    ) by {
        assert(method_out(a.methods.values()[k], b.methods.values()[k], cx, s1.pools.strs));
        lemma_fp_out_mono(
            a.methods.values()[k].expr,
            b.methods.values()[k].expr,
            cx,
            s1.pools.strs,
            s2.pools.strs,
        );
    }
}

/// Passes class `c`, whose parent stands at `parent`: its attributes get
/// their offsets and its methods their slots, and what the class leaves to
/// its children is recorded.
fn pass_class(
    classes: &mut NameMap<Class>,
    c: usize,
    parent: Option<usize>,
    int_table: &mut IntSet,
    str_table: &mut NameSet,
    visible: &mut Vec<NameSet>,
    next_offset: &mut Vec<i32>,
    slots: &mut Vec<NameMap<Slot>>,
    Ghost(t): Ghost<&NameMap<Class>>,
) -> (r: Result<(), SemantError>)
    requires
        old(classes).wf(),
        t.wf(),
        old(classes).keys() == t.keys(),
        old(classes).values().len() == t.values().len(),
        c < t.values().len(),
        families_in(old(classes)) == families_in(t),
        old(classes).values()[c as int] == t.values()[c as int],
        t.values()[c as int].methods.wf(),
        match parent {
            Some(p) => parents_of(t)[c as int] == Some(p as int) && p < t.values().len() && p != c,
            None => parents_of(t)[c as int] is None,
        },
        state_ok(old(visible)@, old(next_offset)@, old(slots)@, t.values().len()),
        old(str_table).wf(),
    ensures
        final(classes).wf(),
        final(classes).keys() == t.keys(),
        final(classes).values().len() == t.values().len(),
        families_in(final(classes)) == families_in(t),
        forall|d: int|
            0 <= d < t.values().len() && d != c ==> (#[trigger] final(classes).values()[d]) == old(
                classes,
            ).values()[d],
        state_ok(final(visible)@, final(next_offset)@, final(slots)@, t.values().len()),
        final(str_table).wf(),
        is_prefix(old(str_table)@, final(str_table)@),
        match r {
            Ok(_) => {
                &&& fp_class(
                    t,
                    c as int,
                    state_of(
                        old(int_table),
                        old(str_table),
                        old(visible)@,
                        old(next_offset)@,
                        old(slots)@,
                    ),
                ) == Ok::<PassState, ErrorView>(
                    state_of(
                        final(int_table),
                        final(str_table),
                        final(visible)@,
                        final(next_offset)@,
                        final(slots)@,
                    ),
                )
                &&& class_out(
                    t,
                    final(classes),
                    c as int,
                    state_of(
                        final(int_table),
                        final(str_table),
                        final(visible)@,
                        final(next_offset)@,
                        final(slots)@,
                    ),
                )
            },
            Err(e) => fp_class(
                t,
                c as int,
                state_of(old(int_table), old(str_table), old(visible)@, old(next_offset)@, old(slots)@),
            ) == Err::<PassState, ErrorView>(e@),
        },
{
    let ghost s0 = state_of(int_table, str_table, visible@, next_offset@, slots@);
    let ghost classes0 = *classes;
    let name = TypeID::new(classes.key(c).clone());
    let family: Range<u32> = classes.value(c).family.start..classes.value(c).family.end;
    let file: String = classes.value(c).file_name.clone();
    let mut attrs: Vec<Attr> = Vec::new();
    let mut methods: NameMap<Method> = NameMap::new();
    {
        let class = classes.value_mut(c);
        core::mem::swap(&mut attrs, &mut class.attrs);
        core::mem::swap(&mut methods, &mut class.methods);
    }
    let ghost cx = class_scope(t, c as int);
    proof {
        assert(families_in(classes) =~= families_in(t)) by {
            assert forall|i: int| 0 <= i < t.values().len() implies (
            #[trigger] classes.values()[i]).family == t.values()[i].family by {
                assert(families_in(&classes0)[i] == families_in(t)[i]);
            }
        }
        assert(attrs@ == t.values()[c as int].attrs@);
        assert(methods == t.values()[c as int].methods);
    }
    let empty_names = NameSet::new();
    let empty_slots: NameMap<Slot> = NameMap::new();
    let base: i32 = match parent {
        Some(p) => next_offset[p],
        None => 3,
    };
    let inh_names: &NameSet = match parent {
        Some(p) => &visible[p],
        None => &empty_names,
    };
    let inh_slots: &NameMap<Slot> = match parent {
        Some(p) => &slots[p],
        None => &empty_slots,
    };
    proof {
        assert(inh_names@ == inherited_names(t, c as int, s0));
        assert(base == base_offset(t, c as int, s0));
        assert(slots_view(inh_slots) =~= inherited_slots(t, c as int, s0));
    }
    let (new_attrs, vis) = match pass_attrs(
        attrs,
        classes,
        &name,
        &family,
        file.as_str(),
        base,
        int_table,
        str_table,
        inh_names,
    ) {
        Ok(r) => r,
        Err(err) => {
            return Err(err);
        },
    };
    let ghost strs1 = str_table@;
    let (new_methods, my_slots) = match pass_methods(
        methods,
        classes,
        &name,
        &family,
        file.as_str(),
        int_table,
        str_table,
        inh_slots,
    ) {
        Ok(r) => r,
        Err(err) => {
            return Err(err);
        },
    };
    let (table, positions) = make_tables(&my_slots);
    let count = new_attrs.len();
    let ghost new_attrs0 = new_attrs@;
    {
        let class = classes.value_mut(c);
        class.attrs = new_attrs;
        class.methods = new_methods;
        class.dispatch_table = table;
        class.method_name_to_pos = positions;
    }
    let next: i32 = base + #[verifier::truncate] (count as i32);
    let ghost vis_view = vis@;
    let ghost my_view = slots_view(&my_slots);
    visible.set(c, vis);
    next_offset.set(c, next);
    slots.set(c, my_slots);
    proof {
        reveal(class_out);
        let s1 = state_of(int_table, str_table, visible@, next_offset@, slots@);
        let class = t.values()[c as int];
        assert(s1.visible =~= s0.visible.update(c as int, vis_view));
        assert(s1.next_offset =~= s0.next_offset.update(
            c as int,
            base_offset(t, c as int, s0) + class.attrs.len(),
        ));
        assert(s1.slots =~= s0.slots.update(c as int, my_view));
        assert(my_view == class_slots(t, c as int, s0));
        assert(base_offset(t, c as int, s1) == base_offset(t, c as int, s0));
        assert(inherited_names(t, c as int, s1) == inherited_names(t, c as int, s0));
        assert(inherited_slots(t, c as int, s1) == inherited_slots(t, c as int, s0));
        lemma_attrs_clean(
            class.attrs@,
            0,
            cx,
            inherited_names(t, c as int, s0),
            base_offset(t, c as int, s0),
            s0.pools,
        );
        let pools1 = fp_attrs(
            class.attrs@,
            0,
            cx,
            inherited_names(t, c as int, s0),
            base_offset(t, c as int, s0),
            s0.pools,
        )->Ok_0;
        lemma_methods_clean(
            class.methods.keys(),
            class.methods.values(),
            0,
            cx,
            inherited_slots(t, c as int, s0),
            pools1,
        );
        assert(class_settled(t, c as int, s1));
        assert(families_in(classes) =~= families_in(t));
        let b = classes.values()[c as int];
        assert forall|k: int| 0 <= k < class.attrs.len() implies attr_out(
            class.attrs[k],
            #[trigger] b.attrs[k],
            cx,
            base_offset(t, c as int, s1) + k,
            s1.pools.strs,
        ) by {
            assert(attr_out(class.attrs[k], new_attrs0[k], cx, base + k, strs1));
            lemma_fp_out_mono(class.attrs[k].init, new_attrs0[k].init, cx, strs1, str_table@);
        }
    }
    Ok(())
}

/// The first pass over all classes, in the order of their tags, which is
/// the order of the depth-first walk from the root class: every class is
/// passed after its parent. The attributes of a class get the offsets that
/// follow those of its parent, from `ATTR_OFFSET_START` on in the root
/// class. The dispatch table of a class is that of its parent, with the
/// class in the slot of every method that it overrides and a new last slot
/// for every other method. The integer and string constants of all
/// expressions are collected. The first violation in this order ends the
/// pass. With the classes the pass returns the slots of every class, which
/// hold the signatures of its methods.
pub fn first_pass(classes: NameMap<Class>, int_table: &mut IntSet, str_table: &mut NameSet) -> (r:
    Result<(NameMap<Class>, Vec<NameMap<Slot>>), SemantError>)
    requires
        classes_wf(&classes),
        tree_built(&classes),
        old(str_table).wf(),
    ensures
        final(str_table).wf(),
        is_prefix(old(str_table)@, final(str_table)@),
        match r {
            Ok((out, slots)) => {
                &&& fp_run(
                    &classes,
                    classes.values().len() as int,
                    pools_of(old(int_table), old(str_table)),
                ) matches Ok(s)
                &&& s.pools == pools_of(final(int_table), final(str_table))
                &&& pass_out(&classes, &out, s)
                &&& slots.len() == classes.values().len()
                &&& forall|c: int|
                    0 <= c < slots.len() ==> (#[trigger] slots[c]).wf() && slots_view(&slots[c])
                        == s.slots[c]
            },
            Err(e) => fp_run(
                &classes,
                classes.values().len() as int,
                pools_of(old(int_table), old(str_table)),
            ) == Err::<PassState, ErrorView>(e@),
        },
{
    let ghost t = classes;
    let ghost pools0 = pools_of(int_table, str_table);
    let ghost pars = parents_of(&t);
    let ghost fams = families_in(&t);
    let ghost root = root_of(&t);
    let mut table = classes;
    let n = table.len();
    proof {
        lemma_parents_in_range(&t);
    }
    let mut parents: Vec<Option<usize>> = Vec::new();
    let mut order: Vec<usize> = Vec::new();
    let mut visible: Vec<NameSet> = Vec::new();
    let mut next_offset: Vec<i32> = Vec::new();
    let mut slots: Vec<NameMap<Slot>> = Vec::new();
    let mut i: usize = 0;
    while i < n
        invariant
            t == classes,
            table == t,
            t.wf(),
            n == t.values().len(),
            i <= n,
            parents.len() == i,
            order.len() == i,
            visible.len() == i,
            next_offset.len() == i,
            slots.len() == i,
            forall|k: int|
                0 <= k < i ==> match #[trigger] parents[k] {
                    Some(p) => parents_of(&t)[k] == Some(p as int) && p < n,
                    None => parents_of(&t)[k] is None,
                },
            forall|k: int| 0 <= k < i ==> (#[trigger] visible[k]).wf() && visible[k]@.len() == 0,
            forall|k: int| 0 <= k < i ==> (#[trigger] next_offset[k]) == 3,
            forall|k: int|
                0 <= k < i ==> (#[trigger] slots[k]).wf() && slots[k].values().len() == 0,
        decreases n - i,
    {
        let parent = match &table.value(i).parent_name {
            Some(p) => table.index_of(p.as_str()),
            None => None,
        };
        parents.push(parent);
        order.push(0);
        visible.push(NameSet::new());
        next_offset.push(3);
        slots.push(NameMap::new());
        i += 1;
    }
    let mut c: usize = 0;
    while c < n
        invariant
            t == classes,
            table == t,
            n == t.values().len(),
            c <= n,
            order.len() == n,
            tree_ok(pars, fams, root),
            pars == parents_of(&t),
            fams == families_in(&t),
            forall|d: int|
                0 <= d < c && (#[trigger] t.values()[d]).family.start < n ==> order[t.values()[d].family.start as int]
                    == d,
            parents.len() == n,
            visible.len() == n,
            next_offset.len() == n,
            slots.len() == n,
            forall|k: int|
                0 <= k < n ==> match #[trigger] parents[k] {
                    Some(p) => parents_of(&t)[k] == Some(p as int) && p < n,
                    None => parents_of(&t)[k] is None,
                },
            forall|k: int| 0 <= k < n ==> (#[trigger] visible[k]).wf() && visible[k]@.len() == 0,
            forall|k: int| 0 <= k < n ==> (#[trigger] next_offset[k]) == 3,
            forall|k: int|
                0 <= k < n ==> (#[trigger] slots[k]).wf() && slots[k].values().len() == 0,
        decreases n - c,
    {
        let tag = table.value(c).family.start as usize;
        if tag < n {
            let ghost before = order@;
            order.set(tag, c);
            proof {
                assert forall|d: int|
                    0 <= d < c + 1 && (#[trigger] t.values()[d]).family.start < n implies order[t.values()[d].family.start as int]
                    == d by {
                    if d < c {
                        assert(fams[d].start != fams[c as int].start);
                        assert(before[t.values()[d].family.start as int] == d);
                    }
                }
            }
        }
        c += 1;
    }
    proof {
        assert forall|i: int| 0 <= i < n implies (#[trigger] visible[i])@ =~= Seq::<Seq<char>>::empty() by {}
        assert forall|i: int| 0 <= i < n implies slots_view(&#[trigger] slots[i]) =~= Seq::empty() by {}
        assert(state_of(int_table, str_table, visible@, next_offset@, slots@).visible
            =~= initial_state(n as nat, pools0).visible);
        assert(state_of(int_table, str_table, visible@, next_offset@, slots@).next_offset
            =~= initial_state(n as nat, pools0).next_offset);
        assert(state_of(int_table, str_table, visible@, next_offset@, slots@).slots =~= initial_state(
            n as nat,
            pools0,
        ).slots);
    }
    let mut k: usize = 0;
    while k < n
        invariant
            t == classes,
            classes_wf(&t),
            tree_ok(pars, fams, root),
            pars == parents_of(&t),
            fams == families_in(&t),
            n == t.values().len(),
            k <= n,
            order.len() == n,
            parents.len() == n,
            forall|d: int|
                0 <= d < n && (#[trigger] t.values()[d]).family.start < n ==> order[t.values()[d].family.start as int]
                    == d,
            forall|d: int|
                0 <= d < n ==> match #[trigger] parents[d] {
                    Some(p) => parents_of(&t)[d] == Some(p as int) && p < n,
                    None => parents_of(&t)[d] is None,
                },
            table.wf(),
            table.keys() == t.keys(),
            table.values().len() == n,
            families_in(&table) == families_in(&t),
            state_ok(visible@, next_offset@, slots@, n as nat),
            str_table.wf(),
            pools0 == pools_of(old(int_table), old(str_table)),
            is_prefix(pools0.strs, str_table@),
            fp_run(&t, k as int, pools0) == Ok::<PassState, ErrorView>(
                state_of(int_table, str_table, visible@, next_offset@, slots@),
            ),
            forall|d: int|
                0 <= d < n && (#[trigger] t.values()[d]).family.start >= k ==> table.values()[d]
                    == t.values()[d],
            forall|d: int|
                0 <= d < n && t.values()[d].family.start < k ==> #[trigger] class_out(
                    &t,
                    &table,
                    d,
                    state_of(int_table, str_table, visible@, next_offset@, slots@),
                ),
        decreases n - k,
    {
        let c = order[k];
        let ghost s0 = state_of(int_table, str_table, visible@, next_offset@, slots@);
        let ghost table0 = table;
        if c < n && table.value(c).family.start as usize == k {
            proof {
                assert(families_in(&table)[c as int] == families_in(&t)[c as int]);
                assert(t.values()[c as int].family.start == k);
                assert(table.values()[c as int] == t.values()[c as int]);
                assert(class_with_tag(&t, k as int) == Some(c as int)) by {
                    let x = choose|x: int|
                        0 <= x < t.values().len() && (#[trigger] t.values()[x]).family.start == k;
                    if x != c {
                        assert(fams[x].start != fams[c as int].start);
                    }
                }
                lemma_tag_bounds(pars, fams, root, c as int);
                assert(t.values()[c as int].wf());
            }
            match pass_class(
                &mut table,
                c,
                parents[c],
                int_table,
                str_table,
                &mut visible,
                &mut next_offset,
                &mut slots,
                Ghost(&t),
            ) {
                Err(err) => {
                    proof {
                        assert(fp_run(&t, k + 1, pools0) == Err::<PassState, ErrorView>(err@));
                        lemma_run_stops(&t, k + 1, n as int, pools0);
                    }
                    return Err(err);
                },
                Ok(_) => {},
            }
            proof {
                let s1 = state_of(int_table, str_table, visible@, next_offset@, slots@);
                assert(fp_class(&t, c as int, s0) == Ok::<PassState, ErrorView>(s1));
                assert forall|d: int|
                    0 <= d < n && t.values()[d].family.start < k + 1 implies #[trigger] class_out(
                    &t,
                    &table,
                    d,
                    s1,
                ) by {
                    if d != c {
                        assert(fams[d].start != fams[c as int].start);
                        assert(t.values()[d].family.start < k);
                        assert(class_out(&t, &table0, d, s0));
                        lemma_tag_bounds(pars, fams, root, d);
                        if let Some(p) = pars[d] {
                            assert(fams[p].start < fams[d].start);
                            assert(p != c);
                            assert(s1.next_offset[p] == s0.next_offset[p]);
                            assert(s1.visible[p] == s0.visible[p]);
                            assert(s1.slots[p] == s0.slots[p]);
                        }
                        assert(s1.slots[d] == s0.slots[d]);
                        assert(s1.visible[d] == s0.visible[d]);
                        assert(s1.next_offset[d] == s0.next_offset[d]);
                        lemma_class_out_stable(&t, &table0, &table, d, s0, s1);
                    }
                }
                assert forall|d: int|
                    0 <= d < n && (#[trigger] t.values()[d]).family.start >= k + 1 implies table.values()[d]
                    == t.values()[d] by {
                    assert(d != c);
                    assert(table0.values()[d] == t.values()[d]);
                }
            }
        } else {
            proof {
                assert(class_with_tag(&t, k as int) is None) by {
                    if exists|x: int|
                        0 <= x < t.values().len() && (#[trigger] t.values()[x]).family.start == k {
                        let x = choose|x: int|
                            0 <= x < t.values().len() && (#[trigger] t.values()[x]).family.start
                                == k;
                        assert(order[t.values()[x].family.start as int] == x);
                    }
                }
                assert forall|d: int|
                    0 <= d < n && t.values()[d].family.start < k + 1 implies #[trigger] class_out(
                    &t,
                    &table,
                    d,
                    s0,
                ) by {
                    if t.values()[d].family.start == k {
                        assert(order[t.values()[d].family.start as int] == d);
                    }
                }
            }
        }
        k += 1;
    }
    proof {
        let s = state_of(int_table, str_table, visible@, next_offset@, slots@);
        assert forall|d: int| 0 <= d < n implies #[trigger] class_out(&t, &table, d, s) by {
            lemma_tag_bounds(pars, fams, root, d);
        }
    }
    Ok((table, slots))
}

} // verus!
