//! The first pass over the attributes and the methods of one class.

use crate::ast::{Attr, Class, Method, ObjectID, TypeID};
use crate::error::{ErrorKind, ErrorView, SemantError};
use crate::name_table::{IntSet, NameMap, NameSet};
use crate::scoped_collections::{in_frames, ScopedIndexSet};
use crate::semant::first_pass::first_pass_attr::first_pass_attr;
use crate::semant::first_pass::first_pass_expr::{pools_of, scope_of};
use crate::semant::first_pass::first_pass_method::first_pass_method;
use crate::semant::first_pass::layout::{
    attr_fault, attr_names, attr_out, copy_slots, fp_attrs, fp_methods, method_fault, method_out,
    slot_names, slots_upto, slots_view, with_method, Slot, SlotView,
};
use crate::semant::first_pass::rules::{
    fp_check, is_prefix, lemma_fp_out_mono, Pools, Scope,
};
use std::ops::Range;
use vstd::prelude::*;

verus! {

/// Passes the attributes of a class in order, counting their offsets from
/// `base`. Returns the attributes, and the names of all attributes that the
/// class holds: the inherited ones and its own.
pub fn pass_attrs(
    attrs: Vec<Attr>,
    classes: &NameMap<Class>,
    current_class_name: &TypeID,
    current_class_family: &Range<u32>,
    file_name: &str,
    base: i32,
    int_table: &mut IntSet,
    str_table: &mut NameSet,
    inherited: &NameSet,
) -> (r: Result<(Vec<Attr>, NameSet), SemantError>)
    requires
        classes.wf(),
        old(str_table).wf(),
        inherited.wf(),
        0 <= base <= 32768,
    ensures
        final(str_table).wf(),
        is_prefix(old(str_table)@, final(str_table)@),
        match r {
            Ok((outs, visible)) => {
                &&& fp_attrs(
                    attrs@,
                    0,
                    scope_of(classes, current_class_name, current_class_family, file_name),
                    inherited@,
                    base as int,
                    pools_of(old(int_table), old(str_table)),
                ) == Ok::<Pools, ErrorView>(pools_of(final(int_table), final(str_table)))
                &&& outs.len() == attrs.len()
                &&& forall|k: int|
                    0 <= k < attrs.len() ==> attr_out(
                        attrs[k],
                        #[trigger] outs[k],
                        scope_of(classes, current_class_name, current_class_family, file_name),
                        base + k,
                        final(str_table)@,
                    )
                &&& visible.wf()
                &&& visible@ == inherited@ + attr_names(attrs@, attrs.len() as int)
                &&& base + attrs.len() <= 32768
            },
            Err(e) => fp_attrs(
                attrs@,
                0,
                scope_of(classes, current_class_name, current_class_family, file_name),
                inherited@,
                base as int,
                pools_of(old(int_table), old(str_table)),
            ) == Err::<Pools, ErrorView>(e@),
        },
{
    let ghost cx = scope_of(classes, current_class_name, current_class_family, file_name);
    let ghost pools0 = pools_of(int_table, str_table);
    let ghost attrs0 = attrs@;
    let mut frames = ScopedIndexSet::new();
    frames.enter_scope();
    let mut visible = NameSet::new();
    let mut j: usize = 0;
    while j < inherited.len()
        invariant
            inherited.wf(),
            frames.wf(),
            visible.wf(),
            frames.frames().len() == 1,
            j <= inherited@.len(),
            frames.frames().last()@ == inherited@.subrange(0, j as int),
            visible@ == inherited@.subrange(0, j as int),
        decreases inherited@.len() - j,
    {
        proof {
            let pre = inherited@.subrange(0, j as int);
            if pre.contains(inherited@[j as int]) {
                let x = choose|x: int| 0 <= x < j && pre[x] == inherited@[j as int];
                assert(inherited@[x] == inherited@[j as int]);
            }
            assert(pre.push(inherited@[j as int]) =~= inherited@.subrange(0, j + 1));
        }
        frames.insert(inherited.get(j).clone());
        visible.insert(inherited.get(j).clone());
        j += 1;
    }
    proof {
        assert(inherited@.subrange(0, inherited@.len() as int) =~= inherited@);
    }
    let ghost outer = frames.frames();
    frames.enter_scope();
    proof {
        assert(frames.frames().drop_last() == outer);
        assert(outer.len() == 1);
        assert(outer[0]@ == inherited@);
        assert(attr_names(attrs0, 0) =~= Seq::<Seq<char>>::empty());
        assert(inherited@ + attr_names(attrs0, 0) =~= inherited@);
    }
    let mut outs: Vec<Attr> = Vec::new();
    let mut offset: i32 = base;
    for attr in it: attrs
        invariant
            classes.wf(),
            str_table.wf(),
            frames.wf(),
            visible.wf(),
            it.seq() == attrs0,
            attrs0 == attrs@,
            pools0 == pools_of(old(int_table), old(str_table)),
            is_prefix(pools0.strs, str_table@),
            cx == scope_of(classes, current_class_name, current_class_family, file_name),
            0 <= base <= 32768,
            offset == base + it.index(),
            offset <= 32768,
            frames.frames().len() == 2,
            frames.frames().drop_last() == outer,
            outer.len() == 1,
            outer[0]@ == inherited@,
            frames.frames().last()@ == attr_names(attrs0, it.index() as int),
            visible@ == inherited@ + attr_names(attrs0, it.index() as int),
            fp_attrs(attrs0, 0, cx, inherited@, base as int, pools0) == fp_attrs(
                attrs0,
                it.index() as int,
                cx,
                inherited@,
                base as int,
                pools_of(int_table, str_table),
            ),
            outs.len() == it.index(),
            forall|k: int|
                0 <= k < it.index() ==> attr_out(attrs0[k], #[trigger] outs[k], cx, base + k, str_table@),
    {
        let ghost i = it.index() as int;
        let ghost before = outs@;
        let ghost p_before = pools_of(int_table, str_table);
        let ghost vis0 = visible@;
        proof {
            assert(attr == attrs0[i]);
            assert(in_frames(outer, attr.name@) <==> inherited@.contains(attr.name@)) by {
                if in_frames(outer, attr.name@) {
                    let x = choose|x: int| 0 <= x < outer.len() && (#[trigger] outer[x])@.contains(attr.name@);
                    assert(x == 0);
                }
                if inherited@.contains(attr.name@) {
                    assert(outer[0]@.contains(attr.name@));
                }
            }
        }
        if offset > 32767 {
            return Err(
                SemantError::with_name(
                    ErrorKind::TooManyAttributes,
                    file_name,
                    attr.line_no,
                    attr.name.as_str(),
                ),
            );
        }
        let name = attr.name.as_str().to_string();
        let out = match first_pass_attr(
            attr,
            classes,
            current_class_name,
            current_class_family,
            file_name,
            #[verifier::truncate]
            (offset as i16),
            int_table,
            str_table,
            &mut frames,
        ) {
            Ok(out) => out,
            Err(err) => {
                return Err(err);
            },
        };
        proof {
            assert(!vis0.contains(attrs0[i].name@)) by {
                if vis0.contains(attrs0[i].name@) {
                    let x = choose|x: int| 0 <= x < vis0.len() && vis0[x] == attrs0[i].name@;
                    if x < inherited@.len() {
                        assert(inherited@[x] == attrs0[i].name@);
                    } else {
                        assert(attr_names(attrs0, i)[x - inherited@.len()] == attrs0[i].name@);
                    }
                }
            }
        }
        visible.insert(name);
        outs.push(out);
        offset = offset + 1;
        proof {
            assert(attr_names(attrs0, i).push(attrs0[i].name@) =~= attr_names(attrs0, i + 1));
            assert(visible@ =~= inherited@ + attr_names(attrs0, i + 1));
            assert forall|k: int| 0 <= k < i + 1 implies attr_out(
                attrs0[k],
                #[trigger] outs[k],
                cx,
                base + k,
                str_table@,
            ) by {
                if k < i {
                    assert(outs[k] == before[k]);
                    lemma_fp_out_mono(attrs0[k].init, before[k].init, cx, p_before.strs, str_table@);
                }
            }
        }
    }
    Ok((outs, visible))
}

/// Passes the methods of a class in order, starting from the slots that
/// the class inherits. Returns the methods and the slots of the class.
pub fn pass_methods(
    methods: NameMap<Method>,
    classes: &NameMap<Class>,
    current_class_name: &TypeID,
    current_class_family: &Range<u32>,
    file_name: &str,
    int_table: &mut IntSet,
    str_table: &mut NameSet,
    inherited: &NameMap<Slot>,
) -> (r: Result<(NameMap<Method>, NameMap<Slot>), SemantError>)
    requires
        classes.wf(),
        methods.wf(),
        old(str_table).wf(),
        inherited.wf(),
        inherited.values().len() <= 32768,
    ensures
        final(str_table).wf(),
        is_prefix(old(str_table)@, final(str_table)@),
        match r {
            Ok((outs, slots)) => {
                &&& fp_methods(
                    methods.keys(),
                    methods.values(),
                    0,
                    scope_of(classes, current_class_name, current_class_family, file_name),
                    slots_view(inherited),
                    pools_of(old(int_table), old(str_table)),
                ) == Ok::<Pools, ErrorView>(pools_of(final(int_table), final(str_table)))
                &&& outs.wf()
                &&& outs.keys() == methods.keys()
                &&& forall|k: int|
                    0 <= k < methods.values().len() ==> method_out(
                        methods.values()[k],
                        #[trigger] outs.values()[k],
                        scope_of(classes, current_class_name, current_class_family, file_name),
                        final(str_table)@,
                    )
                &&& slots.wf()
                &&& slots.values().len() <= 32768
                &&& slots_view(&slots) == slots_upto(
                    methods.keys(),
                    methods.values(),
                    methods.values().len() as int,
                    current_class_name@,
                    slots_view(inherited),
                )
            },
            Err(e) => fp_methods(
                methods.keys(),
                methods.values(),
                0,
                scope_of(classes, current_class_name, current_class_family, file_name),
                slots_view(inherited),
                pools_of(old(int_table), old(str_table)),
            ) == Err::<Pools, ErrorView>(e@),
        },
{
    let ghost cx = scope_of(classes, current_class_name, current_class_family, file_name);
    let ghost pools0 = pools_of(int_table, str_table);
    let ghost names0 = methods.keys();
    let ghost ms0 = methods.values();
    let ghost inh = slots_view(inherited);
    let mut slots = copy_slots(inherited);
    let (names, values) = methods.into_parts();
    let mut outs: Vec<Method> = Vec::new();
    for method in it: values
        invariant
            classes.wf(),
            str_table.wf(),
            slots.wf(),
            names.wf(),
            names@ == names0,
            names0 == methods.keys(),
            ms0 == methods.values(),
            names0.len() == ms0.len(),
            it.seq() == ms0,
            pools0 == pools_of(old(int_table), old(str_table)),
            is_prefix(pools0.strs, str_table@),
            cx == scope_of(classes, current_class_name, current_class_family, file_name),
            inh == slots_view(inherited),
            slots_view(&slots) == slots_upto(names0, ms0, it.index() as int, current_class_name@, inh),
            slots.values().len() <= 32768,
            fp_methods(names0, ms0, 0, cx, inh, pools0) == fp_methods(
                names0,
                ms0,
                it.index() as int,
                cx,
                inh,
                pools_of(int_table, str_table),
            ),
            outs.len() == it.index(),
            forall|k: int|
                0 <= k < it.index() ==> method_out(ms0[k], #[trigger] outs[k], cx, str_table@),
    {
        let ghost i = it.index() as int;
        let ghost before = outs@;
        let ghost p_before = pools_of(int_table, str_table);
        let ghost slots_before = slots_view(&slots);
        proof {
            assert(method == ms0[i]);
            assert(cx.current == current_class_name@);
        }
        let method_name = ObjectID::new(names.get(outs.len()).clone());
        let out = match first_pass_method(
            method,
            &method_name,
            classes,
            current_class_name,
            current_class_family,
            file_name,
            int_table,
            str_table,
            &mut slots,
        ) {
            Ok(out) => out,
            Err(err) => {
                return Err(err);
            },
        };
        outs.push(out);
        proof {
            assert(slots_upto(names0, ms0, i + 1, current_class_name@, inh) == with_method(
                slots_upto(names0, ms0, i, current_class_name@, inh),
                names0[i],
                current_class_name@,
                ms0[i],
            ));
            assert(slots_view(&slots).len() <= slots_before.len() + 1);
            assert(method_fault(ms0[i], names0[i], cx, slots_before) is None);
            assert(slots.values().len() <= 32768) by {
                if crate::name_table::position_of(slot_names(slots_before), names0[i]) is None {
                    assert(slots_before.len() <= i16::MAX);
                }
            }
            assert forall|k: int| 0 <= k < i + 1 implies method_out(
                ms0[k],
                #[trigger] outs[k],
                cx,
                str_table@,
            ) by {
                if k < i {
                    assert(outs[k] == before[k]);
                    lemma_fp_out_mono(ms0[k].expr, before[k].expr, cx, p_before.strs, str_table@);
                }
            }
        }
    }
    let outs = NameMap::from_parts(names, outs);
    Ok((outs, slots))
}

/// The two tables of a class, from its slots: the dispatch table, and the
/// number of the slot of every method.
pub fn make_tables(slots: &NameMap<Slot>) -> (r: (Vec<(TypeID, ObjectID)>, NameMap<i16>))
    requires
        slots.wf(),
        slots.values().len() <= 32768,
    ensures
        r.0.len() == slots.values().len(),
        forall|i: int|
            0 <= i < slots.values().len() ==> (#[trigger] r.0[i]).0@ == slots_view(slots)[i].owner
                && r.0[i].1@ == slots_view(slots)[i].name,
        r.1.wf(),
        r.1.keys() == slot_names(slots_view(slots)),
        forall|i: int| 0 <= i < slots.values().len() ==> (#[trigger] r.1.values()[i]) == i,
{
    let mut table: Vec<(TypeID, ObjectID)> = Vec::new();
    let mut positions: NameMap<i16> = NameMap::new();
    let n = slots.len();
    let mut i: usize = 0;
    proof {
        assert(slot_names(slots_view(slots)) =~= slots.keys());
    }
    while i < n
        invariant
            slots.wf(),
            positions.wf(),
            n == slots.values().len(),
            n <= 32768,
            i <= n,
            table.len() == i,
            forall|k: int|
                0 <= k < i ==> (#[trigger] table[k]).0@ == slots.values()[k].owner@ && table[k].1@
                    == slots.keys()[k],
            positions.keys() == slots.keys().subrange(0, i as int),
            positions.values().len() == i,
            forall|k: int| 0 <= k < i ==> (#[trigger] positions.values()[k]) == k,
        decreases n - i,
    {
        let ghost before = positions;
        proof {
            let pre = slots.keys().subrange(0, i as int);
            if pre.contains(slots.keys()[i as int]) {
                let x = choose|x: int| 0 <= x < i && pre[x] == slots.keys()[i as int];
                assert(slots.keys()[x] == slots.keys()[i as int]);
            }
            assert(pre.push(slots.keys()[i as int]) =~= slots.keys().subrange(0, i + 1));
        }
        table.push((slots.value(i).owner.clone(), ObjectID::new(slots.key(i).clone())));
        positions.insert(slots.key(i).clone(), #[verifier::truncate] (i as i16));
        proof {
            assert forall|k: int| 0 <= k < i + 1 implies (#[trigger] positions.values()[k]) == k by {
                if k < i {
                    assert(positions.values()[k] == before.values()[k]);
                }
            }
        }
        i += 1;
    }
    proof {
        assert(slots.keys().subrange(0, n as int) =~= slots.keys());
    }
    (table, positions)
}

} // verus!
