//! The second pass over the classes: the static type of every expression,
//! and the conformance of every initializer, argument and body.

pub mod class_rules;
pub mod rules;
pub mod second_pass_attr;
pub mod second_pass_branch;
pub mod second_pass_expr;
pub mod second_pass_method;

use crate::ast::{Attr, Class, Method, ObjectID, TypeID};
use crate::error::{ErrorView, SemantError};
use crate::name_table::NameMap;
use crate::scoped_collections::{lookup, ScopedIndexMap};
use crate::semant::build_inheritiance_tree::{
    classes_wf, families_in, lemma_parents_in_range, parents_of, root_of, tree_built,
};
use crate::semant::first_pass::layout::{class_with_tag, Slot};
use crate::semant::hierarchy::{lemma_tag_bounds, tree_ok};
use crate::semant::second_pass::class_rules::{
    attrs_env, class_env, class_type_scope, lemma_sp_run_stops, sp_attr_out, sp_attrs, sp_class,
    sp_class_out, sp_method_out, sp_methods, sp_pass_out, sp_run, Program,
};
use crate::semant::second_pass::rules::{sigs_wf, Env};
use crate::semant::second_pass::second_pass_attr::second_pass_attr;
use crate::semant::second_pass::second_pass_expr::{env_of, type_scope};
use crate::semant::second_pass::second_pass_method::second_pass_method;
use std::ops::Range;
use vstd::prelude::*;

verus! {

/// The declared types that a map gives to names.
pub open spec fn map_of(m: &NameMap<TypeID>) -> Env {
    Map::new(|k: Seq<char>| m.contains_name(k), |k: Seq<char>| m.value_of(k)@)
}

/// The attributes in sight in every class, as the pass has recorded them.
pub open spec fn envs_of(bindings: Seq<NameMap<TypeID>>) -> Seq<Env> {
    Seq::new(bindings.len(), |i: int| map_of(&bindings[i]))
}

/// What the typing rules read of the program.
pub open spec fn program_of(
    method_sigs: &NameMap<NameMap<Slot>>,
    parent_names: &NameMap<TypeID>,
    families: &NameMap<Range<u32>>,
) -> Program {
    Program { sigs: *method_sigs, parent_names: *parent_names, families: *families }
}

/// A map that gives the same names the same types.
pub fn copy_types(m: &NameMap<TypeID>) -> (r: NameMap<TypeID>)
    requires
        m.wf(),
    ensures
        r.wf(),
        map_of(&r) == map_of(m),
{
    let mut r: NameMap<TypeID> = NameMap::new();
    let n = m.len();
    let mut i: usize = 0;
    while i < n
        invariant
            m.wf(),
            r.wf(),
            n == m.values().len(),
            i <= n,
            r.keys() == m.keys().subrange(0, i as int),
            r.values().len() == i,
            forall|k: int| 0 <= k < i ==> (#[trigger] r.values()[k])@ == m.values()[k]@,
        decreases n - i,
    {
        let ghost before = r;
        proof {
            let pre = m.keys().subrange(0, i as int);
            if pre.contains(m.keys()[i as int]) {
                let j = choose|j: int| 0 <= j < i && pre[j] == m.keys()[i as int];
                assert(m.keys()[j] == m.keys()[i as int]);
            }
            assert(pre.push(m.keys()[i as int]) =~= m.keys().subrange(0, i + 1));
        }
        r.insert(m.key(i).clone(), m.value(i).clone());
        proof {
            assert forall|k: int| 0 <= k < i + 1 implies (#[trigger] r.values()[k])@ == m.values()[k]@ by {
                if k < i {
                    assert(r.values()[k] == before.values()[k]);
                }
            }
        }
        i += 1;
    }
    proof {
        assert(m.keys().subrange(0, n as int) =~= m.keys());
        assert forall|k: Seq<char>| #[trigger] map_of(&r).dom().contains(k) == map_of(m).dom().contains(k) by {}
        assert forall|k: Seq<char>| #[trigger] map_of(&r).dom().contains(k) implies map_of(&r)[k] == map_of(
            m,
        )[k] by {
            let j = r.position(k).unwrap();
            assert(m.position(k) == Some(j));
        }
        assert(map_of(&r).dom() =~= map_of(m).dom());
        assert(map_of(&r) =~= map_of(m));
    }
    r
}

/// The attributes in sight in a class: those in sight in its parent, and
/// its own.
fn class_bindings(inherited: &NameMap<TypeID>, attrs: &Vec<Attr>) -> (r: NameMap<TypeID>)
    requires
        inherited.wf(),
    ensures
        r.wf(),
        map_of(&r) == attrs_env(map_of(inherited), attrs@, attrs.len() as int),
{
    let mut mine = copy_types(inherited);
    let mut i: usize = 0;
    while i < attrs.len()
        invariant
            mine.wf(),
            i <= attrs.len(),
            map_of(&mine) == attrs_env(map_of(inherited), attrs@, i as int),
        decreases attrs.len() - i,
    {
        let ghost before = mine;
        let bound = attrs[i].type_decl.clone();
        mine.insert(attrs[i].name.as_str().to_string(), bound);
        proof {
            let name = attrs[i as int].name@;
            let a = map_of(&mine);
            let b = map_of(&before).insert(name, bound@);
            assert forall|k: Seq<char>| #[trigger] a.dom().contains(k) == b.dom().contains(k) by {
                if k != name {
                    assert(mine.contains_name(k) == before.contains_name(k));
                }
            }
            assert forall|k: Seq<char>| #[trigger] a.dom().contains(k) implies a[k] == b[k] by {
                if k != name {
                    assert(mine.contains_name(k) == before.contains_name(k));
                }
            }
            assert(a.dom() =~= b.dom());
            assert(a =~= b);
        }
        i += 1;
    }
    mine
}

/// Types the attributes of a class in order.
fn type_attrs(
    attrs: Vec<Attr>,
    current_class_name: &TypeID,
    file_name: &str,
    object_types: &mut ScopedIndexMap<TypeID>,
    method_sigs: &NameMap<NameMap<Slot>>,
    parent_names: &NameMap<TypeID>,
    families: &NameMap<Range<u32>>,
) -> (r: Result<Vec<Attr>, SemantError>)
    requires
        forall|k: int| 0 <= k < attrs.len() ==> (#[trigger] attrs[k]).init.wf(),
        old(object_types).wf(),
        sigs_wf(method_sigs),
        parent_names.wf(),
        families.wf(),
    ensures
        final(object_types).wf(),
        match r {
            Ok(outs) => {
                &&& final(object_types).frames() == old(object_types).frames()
                &&& sp_attrs(
                    attrs@,
                    0,
                    type_scope(current_class_name, file_name, method_sigs, parent_names, families),
                    env_of(old(object_types)),
                ) is None
                &&& outs.len() == attrs.len()
                &&& forall|k: int|
                    0 <= k < attrs.len() ==> sp_attr_out(
                        attrs[k],
                        #[trigger] outs[k],
                        type_scope(current_class_name, file_name, method_sigs, parent_names, families),
                        env_of(old(object_types)),
                    )
            },
            Err(e) => sp_attrs(
                attrs@,
                0,
                type_scope(current_class_name, file_name, method_sigs, parent_names, families),
                env_of(old(object_types)),
            ) == Some(e@),
        },
{
    let ghost cx = type_scope(current_class_name, file_name, method_sigs, parent_names, families);
    let ghost env = env_of(object_types);
    let ghost frames0 = object_types.frames();
    let ghost attrs0 = attrs@;
    let mut outs: Vec<Attr> = Vec::new();
    for attr in it: attrs
        invariant
            object_types.wf(),
            sigs_wf(method_sigs),
            parent_names.wf(),
            families.wf(),
            it.seq() == attrs0,
            attrs0 == attrs@,
            forall|k: int| 0 <= k < attrs0.len() ==> (#[trigger] attrs0[k]).init.wf(),
            cx == type_scope(current_class_name, file_name, method_sigs, parent_names, families),
            env == env_of(old(object_types)),
            object_types.frames() == frames0,
            frames0 == old(object_types).frames(),
            sp_attrs(attrs0, 0, cx, env) == sp_attrs(attrs0, it.index() as int, cx, env),
            outs.len() == it.index(),
            forall|k: int| 0 <= k < it.index() ==> sp_attr_out(attrs0[k], #[trigger] outs[k], cx, env),
    {
        let ghost i = it.index() as int;
        let ghost before = outs@;
        proof {
            assert(attr == attrs0[i]);
        }
        match second_pass_attr(
            attr,
            current_class_name,
            file_name,
            object_types,
            method_sigs,
            parent_names,
            families,
        ) {
            Ok(out) => {
                outs.push(out);
                proof {
                    assert forall|k: int| 0 <= k < i + 1 implies sp_attr_out(
                        attrs0[k],
                        #[trigger] outs[k],
                        cx,
                        env,
                    ) by {
                        if k < i {
                            assert(outs[k] == before[k]);
                        }
                    }
                }
            },
            Err(err) => {
                return Err(err);
            },
        }
    }
    Ok(outs)
}

/// Types the methods of a class in order.
fn type_methods(
    methods: NameMap<Method>,
    current_class_name: &TypeID,
    file_name: &str,
    object_types: &mut ScopedIndexMap<TypeID>,
    method_sigs: &NameMap<NameMap<Slot>>,
    parent_names: &NameMap<TypeID>,
    families: &NameMap<Range<u32>>,
) -> (r: Result<NameMap<Method>, SemantError>)
    requires
        methods.wf(),
        forall|k: int| 0 <= k < methods.values().len() ==> (#[trigger] methods.values()[k]).expr.wf(),
        old(object_types).wf(),
        sigs_wf(method_sigs),
        parent_names.wf(),
        families.wf(),
    ensures
        final(object_types).wf(),
        match r {
            Ok(outs) => {
                &&& final(object_types).frames() == old(object_types).frames()
                &&& sp_methods(
                    methods.keys(),
                    methods.values(),
                    0,
                    type_scope(current_class_name, file_name, method_sigs, parent_names, families),
                    env_of(old(object_types)),
                ) is None
                &&& outs.wf()
                &&& outs.keys() == methods.keys()
                &&& forall|k: int|
                    0 <= k < methods.values().len() ==> sp_method_out(
                        methods.values()[k],
                        #[trigger] outs.values()[k],
                        type_scope(current_class_name, file_name, method_sigs, parent_names, families),
                        env_of(old(object_types)),
                    )
            },
            Err(e) => sp_methods(
                methods.keys(),
                methods.values(),
                0,
                type_scope(current_class_name, file_name, method_sigs, parent_names, families),
                env_of(old(object_types)),
            ) == Some(e@),
        },
{
    let ghost cx = type_scope(current_class_name, file_name, method_sigs, parent_names, families);
    let ghost env = env_of(object_types);
    let ghost frames0 = object_types.frames();
    let ghost names0 = methods.keys();
    let ghost ms0 = methods.values();
    let (names, values) = methods.into_parts();
    let mut outs: Vec<Method> = Vec::new();
    for method in it: values
        invariant
            object_types.wf(),
            sigs_wf(method_sigs),
            parent_names.wf(),
            families.wf(),
            names.wf(),
            names@ == names0,
            names0 == methods.keys(),
            ms0 == methods.values(),
            names0.len() == ms0.len(),
            it.seq() == ms0,
            forall|k: int| 0 <= k < ms0.len() ==> (#[trigger] ms0[k]).expr.wf(),
            cx == type_scope(current_class_name, file_name, method_sigs, parent_names, families),
            env == env_of(old(object_types)),
            object_types.frames() == frames0,
            frames0 == old(object_types).frames(),
            sp_methods(names0, ms0, 0, cx, env) == sp_methods(names0, ms0, it.index() as int, cx, env),
            outs.len() == it.index(),
            forall|k: int| 0 <= k < it.index() ==> sp_method_out(ms0[k], #[trigger] outs[k], cx, env),
    {
        let ghost i = it.index() as int;
        let ghost before = outs@;
        proof {
            assert(method == ms0[i]);
        }
        let method_name = ObjectID::new(names.get(outs.len()).clone());
        match second_pass_method(
            method,
            &method_name,
            current_class_name,
            file_name,
            object_types,
            method_sigs,
            parent_names,
            families,
        ) {
            Ok(out) => {
                outs.push(out);
                proof {
                    assert forall|k: int| 0 <= k < i + 1 implies sp_method_out(
                        ms0[k],
                        #[trigger] outs[k],
                        cx,
                        env,
                    ) by {
                        if k < i {
                            assert(outs[k] == before[k]);
                        }
                    }
                }
            },
            Err(err) => {
                return Err(err);
            },
        }
    }
    Ok(NameMap::from_parts(names, outs))
}

/// Types class `c`, whose parent stands at `parent`, and records the
/// attributes in sight in the class.
fn type_class(
    classes: &mut NameMap<Class>,
    c: usize,
    parent: Option<usize>,
    bindings: &mut Vec<NameMap<TypeID>>,
    method_sigs: &NameMap<NameMap<Slot>>,
    parent_names: &NameMap<TypeID>,
    families: &NameMap<Range<u32>>,
    Ghost(t): Ghost<&NameMap<Class>>,
) -> (r: Result<(), SemantError>)
    requires
        old(classes).wf(),
        t.wf(),
        old(classes).keys() == t.keys(),
        old(classes).values().len() == t.values().len(),
        c < t.values().len(),
        old(classes).values()[c as int] == t.values()[c as int],
        t.values()[c as int].wf(),
        match parent {
            Some(p) => parents_of(t)[c as int] == Some(p as int) && p < t.values().len() && p != c,
            None => parents_of(t)[c as int] is None,
        },
        old(bindings).len() == t.values().len(),
        forall|i: int| 0 <= i < old(bindings).len() ==> (#[trigger] old(bindings)[i]).wf(),
        sigs_wf(method_sigs),
        parent_names.wf(),
        families.wf(),
    ensures
        final(classes).wf(),
        final(classes).keys() == t.keys(),
        final(classes).values().len() == t.values().len(),
        forall|d: int|
            0 <= d < t.values().len() && d != c ==> (#[trigger] final(classes).values()[d]) == old(
                classes,
            ).values()[d],
        final(bindings).len() == t.values().len(),
        forall|i: int| 0 <= i < final(bindings).len() ==> (#[trigger] final(bindings)[i]).wf(),
        match r {
            Ok(_) => {
                &&& sp_class(
                    t,
                    c as int,
                    program_of(method_sigs, parent_names, families),
                    envs_of(old(bindings)@),
                ) == Ok::<Seq<Env>, ErrorView>(envs_of(final(bindings)@))
                &&& sp_class_out(
                    t,
                    final(classes),
                    c as int,
                    program_of(method_sigs, parent_names, families),
                    envs_of(final(bindings)@)[c as int],
                )
            },
            Err(e) => sp_class(
                t,
                c as int,
                program_of(method_sigs, parent_names, families),
                envs_of(old(bindings)@),
            ) == Err::<Seq<Env>, ErrorView>(e@),
        },
{
    let ghost pr = program_of(method_sigs, parent_names, families);
    let ghost envs0 = envs_of(bindings@);
    let name = TypeID::new(classes.key(c).clone());
    let file: String = classes.value(c).file_name.clone();
    let empty: NameMap<TypeID> = NameMap::new();
    let inherited: &NameMap<TypeID> = match parent {
        Some(p) => &bindings[p],
        None => &empty,
    };
    proof {
        assert(map_of(&empty) =~= Map::<Seq<char>, Seq<char>>::empty());
    }
    let mine = class_bindings(inherited, &classes.value(c).attrs);
    let ghost env = map_of(&mine);
    proof {
        assert(env == class_env(t, c as int, envs0));
    }
    let mut attrs: Vec<Attr> = Vec::new();
    let mut methods: NameMap<Method> = NameMap::new();
    {
        let class = classes.value_mut(c);
        core::mem::swap(&mut attrs, &mut class.attrs);
        core::mem::swap(&mut methods, &mut class.methods);
    }
    let mut object_types: ScopedIndexMap<TypeID> = ScopedIndexMap::new();
    let frame = copy_types(&mine);
    object_types.enter_scope_with(frame);
    proof {
        let frames = object_types.frames();
        assert(frames.last() == frame);
        assert(frames.drop_last() =~= Seq::<NameMap<TypeID>>::empty());
        let a = env_of(&object_types);
        assert forall|k: Seq<char>| #[trigger] a.dom().contains(k) == map_of(&frame).dom().contains(k) by {
            assert(lookup(frames.drop_last(), k) is None);
            assert(lookup(frames, k) == if frame.contains_name(k) {
                Some(frame.value_of(k))
            } else {
                None
            });
        }
        assert forall|k: Seq<char>| #[trigger] a.dom().contains(k) implies a[k] == map_of(&frame)[k] by {
            assert(lookup(frames.drop_last(), k) is None);
            assert(lookup(frames, k) == if frame.contains_name(k) {
                Some(frame.value_of(k))
            } else {
                None
            });
        }
        assert(a.dom() =~= env.dom());
        assert(a =~= env);
    }
    let new_attrs = match type_attrs(
        attrs,
        &name,
        file.as_str(),
        &mut object_types,
        method_sigs,
        parent_names,
        families,
    ) {
        Ok(a) => a,
        Err(err) => {
            return Err(err);
        },
    };
    let new_methods = match type_methods(
        methods,
        &name,
        file.as_str(),
        &mut object_types,
        method_sigs,
        parent_names,
        families,
    ) {
        Ok(m) => m,
        Err(err) => {
            return Err(err);
        },
    };
    {
        let class = classes.value_mut(c);
        class.attrs = new_attrs;
        class.methods = new_methods;
    }
    bindings.set(c, mine);
    proof {
        assert(envs_of(bindings@) =~= envs0.update(c as int, env));
    }
    Ok(())
}

/// The second pass over all classes, in the order of their tags, which is
/// the order of the depth-first walk from the root class. In a class, the
/// attributes of the class and of its ancestors are in sight. Every
/// expression gets its static type; every initializer must conform to the
/// type of its attribute, and every body to the return type of its method.
/// The first violation in this order ends the pass.
pub fn second_pass(
    classes: NameMap<Class>,
    method_sigs: &NameMap<NameMap<Slot>>,
    parent_names: &NameMap<TypeID>,
    families: &NameMap<Range<u32>>,
) -> (r: Result<NameMap<Class>, SemantError>)
    requires
        classes_wf(&classes),
        tree_built(&classes),
        sigs_wf(method_sigs),
        parent_names.wf(),
        families.wf(),
    ensures
        match r {
            Ok(out) => {
                &&& sp_run(
                    &classes,
                    classes.values().len() as int,
                    program_of(method_sigs, parent_names, families),
                ) matches Ok(envs)
                &&& sp_pass_out(&classes, &out, program_of(method_sigs, parent_names, families), envs)
            },
            Err(e) => sp_run(
                &classes,
                classes.values().len() as int,
                program_of(method_sigs, parent_names, families),
            ) == Err::<Seq<Env>, ErrorView>(e@),
        },
{
    let ghost t = classes;
    let ghost pr = program_of(method_sigs, parent_names, families);
    let ghost pars = parents_of(&t);
    let ghost fams = families_in(&t);
    let ghost root = root_of(&t);
    let mut table = classes;
    let n = table.len();
    proof {
        lemma_parents_in_range(&t);
    }
    let mut parents: Vec<Option<usize>> = Vec::new();
    let mut order: Vec<usize> = Vec::new();
    let mut bindings: Vec<NameMap<TypeID>> = Vec::new();
    let mut i: usize = 0;
    while i < n
        invariant
            t == classes,
            table == t,
            t.wf(),
            n == t.values().len(),
            i <= n,
            parents.len() == i,
            order.len() == i,
            bindings.len() == i,
            forall|k: int|
                0 <= k < i ==> match #[trigger] parents[k] {
                    Some(p) => parents_of(&t)[k] == Some(p as int) && p < n,
                    None => parents_of(&t)[k] is None,
                },
            forall|k: int| 0 <= k < i ==> (#[trigger] bindings[k]).wf() && bindings[k].keys().len() == 0,
        decreases n - i,
    {
        let parent = match &table.value(i).parent_name {
            Some(p) => table.index_of(p.as_str()),
            None => None,
        };
        parents.push(parent);
        order.push(0);
        bindings.push(NameMap::new());
        i += 1;
    }
    let mut c: usize = 0;
    while c < n
        invariant
            t == classes,
            table == t,
            n == t.values().len(),
            c <= n,
            order.len() == n,
            tree_ok(pars, fams, root),
            pars == parents_of(&t),
            fams == families_in(&t),
            forall|d: int|
                0 <= d < c && (#[trigger] t.values()[d]).family.start < n ==> order[t.values()[d].family.start as int]
                    == d,
            parents.len() == n,
            bindings.len() == n,
            forall|k: int|
                0 <= k < n ==> match #[trigger] parents[k] {
                    Some(p) => parents_of(&t)[k] == Some(p as int) && p < n,
                    None => parents_of(&t)[k] is None,
                },
            forall|k: int| 0 <= k < n ==> (#[trigger] bindings[k]).wf() && bindings[k].keys().len() == 0,
        decreases n - c,
    {
        let tag = table.value(c).family.start as usize;
        if tag < n {
            let ghost before = order@;
            order.set(tag, c);
            proof {
                assert forall|d: int|
                    0 <= d < c + 1 && (#[trigger] t.values()[d]).family.start < n implies order[t.values()[d].family.start as int]
                    == d by {
                    if d < c {
                        assert(fams[d].start != fams[c as int].start);
                        assert(before[t.values()[d].family.start as int] == d);
                    }
                }
            }
        }
        c += 1;
    }
    proof {
        assert forall|i: int| 0 <= i < n implies map_of(&#[trigger] bindings[i]) =~= Map::<
            Seq<char>,
            Seq<char>,
        >::empty() by {}
        assert(envs_of(bindings@) =~= Seq::new(n as nat, |i: int| Map::<Seq<char>, Seq<char>>::empty()));
    }
    let mut k: usize = 0;
    while k < n
        invariant
            t == classes,
            classes_wf(&t),
            tree_ok(pars, fams, root),
            pars == parents_of(&t),
            fams == families_in(&t),
            pr == program_of(method_sigs, parent_names, families),
            sigs_wf(method_sigs),
            parent_names.wf(),
            families.wf(),
            n == t.values().len(),
            k <= n,
            order.len() == n,
            parents.len() == n,
            forall|d: int|
                0 <= d < n && (#[trigger] t.values()[d]).family.start < n ==> order[t.values()[d].family.start as int]
                    == d,
            forall|d: int|
                0 <= d < n ==> match #[trigger] parents[d] {
                    Some(p) => parents_of(&t)[d] == Some(p as int) && p < n,
                    None => parents_of(&t)[d] is None,
                },
            table.wf(),
            table.keys() == t.keys(),
            table.values().len() == n,
            bindings.len() == n,
            forall|i: int| 0 <= i < n ==> (#[trigger] bindings[i]).wf(),
            sp_run(&t, k as int, pr) == Ok::<Seq<Env>, ErrorView>(envs_of(bindings@)),
            forall|d: int|
                0 <= d < n && (#[trigger] t.values()[d]).family.start >= k ==> table.values()[d]
                    == t.values()[d],
            forall|d: int|
                0 <= d < n && t.values()[d].family.start < k ==> #[trigger] sp_class_out(
                    &t,
                    &table,
                    d,
                    pr,
                    envs_of(bindings@)[d],
                ),
        decreases n - k,
    {
        let c = order[k];
        let ghost envs0 = envs_of(bindings@);
        let ghost table0 = table;
        if c < n && table.value(c).family.start as usize == k {
            proof {
                if t.values()[c as int].family.start < k {
                    assert(sp_class_out(&t, &table, c as int, pr, envs0[c as int]));
                }
                assert(t.values()[c as int].family.start == k);
                assert(table.values()[c as int] == t.values()[c as int]);
                assert(class_with_tag(&t, k as int) == Some(c as int)) by {
                    let x = choose|x: int|
                        0 <= x < t.values().len() && (#[trigger] t.values()[x]).family.start == k;
                    if x != c {
                        assert(fams[x].start != fams[c as int].start);
                    }
                }
                lemma_tag_bounds(pars, fams, root, c as int);
                assert(t.values()[c as int].wf());
            }
            match type_class(
                &mut table,
                c,
                parents[c],
                &mut bindings,
                method_sigs,
                parent_names,
                families,
                Ghost(&t),
            ) {
                Err(err) => {
                    proof {
                        assert(sp_run(&t, k + 1, pr) == Err::<Seq<Env>, ErrorView>(err@));
                        lemma_sp_run_stops(&t, k + 1, n as int, pr);
                    }
                    return Err(err);
                },
                Ok(_) => {},
            }
            proof {
                let envs1 = envs_of(bindings@);
                assert forall|d: int|
                    0 <= d < n && t.values()[d].family.start < k + 1 implies #[trigger] sp_class_out(
                    &t,
                    &table,
                    d,
                    pr,
                    envs1[d],
                ) by {
                    if d != c {
                        assert(fams[d].start != fams[c as int].start);
                        assert(t.values()[d].family.start < k);
                        assert(sp_class_out(&t, &table0, d, pr, envs0[d]));
                        assert(envs1[d] == envs0[d]);
                        assert(table.values()[d] == table0.values()[d]);
                    }
                }
                assert forall|d: int|
                    0 <= d < n && (#[trigger] t.values()[d]).family.start >= k + 1 implies table.values()[d]
                    == t.values()[d] by {
                    assert(d != c);
                    assert(table0.values()[d] == t.values()[d]);
                }
            }
        } else {
            proof {
                assert(class_with_tag(&t, k as int) is None) by {
                    if exists|x: int|
                        0 <= x < t.values().len() && (#[trigger] t.values()[x]).family.start == k {
                        let x = choose|x: int|
                            0 <= x < t.values().len() && (#[trigger] t.values()[x]).family.start
                                == k;
                        assert(order[t.values()[x].family.start as int] == x);
                    }
                }
                assert forall|d: int|
                    0 <= d < n && t.values()[d].family.start < k + 1 implies #[trigger] sp_class_out(
                    &t,
                    &table,
                    d,
                    pr,
                    envs0[d],
                ) by {
                    if t.values()[d].family.start == k {
                        assert(order[t.values()[d].family.start as int] == d);
                    }
                }
            }
        }
        k += 1;
    }
    proof {
        let envs = envs_of(bindings@);
        assert forall|d: int| 0 <= d < n implies #[trigger] sp_class_out(&t, &table, d, pr, envs[d]) by {
            lemma_tag_bounds(pars, fams, root, d);
        }
    }
    Ok(table)
}

} // verus!
