//! The semantic analysis: the inheritance tree, the layout of attributes
//! and dispatch tables, and the static types.

pub mod build_inheritiance_tree;
pub mod conformance;
pub mod constants;
pub mod first_pass;
pub mod hierarchy;
pub mod laws;
pub mod second_pass;
pub mod tagging;
pub mod verify_main;

use crate::ast::{Class, TypeID};
use crate::error::{ErrorView, SemantError};
use crate::name_table::{IntSet, NameMap, NameSet};
use crate::semant::build_inheritiance_tree::{
    build_inheritiance_tree, children_named, classes_wf, enriched, families_in, graph_violation,
    has_root, lemma_same_parents, parents_of, same_declaration, tree_built,
};
use crate::semant::first_pass::first_pass;
use crate::semant::first_pass::layout::{
    attr_out, class_out, fp_run, method_out, pass_out, slots_view, PassState, Slot,
};
use crate::semant::first_pass::rules::Pools;
use crate::semant::second_pass::class_rules::{sp_class_out, sp_pass_out, sp_run, Program};
use crate::semant::second_pass::rules::{sigs_wf, Env};
use crate::semant::second_pass::{program_of, second_pass};
use crate::semant::verify_main::{main_violation, verify_main};
use std::ops::Range;
use vstd::prelude::*;

verus! {

/// The pools before the first class: the integer 0 and the empty string,
/// which stand for what the source leaves out.
pub open spec fn initial_pools() -> Pools {
    Pools { ints: seq![0u32], strs: seq![Seq::<char>::empty()] }
}

/// The two maps say what the table says of the inheritance tree: the
/// family of every class, and the parent of every class that has one.
pub open spec fn tree_maps(
    t: &NameMap<Class>,
    parent_names: &NameMap<TypeID>,
    families: &NameMap<Range<u32>>,
) -> bool {
    &&& families.wf()
    &&& families.keys() == t.keys()
    &&& families.values() == families_in(t)
    &&& parent_names.wf()
    &&& forall|i: int|
        0 <= i < t.values().len() ==> match (#[trigger] t.values()[i]).parent_name {
            Some(p) => parent_names.contains_name(t.keys()[i]) && parent_names.value_of(
                t.keys()[i],
            )@ == p@,
            None => !parent_names.contains_name(t.keys()[i]),
        }
}

/// The map holds, for every class, the slots that the first pass has
/// found for it.
pub open spec fn sigs_of_slots(
    t: &NameMap<Class>,
    sigs: &NameMap<NameMap<Slot>>,
    s: PassState,
) -> bool {
    &&& sigs_wf(sigs)
    &&& sigs.keys() == t.keys()
    &&& forall|c: int|
        0 <= c < t.values().len() ==> slots_view(&#[trigger] sigs.values()[c]) == s.slots[c]
}

/// The stages between the tree and the types: table `t2` is table `t1`
/// after the first pass, which leaves the pools `p`, and the three maps
/// say of `t2` what the typing rules read.
pub open spec fn first_stage(
    t1: &NameMap<Class>,
    t2: &NameMap<Class>,
    p: Pools,
    sigs: &NameMap<NameMap<Slot>>,
    parent_names: &NameMap<TypeID>,
    families: &NameMap<Range<u32>>,
) -> bool {
    &&& fp_run(t1, t1.values().len() as int, initial_pools()) matches Ok(s)
    &&& s.pools == p
    &&& pass_out(t1, t2, s)
    &&& sigs_of_slots(t2, sigs, s)
    &&& tree_maps(t2, parent_names, families)
}

/// The analysis of table `t` succeeds with table `out` and the two pools:
/// the tree is built, both passes go through, and the program has its
/// entry point; `out` is `t` after these stages, and the pools are those
/// that the first pass leaves.
pub open spec fn semant_ok(
    t: &NameMap<Class>,
    out: &NameMap<Class>,
    ints: Seq<u32>,
    strs: Seq<Seq<char>>,
) -> bool {
    &&& graph_violation(t) is None
    &&& main_violation(t) is None
    &&& exists|
        t1: NameMap<Class>,
        t2: NameMap<Class>,
        sigs: NameMap<NameMap<Slot>>,
        parent_names: NameMap<TypeID>,
        families: NameMap<Range<u32>>,
    |
        {
            &&& enriched(t, &t1)
            &&& #[trigger] first_stage(
                &t1,
                &t2,
                Pools { ints, strs },
                &sigs,
                &parent_names,
                &families,
            )
            &&& sp_run(&t2, t2.values().len() as int, Program { sigs, parent_names, families })
                matches Ok(envs)
            &&& sp_pass_out(&t2, out, Program { sigs, parent_names, families }, envs)
        }
}

/// The second pass over the table that the first pass leaves ends in the
/// violation `e`.
pub open spec fn second_stage_fails(t1: &NameMap<Class>, e: ErrorView) -> bool {
    exists|
        t2: NameMap<Class>,
        p: Pools,
        sigs: NameMap<NameMap<Slot>>,
        parent_names: NameMap<TypeID>,
        families: NameMap<Range<u32>>,
    |
        {
            &&& #[trigger] first_stage(t1, &t2, p, &sigs, &parent_names, &families)
            &&& sp_run(&t2, t2.values().len() as int, Program { sigs, parent_names, families })
                == Err::<Seq<Env>, ErrorView>(e)
        }
}

/// The second pass over the table that the first pass leaves goes through.
pub open spec fn second_stage_passes(t1: &NameMap<Class>) -> bool {
    exists|
        t2: NameMap<Class>,
        p: Pools,
        sigs: NameMap<NameMap<Slot>>,
        parent_names: NameMap<TypeID>,
        families: NameMap<Range<u32>>,
    |
        {
            &&& #[trigger] first_stage(t1, &t2, p, &sigs, &parent_names, &families)
            &&& sp_run(&t2, t2.values().len() as int, Program { sigs, parent_names, families })
                is Ok
        }
}

/// The analysis of table `t` ends in the violation `e`: the first that the
/// tree, the first pass, the second pass or the entry point meets, in this
/// order. The entry point is checked last, when every expression has its
/// type.
pub open spec fn semant_err(t: &NameMap<Class>, e: ErrorView) -> bool {
    ||| graph_violation(t) == Some(e)
    ||| {
        &&& graph_violation(t) is None
        &&& exists|t1: NameMap<Class>|
            {
                &&& #[trigger] enriched(t, &t1)
                &&& {
                    ||| fp_run(&t1, t1.values().len() as int, initial_pools()) == Err::<
                        PassState,
                        ErrorView,
                    >(e)
                    ||| second_stage_fails(&t1, e)
                    ||| {
                        &&& second_stage_passes(&t1)
                        &&& main_violation(t) == Some(e)
                    }
                }
            }
    }
}

/// Two tables say the same of the entry point: they hold the same names,
/// and class by class the same file and line, the same names of methods,
/// and method by method the same formals and line.
pub open spec fn same_entry(a: &NameMap<Class>, b: &NameMap<Class>) -> bool {
    &&& a.wf()
    &&& b.wf()
    &&& a.keys() == b.keys()
    &&& forall|i: int|
        0 <= i < a.values().len() ==> {
            let x = #[trigger] a.values()[i];
            let y = b.values()[i];
            &&& x.file_name == y.file_name
            &&& x.line_no == y.line_no
            &&& x.methods.wf()
            &&& y.methods.wf()
            &&& x.methods.keys() == y.methods.keys()
            &&& forall|k: int|
                0 <= k < x.methods.values().len() ==> {
                    &&& x.methods.values()[k].formals == (#[trigger] y.methods.values()[k]).formals
                    &&& x.methods.values()[k].line_no == y.methods.values()[k].line_no
                }
        }
}

/// Tables that say the same of the entry point have the same violation of
/// it, or none.
pub proof fn lemma_same_entry(a: &NameMap<Class>, b: &NameMap<Class>)
    requires
        same_entry(a, b),
    ensures
        main_violation(a) == main_violation(b),
{
    if a.contains_name("Main"@) {
        let i = a.position("Main"@).unwrap();
        crate::name_table::lemma_position_of(a.keys(), i);
        let x = a.values()[i];
        let y = b.values()[i];
        assert(x.file_name == y.file_name);
        if x.methods.contains_name("main"@) {
            let k = x.methods.position("main"@).unwrap();
            crate::name_table::lemma_position_of(x.methods.keys(), k);
            assert(x.methods.values()[k].formals == y.methods.values()[k].formals);
        }
    }
}

/// A table with the tree built is well formed where the table before was.
pub proof fn lemma_enriched_wf(t: &NameMap<Class>, t1: &NameMap<Class>)
    requires
        classes_wf(t),
        enriched(t, t1),
    ensures
        classes_wf(t1),
        tree_built(t1),
{
    assert forall|i: int| 0 <= i < t1.values().len() implies (#[trigger] t1.values()[i]).wf() by {
        assert(same_declaration(t.values()[i], t1.values()[i]));
        assert(t.values()[i].wf());
    }
}

/// A table after the first pass is well formed where the table before
/// was, and has the same tree.
pub proof fn lemma_passed_wf(t1: &NameMap<Class>, t2: &NameMap<Class>, s: PassState)
    requires
        classes_wf(t1),
        tree_built(t1),
        pass_out(t1, t2, s),
    ensures
        classes_wf(t2),
        tree_built(t2),
{
    reveal(class_out);
    let n = t1.values().len();
    assert(t2.values().len() == n);
    assert forall|i: int| 0 <= i < n implies (#[trigger] t2.values()[i]).wf() by {
        assert(class_out(t1, t2, i, s));
        assert(t1.values()[i].wf());
        let a = t1.values()[i];
        let b = t2.values()[i];
        assert forall|k: int| 0 <= k < b.attrs.len() implies (#[trigger] b.attrs[k]).init.wf() by {
            assert(a.attrs[k].init.wf());
        }
        assert forall|k: int| 0 <= k < b.methods.values().len() implies (
        #[trigger] b.methods.values()[k]).expr.wf() by {
            assert(a.methods.values()[k].expr.wf());
        }
    }
    assert forall|i: int| 0 <= i < n implies t1.values()[i].parent_name == (
    #[trigger] t2.values()[i]).parent_name by {
        assert(class_out(t1, t2, i, s));
    }
    lemma_same_parents(t1, t2);
    assert(families_in(t2) =~= families_in(t1)) by {
        assert forall|i: int| 0 <= i < n implies families_in(t2)[i] == families_in(t1)[i] by {
            assert(class_out(t1, t2, i, s));
        }
    }
    assert(children_named(t2)) by {
        assert forall|i: int| 0 <= i < n implies (#[trigger] t2.values()[i]).child_names
            == t1.values()[i].child_names by {
            assert(class_out(t1, t2, i, s));
        }
    }
    assert(has_root(t2)) by {
        let r = t1.position("Object"@).unwrap();
        assert(class_out(t1, t2, r, s));
    }
}

/// The families of the classes and the parents of those that have one, as
/// maps by class name.
pub fn tree_maps_of(classes: &NameMap<Class>) -> (r: (NameMap<TypeID>, NameMap<Range<u32>>))
    requires
        classes.wf(),
    ensures
        tree_maps(classes, &r.0, &r.1),
{
    let mut parent_names: NameMap<TypeID> = NameMap::new();
    let mut families: NameMap<Range<u32>> = NameMap::new();
    let n = classes.len();
    let mut i: usize = 0;
    while i < n
        invariant
            classes.wf(),
            parent_names.wf(),
            families.wf(),
            n == classes.values().len(),
            i <= n,
            families.keys() == classes.keys().subrange(0, i as int),
            families.values().len() == i,
            forall|k: int| 0 <= k < i ==> (#[trigger] families.values()[k]) == classes.values()[k].family,
            forall|k: int|
                0 <= k < i ==> match (#[trigger] classes.values()[k]).parent_name {
                    Some(p) => parent_names.contains_name(classes.keys()[k]) && parent_names.value_of(
                        classes.keys()[k],
                    )@ == p@,
                    None => !parent_names.contains_name(classes.keys()[k]),
                },
            forall|name: Seq<char>|
                parent_names.contains_name(name) ==> classes.keys().subrange(0, i as int).contains(
                    name,
                ),
        decreases n - i,
    {
        let class = classes.value(i);
        let ghost fam0 = families;
        let ghost pn0 = parent_names;
        let ghost pre = classes.keys().subrange(0, i as int);
        proof {
            if pre.contains(classes.keys()[i as int]) {
                let j = choose|j: int| 0 <= j < i && pre[j] == classes.keys()[i as int];
                assert(classes.keys()[j] == classes.keys()[i as int]);
            }
            assert(pre.push(classes.keys()[i as int]) =~= classes.keys().subrange(0, i + 1));
        }
        families.insert(classes.key(i).clone(), class.family.start..class.family.end);
        match &class.parent_name {
            Some(p) => {
                parent_names.insert(classes.key(i).clone(), p.clone());
            },
            None => {},
        }
        proof {
            let cur = classes.keys().subrange(0, i + 1);
            assert forall|k: int| 0 <= k < i + 1 implies (#[trigger] families.values()[k])
                == classes.values()[k].family by {
                if k < i {
                    assert(families.values()[k] == fam0.values()[k]);
                }
            }
            assert forall|name: Seq<char>| parent_names.contains_name(name) implies cur.contains(
                name,
            ) by {
                if name == classes.keys()[i as int] {
                    assert(cur[i as int] == name);
                } else {
                    assert(pn0.contains_name(name));
                    let j = choose|j: int| 0 <= j < pre.len() && pre[j] == name;
                    assert(cur[j] == name);
                }
            }
            assert forall|k: int| 0 <= k < i + 1 implies match (
            #[trigger] classes.values()[k]).parent_name {
                Some(p) => parent_names.contains_name(classes.keys()[k]) && parent_names.value_of(
                    classes.keys()[k],
                )@ == p@,
                None => !parent_names.contains_name(classes.keys()[k]),
            } by {
                if k < i {
                    assert(classes.keys()[k] != classes.keys()[i as int]);
                    assert(pn0.contains_name(classes.keys()[k]) == parent_names.contains_name(
                        classes.keys()[k],
                    ));
                } else {
                    if class.parent_name is None {
                        if pn0.contains_name(classes.keys()[i as int]) {
                            assert(pre.contains(classes.keys()[i as int]));
                        }
                    }
                }
            }
        }
        i += 1;
    }
    proof {
        assert(classes.keys().subrange(0, n as int) =~= classes.keys());
        assert(families.values() =~= families_in(classes));
    }
    (parent_names, families)
}

/// The slots of the classes as a map by class name.
pub fn signatures(classes: &NameMap<Class>, slots: Vec<NameMap<Slot>>) -> (r: NameMap<
    NameMap<Slot>,
>)
    requires
        classes.wf(),
        slots.len() == classes.values().len(),
        forall|c: int| 0 <= c < slots.len() ==> (#[trigger] slots[c]).wf(),
    ensures
        sigs_wf(&r),
        r.keys() == classes.keys(),
        r.values() == slots@,
{
    let mut sigs: NameMap<NameMap<Slot>> = NameMap::new();
    let ghost slots0 = slots@;
    for slot in it: slots
        invariant
            classes.wf(),
            sigs.wf(),
            it.seq() == slots0,
            slots0.len() == classes.values().len(),
            forall|c: int| 0 <= c < slots0.len() ==> (#[trigger] slots0[c]).wf(),
            sigs.keys() == classes.keys().subrange(0, it.index() as int),
            sigs.values() == slots0.subrange(0, it.index() as int),
    {
        let ghost i = it.index() as int;
        proof {
            let pre = classes.keys().subrange(0, i);
            if pre.contains(classes.keys()[i]) {
                let j = choose|j: int| 0 <= j < i && pre[j] == classes.keys()[i];
                assert(classes.keys()[j] == classes.keys()[i]);
            }
            assert(pre.push(classes.keys()[i]) =~= classes.keys().subrange(0, i + 1));
            assert(slots0.subrange(0, i).push(slots0[i]) =~= slots0.subrange(0, i + 1));
        }
        let at = sigs.len();
        sigs.insert(classes.key(at).clone(), slot);
    }
    proof {
        assert(classes.keys().subrange(0, slots0.len() as int) =~= classes.keys());
        assert(slots0.subrange(0, slots0.len() as int) =~= slots0);
    }
    sigs
}

/// The texts of a set of names, in order.
pub fn strings_of(names: &NameSet) -> (r: Vec<String>)
    ensures
        r.len() == names@.len(),
        forall|i: int| 0 <= i < r.len() ==> (#[trigger] r[i])@ == names@[i],
{
    let mut out: Vec<String> = Vec::new();
    let n = names.len();
    let mut i: usize = 0;
    while i < n
        invariant
            n == names@.len(),
            i <= n,
            out.len() == i,
            forall|k: int| 0 <= k < i ==> (#[trigger] out[k])@ == names@[k],
        decreases n - i,
    {
        out.push(names.get(i).clone());
        i += 1;
    }
    out
}

/// The texts in a list of strings.
pub open spec fn texts(v: Seq<String>) -> Seq<Seq<char>> {
    Seq::new(v.len(), |i: int| v[i]@)
}

/// The semantic analysis of a program. Builds the inheritance tree, lays
/// out attributes and dispatch tables and collects the constants, finds the
/// static type of every expression, and checks at last that the program
/// has an entry point. Returns the classes with what the analysis has added to
/// them, the integer constants and the string constants; or the first
/// violation.
pub fn semant(classes: NameMap<Class>) -> (r: Result<
    (NameMap<Class>, IntSet, Vec<String>),
    SemantError,
>)
    requires
        classes_wf(&classes),
        has_root(&classes),
        classes.values().len() <= u32::MAX,
    ensures
        match r {
            Ok((out, ints, strs)) => semant_ok(&classes, &out, ints@, texts(strs@)),
            Err(e) => semant_err(&classes, e@),
        },
{
    let ghost t = classes;
    let mut int_table = IntSet::new();
    let mut str_table = NameSet::new();
    int_table.insert(0);
    str_table.insert(String::new());
    proof {
        assert(int_table@ =~= seq![0u32]);
        assert(str_table@ =~= seq![Seq::<char>::empty()]);
    }
    let classes = match build_inheritiance_tree(classes) {
        Ok(c) => c,
        Err(e) => {
            return Err(e);
        },
    };
    let ghost t1 = classes;
    proof {
        lemma_enriched_wf(&t, &t1);
    }
    let (classes, slots) = match first_pass(classes, &mut int_table, &mut str_table) {
        Ok(r) => r,
        Err(e) => {
            return Err(e);
        },
    };
    let ghost t2 = classes;
    let ghost s = fp_run(&t1, t1.values().len() as int, initial_pools())->Ok_0;
    proof {
        lemma_passed_wf(&t1, &t2, s);
    }
    let method_sigs = signatures(&classes, slots);
    let (parent_names, families) = tree_maps_of(&classes);
    proof {
        assert(first_stage(
            &t1,
            &t2,
            Pools { ints: int_table@, strs: str_table@ },
            &method_sigs,
            &parent_names,
            &families,
        ));
    }
    let classes = match second_pass(classes, &method_sigs, &parent_names, &families) {
        Ok(c) => c,
        Err(e) => {
            proof {
                assert(second_stage_fails(&t1, e@));
            }
            return Err(e);
        },
    };
    proof {
        let pr = program_of(&method_sigs, &parent_names, &families);
        let envs = sp_run(&t2, t2.values().len() as int, pr)->Ok_0;
        assert forall|i: int| 0 <= i < t.values().len() implies {
            &&& same_declaration(t.values()[i], t1.values()[i])
            &&& class_out(&t1, &t2, i, s)
            &&& sp_class_out(&t2, &classes, i, pr, envs[i])
            &&& (#[trigger] t.values()[i]).wf()
            &&& t1.values()[i].wf()
            &&& t2.values()[i].wf()
        } by {}
        assert(same_entry(&t, &t1)) by {
            assert forall|i: int| 0 <= i < t.values().len() implies (#[trigger] t.values()[i]).methods
                == t1.values()[i].methods && t.values()[i].methods.wf() by {
                assert(same_declaration(t.values()[i], t1.values()[i]));
                assert(t.values()[i].wf());
            }
        }
        assert(same_entry(&t1, &t2)) by {
            reveal(class_out);
            assert forall|i: int| 0 <= i < t1.values().len() implies {
                let x = #[trigger] t1.values()[i];
                let y = t2.values()[i];
                &&& x.file_name == y.file_name
                &&& x.line_no == y.line_no
                &&& x.methods.wf()
                &&& y.methods.wf()
                &&& x.methods.keys() == y.methods.keys()
                &&& forall|k: int|
                    0 <= k < x.methods.values().len() ==> {
                        &&& x.methods.values()[k].formals == (#[trigger] y.methods.values()[k]).formals
                        &&& x.methods.values()[k].line_no == y.methods.values()[k].line_no
                    }
            } by {
                assert(class_out(&t1, &t2, i, s));
                assert(t1.values()[i].wf());
            }
        }
        assert(same_entry(&t2, &classes)) by {
            assert forall|i: int| 0 <= i < t2.values().len() implies {
                let x = #[trigger] t2.values()[i];
                let y = classes.values()[i];
                &&& x.file_name == y.file_name
                &&& x.line_no == y.line_no
                &&& x.methods.wf()
                &&& y.methods.wf()
                &&& x.methods.keys() == y.methods.keys()
                &&& forall|k: int|
                    0 <= k < x.methods.values().len() ==> {
                        &&& x.methods.values()[k].formals == (#[trigger] y.methods.values()[k]).formals
                        &&& x.methods.values()[k].line_no == y.methods.values()[k].line_no
                    }
            } by {
                assert(sp_class_out(&t2, &classes, i, pr, envs[i]));
                assert(t2.values()[i].wf());
            }
        }
        assert forall|i: int| 0 <= i < classes.values().len() implies (
        #[trigger] classes.values()[i]).methods.wf() by {
            assert(sp_class_out(&t2, &classes, i, pr, envs[i]));
        }
        lemma_same_entry(&t, &t1);
        lemma_same_entry(&t1, &t2);
        lemma_same_entry(&t2, &classes);
    }
    match verify_main(&classes) {
        Ok(_) => {},
        Err(e) => {
            proof {
                assert(second_stage_passes(&t1));
            }
            return Err(e);
        },
    }
    let strs = strings_of(&str_table);
    proof {
        assert(texts(strs@) =~= str_table@);
    }
    Ok((classes, int_table, strs))
}

} // verus!
