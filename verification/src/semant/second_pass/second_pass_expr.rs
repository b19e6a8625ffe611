//! The second pass over an expression.

use crate::ast::{Branch, Expression, ObjectID, TypeID};
use crate::semant::first_pass::layout::Slot;
use crate::error::{ErrorKind, ErrorView, SemantError};
use crate::name_table::{NameMap, NameSet};
use crate::scoped_collections::{lookup, ScopedIndexMap};
use crate::semant::conformance::{conforms, least_upper_bound};
use crate::semant::first_pass::first_pass_expr::sort_branches;
use crate::semant::first_pass::rules::{declared_before, most_derived_first};
use crate::semant::second_pass::rules::{
    bad, dispatch_type, first_bad_arg, in_sight, lemma_sp_types, sig_of, sigs_wf,
    sp_branch_type, sp_case_type, sp_check, sp_check_branch, sp_check_branches, sp_check_list,
    sp_out, sp_out_branch, sp_types, Env, TypeScope,
};
use crate::semant::second_pass::second_pass_branch::second_pass_branch;
use std::ops::Range;
use vstd::prelude::*;

verus! {

/// The place of an expression, as the typing rules read it.
pub open spec fn type_scope(
    current: &TypeID,
    file_name: &str,
    method_sigs: &NameMap<NameMap<Slot>>,
    parent_names: &NameMap<TypeID>,
    families: &NameMap<Range<u32>>,
) -> TypeScope {
    TypeScope {
        current: current@,
        file: file_name@,
        sigs: *method_sigs,
        parent_names: *parent_names,
        families: *families,
    }
}

/// The declared types of the identifiers that the frames hold.
pub open spec fn env_from(frames: Seq<NameMap<TypeID>>) -> Env {
    Map::new(
        |k: Seq<char>| lookup(frames, k) is Some,
        |k: Seq<char>| lookup(frames, k).unwrap()@,
    )
}

/// The declared types of the identifiers in sight.
pub open spec fn env_of(object_types: &ScopedIndexMap<TypeID>) -> Env {
    env_from(object_types.frames())
}

/// A binding in a new innermost frame is a binding in the environment.
pub proof fn lemma_bind_env(
    before: &ScopedIndexMap<TypeID>,
    after: &ScopedIndexMap<TypeID>,
    name: Seq<char>,
    value: TypeID,
)
    requires
        after.spec_get(name) == Some(value),
        forall|other: Seq<char>|
            other != name ==> #[trigger] after.spec_get(other) == before.spec_get(other),
    ensures
        env_of(after) == env_of(before).insert(name, value@),
{
    let a = env_of(after);
    let b = env_of(before).insert(name, value@);
    assert forall|k: Seq<char>| #[trigger] a.dom().contains(k) == b.dom().contains(k) by {
        if k != name {
            assert(after.spec_get(k) == before.spec_get(k));
        }
    }
    assert forall|k: Seq<char>| #[trigger] a.dom().contains(k) implies a[k] == b[k] by {
        if k != name {
            assert(after.spec_get(k) == before.spec_get(k));
        }
    }
    assert(a.dom() =~= b.dom());
    assert(a =~= b);
}

/// The signature of method `name` in class `class`.
pub fn lookup_sig<'a>(
    method_sigs: &'a NameMap<NameMap<Slot>>,
    class: &TypeID,
    name: &ObjectID,
) -> (r: Option<&'a Slot>)
    requires
        sigs_wf(method_sigs),
    ensures
        match r {
            Some(m) => method_sigs.contains_name(class@) && method_sigs.value_of(
                class@,
            ).contains_name(name@) && *m == method_sigs.value_of(class@).value_of(name@),
            None => !(method_sigs.contains_name(class@) && method_sigs.value_of(
                class@,
            ).contains_name(name@)),
        },
{
    match method_sigs.index_of(class.as_str()) {
        Some(i) => method_sigs.value(i).get(name.as_str()),
        None => None,
    }
}

/// Types the expressions of a list in order.
pub fn second_pass_list(
    es: Vec<Expression>,
    current_class_name: &TypeID,
    file_name: &str,
    object_types: &mut ScopedIndexMap<TypeID>,
    method_sigs: &NameMap<NameMap<Slot>>,
    parent_names: &NameMap<TypeID>,
    families: &NameMap<Range<u32>>,
) -> (r: Result<Vec<Expression>, SemantError>)
    requires
        forall|k: int| 0 <= k < es.len() ==> (#[trigger] es[k]).wf(),
        old(object_types).wf(),
        sigs_wf(method_sigs),
        parent_names.wf(),
        families.wf(),
    ensures
        final(object_types).wf(),
        match r {
            Ok(outs) => {
                &&& final(object_types).frames() == old(object_types).frames()
                &&& sp_check_list(es@, 0, type_scope(current_class_name, file_name, method_sigs, parent_names, families), env_of(old(object_types))) is None
                &&& outs.len() == es.len()
                &&& forall|k: int|
                    0 <= k < es.len() ==> sp_out(es[k], #[trigger] outs[k], type_scope(current_class_name, file_name, method_sigs, parent_names, families), env_of(old(object_types)))
                &&& forall|k: int| 0 <= k < es.len() ==> (#[trigger] outs[k]).wf()
            },
            Err(e) => sp_check_list(es@, 0, type_scope(current_class_name, file_name, method_sigs, parent_names, families), env_of(old(object_types))) == Some(e@),
        },
    decreases es,
{
    let ghost cx = type_scope(current_class_name, file_name, method_sigs, parent_names, families);
    let ghost env = env_of(object_types);
    let ghost frames0 = object_types.frames();
    let ghost es0 = es@;
    let mut outs: Vec<Expression> = Vec::new();
    for e in it: es
        invariant
            object_types.wf(),
            sigs_wf(method_sigs),
            parent_names.wf(),
            families.wf(),
            it.seq() == es0,
            es0 == es@,
            forall|k: int| 0 <= k < es0.len() ==> (#[trigger] es0[k]).wf(),
            cx == type_scope(current_class_name, file_name, method_sigs, parent_names, families),
            env == env_of(old(object_types)),
            object_types.frames() == frames0,
            frames0 == old(object_types).frames(),
            sp_check_list(es0, 0, cx, env) == sp_check_list(es0, it.index() as int, cx, env),
            outs.len() == it.index(),
            forall|k: int| 0 <= k < it.index() ==> sp_out(es0[k], #[trigger] outs[k], cx, env),
            forall|k: int| 0 <= k < it.index() ==> (#[trigger] outs[k]).wf(),
    {
        let ghost i = it.index() as int;
        let ghost before = outs@;
        proof {
            assert(e == es0[i]);
            assert(decreases_to!(es => es[i]));
            assert(env_of(object_types) == env);
        }
        match second_pass_expr(
            e,
            current_class_name,
            file_name,
            object_types,
            method_sigs,
            parent_names,
            families,
        ) {
            Ok(out) => {
                outs.push(out);
                proof {
                    assert forall|k: int| 0 <= k < i + 1 implies sp_out(es0[k], #[trigger] outs[k], cx, env) by {
                        if k < i {
                            assert(outs[k] == before[k]);
                        }
                    }
                    assert forall|k: int| 0 <= k < i + 1 implies (#[trigger] outs[k]).wf() by {
                        if k < i {
                            assert(outs[k] == before[k]);
                        }
                    }
                }
            },
            Err(err) => {
                return Err(err);
            },
        }
    }
    Ok(outs)
}

/// Whether `t` names the current class or a class of the tree.
pub fn class_in_sight(t: &TypeID, current: &TypeID, families: &NameMap<Range<u32>>) -> (r: bool)
    ensures
        r == (t@ == current@ || families.contains_name(t@)),
{
    t.same(current) || families.contains_key(t.as_str())
}

/// Whether `seen` holds the types that the branches before branch `i`
/// declare, and no others.
#[verifier::opaque]
spec fn seen_before(bs: Seq<Branch>, i: int, seen: Seq<Seq<char>>) -> bool {
    forall|t: Seq<char>| #[trigger] seen.contains(t) <==> declared_before(bs, i, t)
}

/// No type is declared before the first branch.
proof fn lemma_seen_start(bs: Seq<Branch>)
    ensures
        seen_before(bs, 0, Seq::empty()),
{
    reveal(seen_before);
}

/// Whether the type of branch `i` is declared before it.
proof fn lemma_seen_holds(bs: Seq<Branch>, i: int, seen: Seq<Seq<char>>)
    requires
        0 <= i < bs.len(),
        seen_before(bs, i, seen),
    ensures
        seen.contains(bs[i].type_decl@) == declared_before(bs, i, bs[i].type_decl@),
{
    reveal(seen_before);
}

/// A set that holds the types declared before branch `i` holds, with the
/// type of branch `i`, the types declared before branch `i + 1`.
proof fn lemma_seen_step(bs: Seq<Branch>, i: int, seen0: Seq<Seq<char>>, seen1: Seq<Seq<char>>)
    requires
        0 <= i < bs.len(),
        seen_before(bs, i, seen0),
        seen1 == seen0.push(bs[i].type_decl@),
    ensures
        seen_before(bs, i + 1, seen1),
{
    reveal(seen_before);
    assert forall|t: Seq<char>| #[trigger] seen1.contains(t) <==> declared_before(
        bs,
        i + 1,
        t,
    ) by {
        if seen1.contains(t) {
            let j = choose|j: int| 0 <= j < seen1.len() && seen1[j] == t;
            if j < seen0.len() {
                assert(seen0[j] == t);
                assert(seen0.contains(t));
                let k = choose|k: int| 0 <= k < i && k < bs.len() && (#[trigger] bs[k]).type_decl@ == t;
                assert(0 <= k < i + 1 && bs[k].type_decl@ == t);
            } else {
                assert(bs[i].type_decl@ == t);
            }
        }
        if declared_before(bs, i + 1, t) {
            let k = choose|k: int| 0 <= k < i + 1 && k < bs.len() && (#[trigger] bs[k]).type_decl@ == t;
            if k < i {
                assert(declared_before(bs, i, t));
                assert(seen0.contains(t));
                let j = choose|j: int| 0 <= j < seen0.len() && seen0[j] == t;
                assert(seen1[j] == t);
            } else {
                assert(seen1[seen0.len() as int] == t);
            }
        }
    }
}

/// Types the branches of a type-case in order. No branch may declare the
/// type of a branch before it.
pub fn second_pass_branches(
    bs: Vec<Branch>,
    current_class_name: &TypeID,
    file_name: &str,
    object_types: &mut ScopedIndexMap<TypeID>,
    method_sigs: &NameMap<NameMap<Slot>>,
    parent_names: &NameMap<TypeID>,
    families: &NameMap<Range<u32>>,
) -> (r: Result<Vec<Branch>, SemantError>)
    requires
        forall|k: int| 0 <= k < bs.len() ==> (#[trigger] bs[k]).expr.wf(),
        old(object_types).wf(),
        sigs_wf(method_sigs),
        parent_names.wf(),
        families.wf(),
    ensures
        final(object_types).wf(),
        match r {
            Ok(outs) => {
                &&& final(object_types).frames() == old(object_types).frames()
                &&& sp_check_branches(bs@, 0, type_scope(current_class_name, file_name, method_sigs, parent_names, families), env_of(old(object_types))) is None
                &&& outs.len() == bs.len()
                &&& forall|k: int|
                    0 <= k < bs.len() ==> sp_out_branch(
                        bs[k],
                        #[trigger] outs[k],
                        type_scope(current_class_name, file_name, method_sigs, parent_names, families),
                        env_of(old(object_types)),
                    )
                &&& forall|k: int| 0 <= k < bs.len() ==> (#[trigger] outs[k]).expr.wf()
            },
            Err(e) => sp_check_branches(bs@, 0, type_scope(current_class_name, file_name, method_sigs, parent_names, families), env_of(old(object_types))) == Some(e@),
        },
    decreases bs,
{
    let ghost cx = type_scope(current_class_name, file_name, method_sigs, parent_names, families);
    let ghost env = env_of(object_types);
    let ghost frames0 = object_types.frames();
    let ghost bs0 = bs@;
    let mut outs: Vec<Branch> = Vec::new();
    let mut seen: NameSet = NameSet::new();
    proof {
        lemma_seen_start(bs0);
    }
    for b in it: bs
        invariant
            object_types.wf(),
            seen.wf(),
            seen_before(bs0, it.index() as int, seen@),
            sigs_wf(method_sigs),
            parent_names.wf(),
            families.wf(),
            it.seq() == bs0,
            bs0 == bs@,
            forall|k: int| 0 <= k < bs0.len() ==> (#[trigger] bs0[k]).expr.wf(),
            cx == type_scope(current_class_name, file_name, method_sigs, parent_names, families),
            env == env_of(old(object_types)),
            object_types.frames() == frames0,
            frames0 == old(object_types).frames(),
            sp_check_branches(bs0, 0, cx, env) == sp_check_branches(bs0, it.index() as int, cx, env),
            outs.len() == it.index(),
            forall|k: int| 0 <= k < it.index() ==> sp_out_branch(bs0[k], #[trigger] outs[k], cx, env),
            forall|k: int| 0 <= k < it.index() ==> (#[trigger] outs[k]).expr.wf(),
    {
        let ghost i = it.index() as int;
        let ghost before = outs@;
        proof {
            assert(b == bs0[i]);
            assert(decreases_to!(bs => bs[i]));
            assert(env_of(object_types) == env);
        }
        let ghost seen0 = seen@;
        proof {
            lemma_seen_holds(bs0, i, seen0);
        }
        if !seen.insert(b.type_decl.as_str().to_string()) {
            return Err(
                SemantError::with_name(
                    ErrorKind::DuplicateBranch,
                    file_name,
                    b.line_no,
                    b.type_decl.as_str(),
                ),
            );
        }
        proof {
            lemma_seen_step(bs0, i, seen0, seen@);
        }
        match second_pass_branch(
            b,
            current_class_name,
            file_name,
            object_types,
            method_sigs,
            parent_names,
            families,
        ) {
            Ok(out) => {
                outs.push(out);
                proof {
                    assert forall|k: int| 0 <= k < i + 1 implies sp_out_branch(
                        bs0[k],
                        #[trigger] outs[k],
                        cx,
                        env,
                    ) by {
                        if k < i {
                            assert(outs[k] == before[k]);
                        }
                    }
                    assert forall|k: int| 0 <= k < i + 1 implies (#[trigger] outs[k]).expr.wf() by {
                        if k < i {
                            assert(outs[k] == before[k]);
                        }
                    }
                }
            },
            Err(err) => {
                return Err(err);
            },
        }
    }
    Ok(outs)
}

/// Holds the arguments of a dispatch against the formals of the method,
/// in order.
fn check_args(
    args: &Vec<Expression>,
    sig: &Slot,
    name: &ObjectID,
    line_no: i16,
    current_class_name: &TypeID,
    file_name: &str,
    families: &NameMap<Range<u32>>,
    Ghost(cx): Ghost<TypeScope>,
    Ghost(types): Ghost<Seq<Seq<char>>>,
) -> (r: Result<(), SemantError>)
    requires
        families.wf(),
        cx.current == current_class_name@,
        cx.file == file_name@,
        cx.families == *families,
        args.len() == sig.formal_types.len(),
        types.len() == args.len(),
        forall|k: int| 0 <= k < args.len() ==> (#[trigger] args[k]).wf(),
        forall|k: int| 0 <= k < args.len() ==> (#[trigger] args[k]).spec_static_type() == types[k],
    ensures
        match r {
            Ok(_) => first_bad_arg(cx, types, *sig, 0) is None,
            Err(e) => first_bad_arg(cx, types, *sig, 0) matches Some(k) && e@ == bad(
                ErrorKind::ArgumentNonConforming,
                cx,
                line_no,
                seq![name@, types[k], sig.formal_types[k]@],
            ),
        },
{
    let mut k: usize = 0;
    while k < args.len()
        invariant
            families.wf(),
            cx.current == current_class_name@,
            cx.file == file_name@,
            cx.families == *families,
            args.len() == sig.formal_types.len(),
            types.len() == args.len(),
            forall|j: int| 0 <= j < args.len() ==> (#[trigger] args[j]).wf(),
            forall|j: int| 0 <= j < args.len() ==> (#[trigger] args[j]).spec_static_type() == types[j],
            k <= args.len(),
            first_bad_arg(cx, types, *sig, 0) == first_bad_arg(cx, types, *sig, k as int),
        decreases args.len() - k,
    {
        let t = args[k].static_type();
        if !conforms(&t, &sig.formal_types[k], current_class_name, families) {
            return Err(
                SemantError::with_names3(
                    ErrorKind::ArgumentNonConforming,
                    file_name,
                    line_no,
                    name.as_str(),
                    t.as_str(),
                    sig.formal_types[k].as_str(),
                ),
            );
        }
        k += 1;
    }
    Ok(())
}

/// An assignment.
fn type_assign(
    expr: Expression,
    current_class_name: &TypeID,
    file_name: &str,
    object_types: &mut ScopedIndexMap<TypeID>,
    method_sigs: &NameMap<NameMap<Slot>>,
    parent_names: &NameMap<TypeID>,
    families: &NameMap<Range<u32>>,
) -> (r: Result<Expression, SemantError>)
    requires
        expr.wf(),
        expr is Assign,
        old(object_types).wf(),
        sigs_wf(method_sigs),
        parent_names.wf(),
        families.wf(),
    ensures
        final(object_types).wf(),
        match r {
            Ok(out) => {
                &&& final(object_types).frames() == old(object_types).frames()
                &&& sp_out(expr, out, type_scope(current_class_name, file_name, method_sigs, parent_names, families), env_of(old(object_types)))
                &&& out.wf()
            },
            Err(e) => sp_check(expr, type_scope(current_class_name, file_name, method_sigs, parent_names, families), env_of(old(object_types))) == Err::<Seq<char>, ErrorView>(
                e@,
            ),
        },
    decreases expr, 0nat,
{
    let ghost cx = type_scope(current_class_name, file_name, method_sigs, parent_names, families);
    let ghost env = env_of(object_types);
    match expr {
        Expression::Assign { line_no, name, expr: inner } => {
            let inner = match second_pass_expr(
                *inner,
                current_class_name,
                file_name,
                object_types,
                method_sigs,
                parent_names,
                families,
            ) {
                Ok(e) => e,
                Err(err) => {
                    return Err(err);
                },
            };
            let t = inner.static_type();
            if name.is_self() {
                return Err(SemantError::new(ErrorKind::AssignToSelf, file_name, line_no));
            }
            match object_types.get(name.as_str()) {
                Some(d) => {
                    if !conforms(&t, d, current_class_name, families) {
                        return Err(
                            SemantError::with_names3(
                                ErrorKind::AssignNonConforming,
                                file_name,
                                line_no,
                                t.as_str(),
                                d.as_str(),
                                name.as_str(),
                            ),
                        );
                    }
                },
                None => {
                    return Err(
                        SemantError::with_name(
                            ErrorKind::AssignUndeclared,
                            file_name,
                            line_no,
                            name.as_str(),
                        ),
                    );
                },
            }
            Ok(Expression::Assign { line_no, name, expr: Box::new(inner) })
        },
        _ => vstd::pervasive::unreached(),
    }
}

/// A dispatch.
fn type_dispatch(
    expr: Expression,
    current_class_name: &TypeID,
    file_name: &str,
    object_types: &mut ScopedIndexMap<TypeID>,
    method_sigs: &NameMap<NameMap<Slot>>,
    parent_names: &NameMap<TypeID>,
    families: &NameMap<Range<u32>>,
) -> (r: Result<Expression, SemantError>)
    requires
        expr.wf(),
        expr is Dispatch,
        old(object_types).wf(),
        sigs_wf(method_sigs),
        parent_names.wf(),
        families.wf(),
    ensures
        final(object_types).wf(),
        match r {
            Ok(out) => {
                &&& final(object_types).frames() == old(object_types).frames()
                &&& sp_out(expr, out, type_scope(current_class_name, file_name, method_sigs, parent_names, families), env_of(old(object_types)))
                &&& out.wf()
            },
            Err(e) => sp_check(expr, type_scope(current_class_name, file_name, method_sigs, parent_names, families), env_of(old(object_types))) == Err::<Seq<char>, ErrorView>(
                e@,
            ),
        },
    decreases expr, 0nat,
{
    let ghost cx = type_scope(current_class_name, file_name, method_sigs, parent_names, families);
    let ghost env = env_of(object_types);
    match expr {
        Expression::Dispatch { line_no, expr: inner, type_id, name, args, static_type: _ } => {
            let inner = match second_pass_expr(
                *inner,
                current_class_name,
                file_name,
                object_types,
                method_sigs,
                parent_names,
                families,
            ) {
                Ok(e) => e,
                Err(err) => {
                    return Err(err);
                },
            };
            let t0 = inner.static_type();
            match &type_id {
                Some(q) => {
                    if q.is_self_type() {
                        return Err(
                            SemantError::new(ErrorKind::StaticDispatchSelfType, file_name, line_no),
                        );
                    }
                    if !class_in_sight(q, current_class_name, families) {
                        return Err(
                            SemantError::with_name(
                                ErrorKind::StaticDispatchUndefined,
                                file_name,
                                line_no,
                                q.as_str(),
                            ),
                        );
                    }
                    if !conforms(&t0, q, current_class_name, families) {
                        return Err(
                            SemantError::with_names2(
                                ErrorKind::StaticDispatchNonConforming,
                                file_name,
                                line_no,
                                t0.as_str(),
                                q.as_str(),
                            ),
                        );
                    }
                },
                None => {},
            }
            let ghost args0 = args@;
            let args = match second_pass_list(
                args,
                current_class_name,
                file_name,
                object_types,
                method_sigs,
                parent_names,
                families,
            ) {
                Ok(e) => e,
                Err(err) => {
                    return Err(err);
                },
            };
            proof {
                lemma_sp_types(args0, args0.len() as int, cx, env);
            }
            let ghost types = sp_types(args0, args0.len() as int, cx, env);
            proof {
                assert forall|k: int| 0 <= k < args.len() implies (#[trigger] args[k]).spec_static_type()
                    == types[k] by {
                    assert(sp_out(args0[k], args[k], cx, env));
                }
            }
            let class: &TypeID = match &type_id {
                Some(q) => q,
                None => if t0.is_self_type() {
                    current_class_name
                } else {
                    &t0
                },
            };
            let sig = match lookup_sig(method_sigs, class, &name) {
                Some(sig) => sig,
                None => {
                    return Err(
                        SemantError::with_name(
                            ErrorKind::DispatchUndefined,
                            file_name,
                            line_no,
                            name.as_str(),
                        ),
                    );
                },
            };
            if args.len() != sig.formal_types.len() {
                return Err(
                    SemantError::with_name(
                        ErrorKind::DispatchArity,
                        file_name,
                        line_no,
                        name.as_str(),
                    ),
                );
            }
            match check_args(
                &args,
                sig,
                &name,
                line_no,
                current_class_name,
                file_name,
                families,
                Ghost(cx),
                Ghost(types),
            ) {
                Err(err) => {
                    return Err(err);
                },
                Ok(_) => {},
            }
            let static_type = if sig.return_type.is_self_type() && !t0.is_self_type() {
                t0
            } else {
                sig.return_type.clone()
            };
            Ok(Expression::Dispatch { line_no, expr: Box::new(inner), type_id, name, args, static_type })
        },
        _ => vstd::pervasive::unreached(),
    }
}

/// A conditional.
fn type_cond(
    expr: Expression,
    current_class_name: &TypeID,
    file_name: &str,
    object_types: &mut ScopedIndexMap<TypeID>,
    method_sigs: &NameMap<NameMap<Slot>>,
    parent_names: &NameMap<TypeID>,
    families: &NameMap<Range<u32>>,
) -> (r: Result<Expression, SemantError>)
    requires
        expr.wf(),
        expr is Cond,
        old(object_types).wf(),
        sigs_wf(method_sigs),
        parent_names.wf(),
        families.wf(),
    ensures
        final(object_types).wf(),
        match r {
            Ok(out) => {
                &&& final(object_types).frames() == old(object_types).frames()
                &&& sp_out(expr, out, type_scope(current_class_name, file_name, method_sigs, parent_names, families), env_of(old(object_types)))
                &&& out.wf()
            },
            Err(e) => sp_check(expr, type_scope(current_class_name, file_name, method_sigs, parent_names, families), env_of(old(object_types))) == Err::<Seq<char>, ErrorView>(
                e@,
            ),
        },
    decreases expr, 0nat,
{
    let ghost cx = type_scope(current_class_name, file_name, method_sigs, parent_names, families);
    let ghost env = env_of(object_types);
    match expr {
        Expression::Cond { line_no, pred, then_expr, else_expr, static_type: _ } => {
            let pred = match second_pass_expr(
                *pred,
                current_class_name,
                file_name,
                object_types,
                method_sigs,
                parent_names,
                families,
            ) {
                Ok(e) => e,
                Err(err) => {
                    return Err(err);
                },
            };
            if !pred.static_type().is_bool() {
                return Err(SemantError::new(ErrorKind::IfPredicateNotBool, file_name, line_no));
            }
            let then_expr = match second_pass_expr(
                *then_expr,
                current_class_name,
                file_name,
                object_types,
                method_sigs,
                parent_names,
                families,
            ) {
                Ok(e) => e,
                Err(err) => {
                    return Err(err);
                },
            };
            let else_expr = match second_pass_expr(
                *else_expr,
                current_class_name,
                file_name,
                object_types,
                method_sigs,
                parent_names,
                families,
            ) {
                Ok(e) => e,
                Err(err) => {
                    return Err(err);
                },
            };
            let static_type = least_upper_bound(
                &then_expr.static_type(),
                &else_expr.static_type(),
                current_class_name,
                parent_names,
                families,
            );
            Ok(
                Expression::Cond {
                    line_no,
                    pred: Box::new(pred),
                    then_expr: Box::new(then_expr),
                    else_expr: Box::new(else_expr),
                    static_type,
                },
            )
        },
        _ => vstd::pervasive::unreached(),
    }
}

/// A loop.
fn type_loop(
    expr: Expression,
    current_class_name: &TypeID,
    file_name: &str,
    object_types: &mut ScopedIndexMap<TypeID>,
    method_sigs: &NameMap<NameMap<Slot>>,
    parent_names: &NameMap<TypeID>,
    families: &NameMap<Range<u32>>,
) -> (r: Result<Expression, SemantError>)
    requires
        expr.wf(),
        expr is Loop,
        old(object_types).wf(),
        sigs_wf(method_sigs),
        parent_names.wf(),
        families.wf(),
    ensures
        final(object_types).wf(),
        match r {
            Ok(out) => {
                &&& final(object_types).frames() == old(object_types).frames()
                &&& sp_out(expr, out, type_scope(current_class_name, file_name, method_sigs, parent_names, families), env_of(old(object_types)))
                &&& out.wf()
            },
            Err(e) => sp_check(expr, type_scope(current_class_name, file_name, method_sigs, parent_names, families), env_of(old(object_types))) == Err::<Seq<char>, ErrorView>(
                e@,
            ),
        },
    decreases expr, 0nat,
{
    let ghost cx = type_scope(current_class_name, file_name, method_sigs, parent_names, families);
    let ghost env = env_of(object_types);
    match expr {
        Expression::Loop { line_no, pred, body } => {
            let pred = match second_pass_expr(
                *pred,
                current_class_name,
                file_name,
                object_types,
                method_sigs,
                parent_names,
                families,
            ) {
                Ok(e) => e,
                Err(err) => {
                    return Err(err);
                },
            };
            let body = match second_pass_expr(
                *body,
                current_class_name,
                file_name,
                object_types,
                method_sigs,
                parent_names,
                families,
            ) {
                Ok(e) => e,
                Err(err) => {
                    return Err(err);
                },
            };
            if !pred.static_type().is_bool() {
                return Err(SemantError::new(ErrorKind::LoopPredicateNotBool, file_name, line_no));
            }
            Ok(Expression::Loop { line_no, pred: Box::new(pred), body: Box::new(body) })
        },
        _ => vstd::pervasive::unreached(),
    }
}

/// The type of a type-case whose branches are typed: the least type that
/// the bodies of the branches all conform to.
fn case_type(
    branches: &Vec<Branch>,
    Ghost(bs0): Ghost<Seq<Branch>>,
    Ghost(env): Ghost<Env>,
    current_class_name: &TypeID,
    file_name: &str,
    method_sigs: &NameMap<NameMap<Slot>>,
    parent_names: &NameMap<TypeID>,
    families: &NameMap<Range<u32>>,
) -> (t: TypeID)
    requires
        parent_names.wf(),
        families.wf(),
        branches.len() == bs0.len(),
        bs0.len() > 0,
        forall|j: int|
            0 <= j < bs0.len() ==> sp_out_branch(
                bs0[j],
                #[trigger] branches[j],
                type_scope(current_class_name, file_name, method_sigs, parent_names, families),
                env,
            ),
        forall|j: int| 0 <= j < bs0.len() ==> (#[trigger] branches[j]).expr.wf(),
    ensures
        t@ == sp_case_type(
            bs0,
            bs0.len() as nat,
            type_scope(current_class_name, file_name, method_sigs, parent_names, families),
            env,
        ),
{
    let ghost cx = type_scope(current_class_name, file_name, method_sigs, parent_names, families);
    proof {
        assert(sp_out_branch(bs0[0], branches[0], cx, env));
        assert(sp_case_type(bs0, 0, cx, env) == sp_branch_type(bs0, 0, cx, env));
        assert(sp_branch_type(bs0, 0, cx, env) == branches[0].expr.spec_static_type());
    }
    let mut static_type = branches[0].static_type();
    let mut k: usize = 0;
    while k < branches.len()
        invariant
            parent_names.wf(),
            families.wf(),
            cx == type_scope(current_class_name, file_name, method_sigs, parent_names, families),
            k <= branches.len(),
            branches.len() == bs0.len(),
            forall|j: int| 0 <= j < bs0.len() ==> sp_out_branch(bs0[j], #[trigger] branches[j], cx, env),
            forall|j: int| 0 <= j < bs0.len() ==> (#[trigger] branches[j]).expr.wf(),
            static_type@ == sp_case_type(bs0, k as nat, cx, env),
        decreases branches.len() - k,
    {
        proof {
            assert(sp_out_branch(bs0[k as int], branches[k as int], cx, env));
            assert(sp_case_type(bs0, (k + 1) as nat, cx, env) == crate::semant::second_pass::rules::join(
                cx,
                sp_case_type(bs0, k as nat, cx, env),
                sp_branch_type(bs0, k as int, cx, env),
            ));
        }
        static_type = least_upper_bound(
            &static_type,
            &branches[k].static_type(),
            current_class_name,
            parent_names,
            families,
        );
        k += 1;
    }
    static_type
}

/// A typed type-case with its branches in order is the type-case with its
/// types in place.
proof fn lemma_case_out(
    expr: Expression,
    out: Expression,
    mid: Seq<Branch>,
    cx: TypeScope,
    env: Env,
)
    requires
        expr matches Expression::TypeCase { line_no, expr: e1, branches: b1, .. } && out matches Expression::TypeCase {
            line_no: l2,
            expr: e2,
            branches: b2,
            static_type: s2,
        } && {
            &&& l2 == line_no
            &&& sp_out(*e1, *e2, cx, env)
            &&& sp_check_branches(b1@, 0, cx, env) is None
            &&& s2@ == sp_case_type(b1@, b1.len() as nat, cx, env)
            &&& most_derived_first(b2@)
            &&& mid.len() == b1.len()
            &&& mid.to_multiset() == b2@.to_multiset()
            &&& forall|k: int| 0 <= k < b1.len() ==> sp_out_branch(b1[k], #[trigger] mid[k], cx, env)
        },
    ensures
        sp_out(expr, out, cx, env),
{
    let bs = expr->TypeCase_branches@;
    let b2 = out->TypeCase_branches@;
    assert(exists|m: Seq<Branch>|
        {
            &&& m.len() == bs.len()
            &&& #[trigger] m.to_multiset() == b2.to_multiset()
            &&& forall|k: int| 0 <= k < bs.len() ==> sp_out_branch(bs[k], #[trigger] m[k], cx, env)
        }) by {
        assert(mid.to_multiset() == b2.to_multiset());
    }
}

/// A type-case. Its typed branches are put in falling order of the first
/// tag of their families, the most derived class first.
fn type_case(
    expr: Expression,
    current_class_name: &TypeID,
    file_name: &str,
    object_types: &mut ScopedIndexMap<TypeID>,
    method_sigs: &NameMap<NameMap<Slot>>,
    parent_names: &NameMap<TypeID>,
    families: &NameMap<Range<u32>>,
) -> (r: Result<Expression, SemantError>)
    requires
        expr.wf(),
        expr is TypeCase,
        old(object_types).wf(),
        sigs_wf(method_sigs),
        parent_names.wf(),
        families.wf(),
    ensures
        final(object_types).wf(),
        match r {
            Ok(out) => {
                &&& final(object_types).frames() == old(object_types).frames()
                &&& sp_out(expr, out, type_scope(current_class_name, file_name, method_sigs, parent_names, families), env_of(old(object_types)))
                &&& out.wf()
            },
            Err(e) => sp_check(expr, type_scope(current_class_name, file_name, method_sigs, parent_names, families), env_of(old(object_types))) == Err::<Seq<char>, ErrorView>(
                e@,
            ),
        },
    decreases expr, 0nat,
{
    let ghost cx = type_scope(current_class_name, file_name, method_sigs, parent_names, families);
    let ghost env = env_of(object_types);
    match expr {
        Expression::TypeCase { line_no, expr: inner, branches, static_type: _ } => {
            let inner = match second_pass_expr(
                *inner,
                current_class_name,
                file_name,
                object_types,
                method_sigs,
                parent_names,
                families,
            ) {
                Ok(e) => e,
                Err(err) => {
                    return Err(err);
                },
            };
            let ghost bs0 = branches@;
            let branches = match second_pass_branches(
                branches,
                current_class_name,
                file_name,
                object_types,
                method_sigs,
                parent_names,
                families,
            ) {
                Ok(e) => e,
                Err(err) => {
                    return Err(err);
                },
            };
            let static_type = case_type(
                &branches,
                Ghost(bs0),
                Ghost(env),
                current_class_name,
                file_name,
                method_sigs,
                parent_names,
                families,
            );
            let ghost mid = branches@;
            let sorted = sort_branches(branches);
            proof {
                assert forall|j: int| 0 <= j < sorted.len() implies (#[trigger] sorted[j]).expr.wf() by {
                    assert(sorted@.contains(sorted[j]));
                    vstd::seq_lib::to_multiset_contains(sorted@, sorted[j]);
                    vstd::seq_lib::to_multiset_contains(mid, sorted[j]);
                    assert(mid.contains(sorted[j]));
                    let m = choose|m: int| 0 <= m < mid.len() && mid[m] == sorted[j];
                    assert(mid[m].expr.wf());
                }
            }
            let out = Expression::TypeCase {
                line_no,
                expr: Box::new(inner),
                branches: sorted,
                static_type,
            };
            proof {
                lemma_case_out(expr, out, mid, cx, env);
            }
            Ok(out)
        },
        _ => vstd::pervasive::unreached(),
    }
}

/// A block.
fn type_block(
    expr: Expression,
    current_class_name: &TypeID,
    file_name: &str,
    object_types: &mut ScopedIndexMap<TypeID>,
    method_sigs: &NameMap<NameMap<Slot>>,
    parent_names: &NameMap<TypeID>,
    families: &NameMap<Range<u32>>,
) -> (r: Result<Expression, SemantError>)
    requires
        expr.wf(),
        expr is Block,
        old(object_types).wf(),
        sigs_wf(method_sigs),
        parent_names.wf(),
        families.wf(),
    ensures
        final(object_types).wf(),
        match r {
            Ok(out) => {
                &&& final(object_types).frames() == old(object_types).frames()
                &&& sp_out(expr, out, type_scope(current_class_name, file_name, method_sigs, parent_names, families), env_of(old(object_types)))
                &&& out.wf()
            },
            Err(e) => sp_check(expr, type_scope(current_class_name, file_name, method_sigs, parent_names, families), env_of(old(object_types))) == Err::<Seq<char>, ErrorView>(
                e@,
            ),
        },
    decreases expr, 0nat,
{
    let ghost cx = type_scope(current_class_name, file_name, method_sigs, parent_names, families);
    let ghost env = env_of(object_types);
    match expr {
        Expression::Block { line_no, body } => {
            let ghost body0 = body@;
            let body = match second_pass_list(
                body,
                current_class_name,
                file_name,
                object_types,
                method_sigs,
                parent_names,
                families,
            ) {
                Ok(e) => e,
                Err(err) => {
                    return Err(err);
                },
            };
            proof {
                lemma_sp_types(body0, body0.len() as int, cx, env);
                assert(sp_out(body0[body0.len() - 1], body[body0.len() - 1], cx, env));
            }
            Ok(Expression::Block { line_no, body })
        },
        _ => vstd::pervasive::unreached(),
    }
}

/// A `let`.
fn type_let(
    expr: Expression,
    current_class_name: &TypeID,
    file_name: &str,
    object_types: &mut ScopedIndexMap<TypeID>,
    method_sigs: &NameMap<NameMap<Slot>>,
    parent_names: &NameMap<TypeID>,
    families: &NameMap<Range<u32>>,
) -> (r: Result<Expression, SemantError>)
    requires
        expr.wf(),
        expr is Let,
        old(object_types).wf(),
        sigs_wf(method_sigs),
        parent_names.wf(),
        families.wf(),
    ensures
        final(object_types).wf(),
        match r {
            Ok(out) => {
                &&& final(object_types).frames() == old(object_types).frames()
                &&& sp_out(expr, out, type_scope(current_class_name, file_name, method_sigs, parent_names, families), env_of(old(object_types)))
                &&& out.wf()
            },
            Err(e) => sp_check(expr, type_scope(current_class_name, file_name, method_sigs, parent_names, families), env_of(old(object_types))) == Err::<Seq<char>, ErrorView>(
                e@,
            ),
        },
    decreases expr, 0nat,
{
    let ghost cx = type_scope(current_class_name, file_name, method_sigs, parent_names, families);
    let ghost env = env_of(object_types);
    match expr {
        Expression::Let { line_no, identifier, type_decl, init, body } => {
            if identifier.is_self() {
                return Err(SemantError::new(ErrorKind::LetBindsSelf, file_name, line_no));
            }
            if !type_decl.is_self_type() && !class_in_sight(
                &type_decl,
                current_class_name,
                families,
            ) {
                return Err(
                    SemantError::with_names2(
                        ErrorKind::LetTypeUndefined,
                        file_name,
                        line_no,
                        type_decl.as_str(),
                        identifier.as_str(),
                    ),
                );
            }
            let init = match second_pass_expr(
                *init,
                current_class_name,
                file_name,
                object_types,
                method_sigs,
                parent_names,
                families,
            ) {
                Ok(e) => e,
                Err(err) => {
                    return Err(err);
                },
            };
            let ti = init.static_type();
            if !conforms(&ti, &type_decl, current_class_name, families) {
                return Err(
                    SemantError::with_names3(
                        ErrorKind::LetInitNonConforming,
                        file_name,
                        line_no,
                        ti.as_str(),
                        identifier.as_str(),
                        type_decl.as_str(),
                    ),
                );
            }
            let ghost before = *object_types;
            let bound = type_decl.clone();
            object_types.bind(identifier.as_str().to_string(), bound);
            proof {
                lemma_bind_env(&before, object_types, identifier@, bound);
            }
            let body = match second_pass_expr(
                *body,
                current_class_name,
                file_name,
                object_types,
                method_sigs,
                parent_names,
                families,
            ) {
                Ok(e) => e,
                Err(err) => {
                    return Err(err);
                },
            };
            object_types.exit_scope();
            Ok(
                Expression::Let {
                    line_no,
                    identifier,
                    type_decl,
                    init: Box::new(init),
                    body: Box::new(body),
                },
            )
        },
        _ => vstd::pervasive::unreached(),
    }
}

/// An arithmetic operation.
fn type_arith(
    expr: Expression,
    current_class_name: &TypeID,
    file_name: &str,
    object_types: &mut ScopedIndexMap<TypeID>,
    method_sigs: &NameMap<NameMap<Slot>>,
    parent_names: &NameMap<TypeID>,
    families: &NameMap<Range<u32>>,
) -> (r: Result<Expression, SemantError>)
    requires
        expr.wf(),
        expr is ArithOp,
        old(object_types).wf(),
        sigs_wf(method_sigs),
        parent_names.wf(),
        families.wf(),
    ensures
        final(object_types).wf(),
        match r {
            Ok(out) => {
                &&& final(object_types).frames() == old(object_types).frames()
                &&& sp_out(expr, out, type_scope(current_class_name, file_name, method_sigs, parent_names, families), env_of(old(object_types)))
                &&& out.wf()
            },
            Err(e) => sp_check(expr, type_scope(current_class_name, file_name, method_sigs, parent_names, families), env_of(old(object_types))) == Err::<Seq<char>, ErrorView>(
                e@,
            ),
        },
    decreases expr, 0nat,
{
    let ghost cx = type_scope(current_class_name, file_name, method_sigs, parent_names, families);
    let ghost env = env_of(object_types);
    match expr {
        Expression::ArithOp { line_no, expr_lhs, expr_rhs, arith_op_type } => {
            let expr_lhs = match second_pass_expr(
                *expr_lhs,
                current_class_name,
                file_name,
                object_types,
                method_sigs,
                parent_names,
                families,
            ) {
                Ok(e) => e,
                Err(err) => {
                    return Err(err);
                },
            };
            let expr_rhs = match second_pass_expr(
                *expr_rhs,
                current_class_name,
                file_name,
                object_types,
                method_sigs,
                parent_names,
                families,
            ) {
                Ok(e) => e,
                Err(err) => {
                    return Err(err);
                },
            };
            let tl = expr_lhs.static_type();
            let tr = expr_rhs.static_type();
            if !tl.is_int() || !tr.is_int() {
                return Err(
                    SemantError::with_names3(
                        ErrorKind::ArithNonInt,
                        file_name,
                        line_no,
                        tl.as_str(),
                        arith_op_type.symbol(),
                        tr.as_str(),
                    ),
                );
            }
            Ok(
                Expression::ArithOp {
                    line_no,
                    expr_lhs: Box::new(expr_lhs),
                    expr_rhs: Box::new(expr_rhs), arith_op_type,
                },
            )
        },
        _ => vstd::pervasive::unreached(),
    }
}

/// An arithmetic negation.
fn type_neg(
    expr: Expression,
    current_class_name: &TypeID,
    file_name: &str,
    object_types: &mut ScopedIndexMap<TypeID>,
    method_sigs: &NameMap<NameMap<Slot>>,
    parent_names: &NameMap<TypeID>,
    families: &NameMap<Range<u32>>,
) -> (r: Result<Expression, SemantError>)
    requires
        expr.wf(),
        expr is Neg,
        old(object_types).wf(),
        sigs_wf(method_sigs),
        parent_names.wf(),
        families.wf(),
    ensures
        final(object_types).wf(),
        match r {
            Ok(out) => {
                &&& final(object_types).frames() == old(object_types).frames()
                &&& sp_out(expr, out, type_scope(current_class_name, file_name, method_sigs, parent_names, families), env_of(old(object_types)))
                &&& out.wf()
            },
            Err(e) => sp_check(expr, type_scope(current_class_name, file_name, method_sigs, parent_names, families), env_of(old(object_types))) == Err::<Seq<char>, ErrorView>(
                e@,
            ),
        },
    decreases expr, 0nat,
{
    let ghost cx = type_scope(current_class_name, file_name, method_sigs, parent_names, families);
    let ghost env = env_of(object_types);
    match expr {
        Expression::Neg { line_no, expr: inner } => {
            let inner = match second_pass_expr(
                *inner,
                current_class_name,
                file_name,
                object_types,
                method_sigs,
                parent_names,
                families,
            ) {
                Ok(e) => e,
                Err(err) => {
                    return Err(err);
                },
            };
            let t = inner.static_type();
            if !t.is_int() {
                return Err(SemantError::with_name(ErrorKind::NegNonInt, file_name, line_no, t.as_str()));
            }
            Ok(Expression::Neg { line_no, expr: Box::new(inner) })
        },
        _ => vstd::pervasive::unreached(),
    }
}

/// A comparison.
fn type_comp(
    expr: Expression,
    current_class_name: &TypeID,
    file_name: &str,
    object_types: &mut ScopedIndexMap<TypeID>,
    method_sigs: &NameMap<NameMap<Slot>>,
    parent_names: &NameMap<TypeID>,
    families: &NameMap<Range<u32>>,
) -> (r: Result<Expression, SemantError>)
    requires
        expr.wf(),
        expr is Comp,
        old(object_types).wf(),
        sigs_wf(method_sigs),
        parent_names.wf(),
        families.wf(),
    ensures
        final(object_types).wf(),
        match r {
            Ok(out) => {
                &&& final(object_types).frames() == old(object_types).frames()
                &&& sp_out(expr, out, type_scope(current_class_name, file_name, method_sigs, parent_names, families), env_of(old(object_types)))
                &&& out.wf()
            },
            Err(e) => sp_check(expr, type_scope(current_class_name, file_name, method_sigs, parent_names, families), env_of(old(object_types))) == Err::<Seq<char>, ErrorView>(
                e@,
            ),
        },
    decreases expr, 0nat,
{
    let ghost cx = type_scope(current_class_name, file_name, method_sigs, parent_names, families);
    let ghost env = env_of(object_types);
    match expr {
        Expression::Comp { line_no, expr_lhs, expr_rhs, comp_type } => {
            let expr_lhs = match second_pass_expr(
                *expr_lhs,
                current_class_name,
                file_name,
                object_types,
                method_sigs,
                parent_names,
                families,
            ) {
                Ok(e) => e,
                Err(err) => {
                    return Err(err);
                },
            };
            let expr_rhs = match second_pass_expr(
                *expr_rhs,
                current_class_name,
                file_name,
                object_types,
                method_sigs,
                parent_names,
                families,
            ) {
                Ok(e) => e,
                Err(err) => {
                    return Err(err);
                },
            };
            let tl = expr_lhs.static_type();
            let tr = expr_rhs.static_type();
            if !tl.is_int() || !tr.is_int() {
                return Err(
                    SemantError::with_names3(
                        ErrorKind::CompNonInt,
                        file_name,
                        line_no,
                        tl.as_str(),
                        comp_type.symbol(),
                        tr.as_str(),
                    ),
                );
            }
            Ok(
                Expression::Comp {
                    line_no,
                    expr_lhs: Box::new(expr_lhs),
                    expr_rhs: Box::new(expr_rhs), comp_type,
                },
            )
        },
        _ => vstd::pervasive::unreached(),
    }
}

/// An equality test.
fn type_eq(
    expr: Expression,
    current_class_name: &TypeID,
    file_name: &str,
    object_types: &mut ScopedIndexMap<TypeID>,
    method_sigs: &NameMap<NameMap<Slot>>,
    parent_names: &NameMap<TypeID>,
    families: &NameMap<Range<u32>>,
) -> (r: Result<Expression, SemantError>)
    requires
        expr.wf(),
        expr is Eq,
        old(object_types).wf(),
        sigs_wf(method_sigs),
        parent_names.wf(),
        families.wf(),
    ensures
        final(object_types).wf(),
        match r {
            Ok(out) => {
                &&& final(object_types).frames() == old(object_types).frames()
                &&& sp_out(expr, out, type_scope(current_class_name, file_name, method_sigs, parent_names, families), env_of(old(object_types)))
                &&& out.wf()
            },
            Err(e) => sp_check(expr, type_scope(current_class_name, file_name, method_sigs, parent_names, families), env_of(old(object_types))) == Err::<Seq<char>, ErrorView>(
                e@,
            ),
        },
    decreases expr, 0nat,
{
    let ghost cx = type_scope(current_class_name, file_name, method_sigs, parent_names, families);
    let ghost env = env_of(object_types);
    match expr {
        Expression::Eq { line_no, expr_lhs, expr_rhs } => {
            let expr_lhs = match second_pass_expr(
                *expr_lhs,
                current_class_name,
                file_name,
                object_types,
                method_sigs,
                parent_names,
                families,
            ) {
                Ok(e) => e,
                Err(err) => {
                    return Err(err);
                },
            };
            let expr_rhs = match second_pass_expr(
                *expr_rhs,
                current_class_name,
                file_name,
                object_types,
                method_sigs,
                parent_names,
                families,
            ) {
                Ok(e) => e,
                Err(err) => {
                    return Err(err);
                },
            };
            let tl = expr_lhs.static_type();
            let tr = expr_rhs.static_type();
            let basic = tl.is_int() || tl.is_string() || tl.is_bool() || tr.is_int() || tr.is_string()
                || tr.is_bool();
            if basic && !tl.same(&tr) {
                return Err(SemantError::new(ErrorKind::IllegalBasicComparison, file_name, line_no));
            }
            Ok(
                Expression::Eq {
                    line_no,
                    expr_lhs: Box::new(expr_lhs),
                    expr_rhs: Box::new(expr_rhs),
                },
            )
        },
        _ => vstd::pervasive::unreached(),
    }
}

/// A logical negation.
fn type_not(
    expr: Expression,
    current_class_name: &TypeID,
    file_name: &str,
    object_types: &mut ScopedIndexMap<TypeID>,
    method_sigs: &NameMap<NameMap<Slot>>,
    parent_names: &NameMap<TypeID>,
    families: &NameMap<Range<u32>>,
) -> (r: Result<Expression, SemantError>)
    requires
        expr.wf(),
        expr is Not,
        old(object_types).wf(),
        sigs_wf(method_sigs),
        parent_names.wf(),
        families.wf(),
    ensures
        final(object_types).wf(),
        match r {
            Ok(out) => {
                &&& final(object_types).frames() == old(object_types).frames()
                &&& sp_out(expr, out, type_scope(current_class_name, file_name, method_sigs, parent_names, families), env_of(old(object_types)))
                &&& out.wf()
            },
            Err(e) => sp_check(expr, type_scope(current_class_name, file_name, method_sigs, parent_names, families), env_of(old(object_types))) == Err::<Seq<char>, ErrorView>(
                e@,
            ),
        },
    decreases expr, 0nat,
{
    let ghost cx = type_scope(current_class_name, file_name, method_sigs, parent_names, families);
    let ghost env = env_of(object_types);
    match expr {
        Expression::Not { line_no, expr: inner } => {
            let inner = match second_pass_expr(
                *inner,
                current_class_name,
                file_name,
                object_types,
                method_sigs,
                parent_names,
                families,
            ) {
                Ok(e) => e,
                Err(err) => {
                    return Err(err);
                },
            };
            let t = inner.static_type();
            if !t.is_bool() {
                return Err(SemantError::with_name(ErrorKind::NotNonBool, file_name, line_no, t.as_str()));
            }
            Ok(Expression::Not { line_no, expr: Box::new(inner) })
        },
        _ => vstd::pervasive::unreached(),
    }
}

/// A void test.
fn type_is_void(
    expr: Expression,
    current_class_name: &TypeID,
    file_name: &str,
    object_types: &mut ScopedIndexMap<TypeID>,
    method_sigs: &NameMap<NameMap<Slot>>,
    parent_names: &NameMap<TypeID>,
    families: &NameMap<Range<u32>>,
) -> (r: Result<Expression, SemantError>)
    requires
        expr.wf(),
        expr is IsVoid,
        old(object_types).wf(),
        sigs_wf(method_sigs),
        parent_names.wf(),
        families.wf(),
    ensures
        final(object_types).wf(),
        match r {
            Ok(out) => {
                &&& final(object_types).frames() == old(object_types).frames()
                &&& sp_out(expr, out, type_scope(current_class_name, file_name, method_sigs, parent_names, families), env_of(old(object_types)))
                &&& out.wf()
            },
            Err(e) => sp_check(expr, type_scope(current_class_name, file_name, method_sigs, parent_names, families), env_of(old(object_types))) == Err::<Seq<char>, ErrorView>(
                e@,
            ),
        },
    decreases expr, 0nat,
{
    let ghost cx = type_scope(current_class_name, file_name, method_sigs, parent_names, families);
    let ghost env = env_of(object_types);
    match expr {
        Expression::IsVoid { line_no, expr: inner } => {
            let inner = match second_pass_expr(
                *inner,
                current_class_name,
                file_name,
                object_types,
                method_sigs,
                parent_names,
                families,
            ) {
                Ok(e) => e,
                Err(err) => {
                    return Err(err);
                },
            };
            Ok(Expression::IsVoid { line_no, expr: Box::new(inner) })
        },
        _ => vstd::pervasive::unreached(),
    }
}

/// An identifier.
fn type_object(
    expr: Expression,
    current_class_name: &TypeID,
    file_name: &str,
    object_types: &mut ScopedIndexMap<TypeID>,
    method_sigs: &NameMap<NameMap<Slot>>,
    parent_names: &NameMap<TypeID>,
    families: &NameMap<Range<u32>>,
) -> (r: Result<Expression, SemantError>)
    requires
        expr.wf(),
        expr is Object,
        old(object_types).wf(),
        sigs_wf(method_sigs),
        parent_names.wf(),
        families.wf(),
    ensures
        final(object_types).wf(),
        match r {
            Ok(out) => {
                &&& final(object_types).frames() == old(object_types).frames()
                &&& sp_out(expr, out, type_scope(current_class_name, file_name, method_sigs, parent_names, families), env_of(old(object_types)))
                &&& out.wf()
            },
            Err(e) => sp_check(expr, type_scope(current_class_name, file_name, method_sigs, parent_names, families), env_of(old(object_types))) == Err::<Seq<char>, ErrorView>(
                e@,
            ),
        },
    decreases expr, 0nat,
{
    let ghost cx = type_scope(current_class_name, file_name, method_sigs, parent_names, families);
    let ghost env = env_of(object_types);
    match expr {
        Expression::Object { line_no, name, static_type: _ } => {
            let static_type = if name.is_self() {
                TypeID::new_self_type()
            } else {
                match object_types.get(name.as_str()) {
                    Some(t) => t.clone(),
                    None => {
                        return Err(
                            SemantError::with_name(
                                ErrorKind::UndeclaredIdentifier,
                                file_name,
                                line_no,
                                name.as_str(),
                            ),
                        );
                    },
                }
            };
            Ok(Expression::Object { line_no, name, static_type })
        },
        _ => vstd::pervasive::unreached(),
    }
}

/// The second pass over an expression: finds the static type of the
/// expression and of every part of it, and holds every part against the
/// typing rules.
pub fn second_pass_expr(
    expr: Expression,
    current_class_name: &TypeID,
    file_name: &str,
    object_types: &mut ScopedIndexMap<TypeID>,
    method_sigs: &NameMap<NameMap<Slot>>,
    parent_names: &NameMap<TypeID>,
    families: &NameMap<Range<u32>>,
) -> (r: Result<Expression, SemantError>)
    requires
        expr.wf(),
        old(object_types).wf(),
        sigs_wf(method_sigs),
        parent_names.wf(),
        families.wf(),
    ensures
        final(object_types).wf(),
        match r {
            Ok(out) => {
                &&& final(object_types).frames() == old(object_types).frames()
                &&& sp_out(expr, out, type_scope(current_class_name, file_name, method_sigs, parent_names, families), env_of(old(object_types)))
                &&& out.wf()
            },
            Err(e) => sp_check(expr, type_scope(current_class_name, file_name, method_sigs, parent_names, families), env_of(old(object_types))) == Err::<Seq<char>, ErrorView>(
                e@,
            ),
        },
    decreases expr, 1nat,
{
    match expr {
        Expression::Assign { .. } => type_assign(
            expr,
            current_class_name,
            file_name,
            object_types,
            method_sigs,
            parent_names,
            families,
        ),
        Expression::Dispatch { .. } => type_dispatch(
            expr,
            current_class_name,
            file_name,
            object_types,
            method_sigs,
            parent_names,
            families,
        ),
        Expression::Cond { .. } => type_cond(
            expr,
            current_class_name,
            file_name,
            object_types,
            method_sigs,
            parent_names,
            families,
        ),
        Expression::Loop { .. } => type_loop(
            expr,
            current_class_name,
            file_name,
            object_types,
            method_sigs,
            parent_names,
            families,
        ),
        Expression::TypeCase { .. } => type_case(
            expr,
            current_class_name,
            file_name,
            object_types,
            method_sigs,
            parent_names,
            families,
        ),
        Expression::Block { .. } => type_block(
            expr,
            current_class_name,
            file_name,
            object_types,
            method_sigs,
            parent_names,
            families,
        ),
        Expression::Let { .. } => type_let(
            expr,
            current_class_name,
            file_name,
            object_types,
            method_sigs,
            parent_names,
            families,
        ),
        Expression::ArithOp { .. } => type_arith(
            expr,
            current_class_name,
            file_name,
            object_types,
            method_sigs,
            parent_names,
            families,
        ),
        Expression::Neg { .. } => type_neg(
            expr,
            current_class_name,
            file_name,
            object_types,
            method_sigs,
            parent_names,
            families,
        ),
        Expression::Comp { .. } => type_comp(
            expr,
            current_class_name,
            file_name,
            object_types,
            method_sigs,
            parent_names,
            families,
        ),
        Expression::Eq { .. } => type_eq(
            expr,
            current_class_name,
            file_name,
            object_types,
            method_sigs,
            parent_names,
            families,
        ),
        Expression::Not { .. } => type_not(
            expr,
            current_class_name,
            file_name,
            object_types,
            method_sigs,
            parent_names,
            families,
        ),
        Expression::IntConst { line_no, val } => Ok(Expression::IntConst { line_no, val }),
        Expression::BoolConst { line_no, val } => Ok(Expression::BoolConst { line_no, val }),
        Expression::StringConst { line_no, val, val_id } => Ok(
            Expression::StringConst { line_no, val, val_id },
        ),
        Expression::New { line_no, type_id } => Ok(Expression::New { line_no, type_id }),
        Expression::IsVoid { .. } => type_is_void(
            expr,
            current_class_name,
            file_name,
            object_types,
            method_sigs,
            parent_names,
            families,
        ),
        Expression::NoExpr => Ok(Expression::NoExpr),
        Expression::Object { .. } => type_object(
            expr,
            current_class_name,
            file_name,
            object_types,
            method_sigs,
            parent_names,
            families,
        ),
    }
}

} // verus!
