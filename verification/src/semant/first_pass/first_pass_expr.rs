//! The first pass over an expression.

use crate::ast::{Branch, Class, Expression, TypeID};
use crate::error::{ErrorKind, ErrorView, SemantError};
use crate::name_table::{IntSet, NameMap, NameSet};
use crate::semant::build_inheritiance_tree::families_in;
use crate::semant::first_pass::first_pass_branch::first_pass_branch;
use crate::semant::first_pass::rules::{
    branch_fault, declared_before, fp_check, fp_check_branches, fp_check_list, fp_out,
    fp_out_branch, is_prefix, lemma_fp_out_mono, most_derived_first, Pools, Scope,
};
use std::ops::Range;
use vstd::prelude::*;

verus! {

/// The place of an expression, as the rules read it.
pub open spec fn scope_of(
    classes: &NameMap<Class>,
    current: &TypeID,
    family: &Range<u32>,
    file_name: &str,
) -> Scope {
    Scope {
        names: classes.keys(),
        families: families_in(classes),
        current: current@,
        current_family: *family,
        file: file_name@,
    }
}

/// The two pools, as the rules read them.
pub open spec fn pools_of(int_table: &IntSet, str_table: &NameSet) -> Pools {
    Pools { ints: int_table@, strs: str_table@ }
}

/// Whether `t` names the current class or a class of the program.
pub fn is_known(t: &TypeID, classes: &NameMap<Class>, current: &TypeID) -> (r: bool)
    ensures
        r == (t@ == current@ || classes.keys().contains(t@)),
{
    t.same(current) || classes.contains_key(t.as_str())
}

/// Puts the branches in falling order of the first tag of their families.
pub fn sort_branches(branches: Vec<Branch>) -> (out: Vec<Branch>)
    ensures
        out@.to_multiset() == branches@.to_multiset(),
        out.len() == branches.len(),
        most_derived_first(out@),
{
    broadcast use {
        vstd::seq_lib::to_multiset_build,
        vstd::seq_lib::to_multiset_remove,
        vstd::seq_lib::to_multiset_contains,
        vstd::seq_lib::to_multiset_len,
        vstd::multiset::group_multiset_axioms,
    };

    let mut rest = branches;
    let mut out: Vec<Branch> = Vec::new();
    assert(out@.to_multiset().add(rest@.to_multiset()) =~= branches@.to_multiset());
    while rest.len() > 0
        invariant
            out@.to_multiset().add(rest@.to_multiset()) == branches@.to_multiset(),
            most_derived_first(out@),
            forall|i: int, j: int|
                0 <= i < out.len() && 0 <= j < rest.len() ==> (#[trigger] out[i]).family.start >= (
                #[trigger] rest[j]).family.start,
        decreases rest.len(),
    {
        let mut best: usize = 0;
        let mut k: usize = 1;
        while k < rest.len()
            invariant
                best < rest.len(),
                1 <= k <= rest.len(),
                forall|j: int| 0 <= j < k ==> rest[best as int].family.start >= (#[trigger] rest[j]).family.start,
            decreases rest.len() - k,
        {
            if rest[k].family.start > rest[best].family.start {
                best = k;
            }
            k += 1;
        }
        let ghost rest0 = rest@;
        let ghost out0 = out@;
        let b = rest.remove(best);
        out.push(b);
        proof {
            assert(rest0[best as int] == b);
            assert(rest0.contains(b));
            vstd::seq_lib::to_multiset_contains(rest0, b);
            vstd::seq_lib::to_multiset_remove(rest0, best as int);
            vstd::seq_lib::to_multiset_build(out0, b);
            assert(rest@ == rest0.remove(best as int));
            assert(out@ == out0.push(b));
            assert(rest0.to_multiset().count(b) > 0);
            assert(out@.to_multiset().add(rest@.to_multiset()) =~= out0.to_multiset().add(
                rest0.to_multiset(),
            ));
            assert forall|i: int, j: int| 0 <= i < out.len() && 0 <= j < rest.len() implies (
            #[trigger] out[i]).family.start >= (#[trigger] rest[j]).family.start by {
                let jj = if j < best {
                    j
                } else {
                    j + 1
                };
                assert(rest@[j] == rest0[jj]);
                if i < out0.len() {
                    assert(out@[i] == out0[i]);
                }
            }
            assert forall|i: int, j: int| 0 <= i < j < out.len() implies (#[trigger] out[i]).family.start
                >= (#[trigger] out[j]).family.start by {
                if j < out0.len() {
                    assert(out@[i] == out0[i] && out@[j] == out0[j]);
                } else {
                    assert(out@[i] == out0[i]);
                    assert(out@[j] == rest0[best as int]);
                }
            }
        }
    }
    proof {
        assert(rest@ =~= Seq::<Branch>::empty());
        assert(rest@.to_multiset() =~= vstd::multiset::Multiset::<Branch>::empty());
        assert(out@.to_multiset() =~= branches@.to_multiset());
        vstd::seq_lib::to_multiset_len(out@);
        vstd::seq_lib::to_multiset_len(branches@);
    }
    out
}

/// Passes the expressions of a list in order.
pub fn first_pass_list(
    es: Vec<Expression>,
    classes: &NameMap<Class>,
    current_class_name: &TypeID,
    current_class_family: &Range<u32>,
    file_name: &str,
    int_table: &mut IntSet,
    str_table: &mut NameSet,
) -> (r: Result<Vec<Expression>, SemantError>)
    requires
        classes.wf(),
        old(str_table).wf(),
    ensures
        final(str_table).wf(),
        is_prefix(old(str_table)@, final(str_table)@),
        match r {
            Ok(outs) => {
                &&& fp_check_list(es@, 0, scope_of(classes, current_class_name, current_class_family, file_name), pools_of(old(int_table), old(str_table))) == Ok::<
                    Pools,
                    ErrorView,
                >(pools_of(final(int_table), final(str_table)))
                &&& outs.len() == es.len()
                &&& forall|k: int|
                    0 <= k < es.len() ==> fp_out(es[k], #[trigger] outs[k], scope_of(classes, current_class_name, current_class_family, file_name), final(str_table)@)
                &&& forall|k: int| 0 <= k < es.len() && es[k].wf() ==> (#[trigger] outs[k]).wf()
            },
            Err(e) => fp_check_list(es@, 0, scope_of(classes, current_class_name, current_class_family, file_name), pools_of(old(int_table), old(str_table))) == Err::<
                Pools,
                ErrorView,
            >(e@),
        },
    decreases es,
{
    let ghost cx = scope_of(classes, current_class_name, current_class_family, file_name);
    let ghost pools0 = pools_of(int_table, str_table);
    let ghost es0 = es@;
    let mut outs: Vec<Expression> = Vec::new();
    for e in it: es
        invariant
            classes.wf(),
            str_table.wf(),
            it.seq() == es0,
            es0 == es@,
            pools0 == pools_of(old(int_table), old(str_table)),
            is_prefix(pools0.strs, str_table@),
            cx == scope_of(classes, current_class_name, current_class_family, file_name),
            fp_check_list(es0, 0, cx, pools0) == fp_check_list(
                es0,
                it.index() as int,
                cx,
                pools_of(int_table, str_table),
            ),
            outs.len() == it.index(),
            forall|k: int| 0 <= k < it.index() ==> fp_out(es0[k], #[trigger] outs[k], cx, str_table@),
            forall|k: int| 0 <= k < it.index() && es0[k].wf() ==> (#[trigger] outs[k]).wf(),
    {
        let ghost before = outs@;
        let ghost p_before = pools_of(int_table, str_table);
        let ghost i = it.index() as int;
        proof {
            assert(e == es0[i]);
            assert(decreases_to!(es => es[i]));
            assert(0 <= i < es0.len());
            assert(fp_check_list(es0, i, cx, p_before) == match fp_check(es0[i], cx, p_before) {
                Err(x) => Err(x),
                Ok(pools1) => fp_check_list(es0, i + 1, cx, pools1),
            });
        }
        match first_pass_expr(
            e,
            classes,
            current_class_name,
            current_class_family,
            file_name,
            int_table,
            str_table,
        ) {
            Ok(out) => {
                outs.push(out);
                proof {
                    assert forall|k: int| 0 <= k < i + 1 implies fp_out(
                        es0[k],
                        #[trigger] outs[k],
                        cx,
                        str_table@,
                    ) by {
                        if k < i {
                            assert(outs[k] == before[k]);
                            lemma_fp_out_mono(es0[k], before[k], cx, p_before.strs, str_table@);
                        }
                    }
                    assert forall|k: int| 0 <= k < i + 1 && es0[k].wf() implies (#[trigger] outs[k]).wf() by {
                        if k < i {
                            assert(outs[k] == before[k]);
                        }
                    }
                }
            },
            Err(err) => {
                return Err(err);
            },
        }
    }
    Ok(outs)
}

/// Passes the branches of a type-case in order: the body and the family
/// of each branch, and that no two branches declare the same type.
pub fn first_pass_branches(
    bs: Vec<Branch>,
    classes: &NameMap<Class>,
    current_class_name: &TypeID,
    current_class_family: &Range<u32>,
    file_name: &str,
    int_table: &mut IntSet,
    str_table: &mut NameSet,
) -> (r: Result<Vec<Branch>, SemantError>)
    requires
        classes.wf(),
        old(str_table).wf(),
    ensures
        final(str_table).wf(),
        is_prefix(old(str_table)@, final(str_table)@),
        match r {
            Ok(outs) => {
                &&& fp_check_branches(bs@, 0, scope_of(classes, current_class_name, current_class_family, file_name), pools_of(old(int_table), old(str_table))) == Ok::<
                    Pools,
                    ErrorView,
                >(pools_of(final(int_table), final(str_table)))
                &&& outs.len() == bs.len()
                &&& forall|k: int|
                    0 <= k < bs.len() ==> fp_out_branch(bs[k], #[trigger] outs[k], scope_of(classes, current_class_name, current_class_family, file_name), final(str_table)@)
                &&& forall|k: int| 0 <= k < bs.len() && bs[k].expr.wf() ==> (#[trigger] outs[k]).expr.wf()
            },
            Err(e) => fp_check_branches(bs@, 0, scope_of(classes, current_class_name, current_class_family, file_name), pools_of(old(int_table), old(str_table)))
                == Err::<Pools, ErrorView>(e@),
        },
    decreases bs,
{
    let ghost cx = scope_of(classes, current_class_name, current_class_family, file_name);
    let ghost pools0 = pools_of(int_table, str_table);
    let ghost bs0 = bs@;
    let mut outs: Vec<Branch> = Vec::new();
    let mut seen: NameSet = NameSet::new();
    for b in it: bs
        invariant
            classes.wf(),
            str_table.wf(),
            seen.wf(),
            it.seq() == bs0,
            bs0 == bs@,
            pools0 == pools_of(old(int_table), old(str_table)),
            is_prefix(pools0.strs, str_table@),
            cx == scope_of(classes, current_class_name, current_class_family, file_name),
            fp_check_branches(bs0, 0, cx, pools0) == fp_check_branches(
                bs0,
                it.index() as int,
                cx,
                pools_of(int_table, str_table),
            ),
            outs.len() == it.index(),
            forall|t: Seq<char>|
                #![trigger seen@.contains(t)]
                #![trigger declared_before(bs0, it.index() as int, t)]
                seen@.contains(t) <==> declared_before(bs0, it.index() as int, t),
            forall|k: int|
                0 <= k < it.index() ==> fp_out_branch(bs0[k], #[trigger] outs[k], cx, str_table@),
            forall|k: int| 0 <= k < it.index() && bs0[k].expr.wf() ==> (#[trigger] outs[k]).expr.wf(),
    {
        let ghost i = it.index() as int;
        proof {
            assert(b == bs0[i]);
            assert(decreases_to!(bs => bs[i]));
        }
        let ghost before = outs@;
        let ghost seen0 = seen@;
        let ghost p_before = pools_of(int_table, str_table);
        proof {
            assert(0 <= i < bs0.len());
            assert(fp_check_branches(bs0, i, cx, p_before) == match fp_check(bs0[i].expr, cx, p_before) {
                Err(x) => Err(x),
                Ok(pools1) => match branch_fault(bs0, i, cx) {
                    Some(x) => Err(x),
                    None => fp_check_branches(bs0, i + 1, cx, pools1),
                },
            });
        }
        let out = match first_pass_branch(
            b,
            classes,
            current_class_name,
            current_class_family,
            file_name,
            int_table,
            str_table,
        ) {
            Ok(out) => out,
            Err(err) => {
                return Err(err);
            },
        };
        if !seen.insert(out.type_decl.as_str().to_string()) {
            proof {
                assert(declared_before(bs0, i, bs0[i].type_decl@));
            }
            return Err(
                SemantError::with_name(
                    ErrorKind::DuplicateBranch,
                    file_name,
                    out.line_no,
                    out.type_decl.as_str(),
                ),
            );
        }
        outs.push(out);
        proof {
            assert(!declared_before(bs0, i, bs0[i].type_decl@));
            assert(branch_fault(bs0, i, cx) is None);
            assert forall|t: Seq<char>|
                #![trigger seen@.contains(t)]
                #![trigger declared_before(bs0, i + 1, t)]
                seen@.contains(t) <==> declared_before(bs0, i + 1, t) by {
                if seen@.contains(t) {
                    if seen0.contains(t) {
                        let j = choose|j: int| 0 <= j < i && j < bs0.len() && (#[trigger] bs0[j]).type_decl@ == t;
                        assert(0 <= j < i + 1 && bs0[j].type_decl@ == t);
                    } else {
                        let j = choose|j: int| 0 <= j < seen@.len() && seen@[j] == t;
                        if j < seen0.len() {
                            assert(seen0[j] == t);
                        }
                        assert(bs0[i].type_decl@ == t);
                    }
                }
                if declared_before(bs0, i + 1, t) {
                    let j = choose|j: int| 0 <= j < i + 1 && j < bs0.len() && (#[trigger] bs0[j]).type_decl@ == t;
                    if j < i {
                        assert(declared_before(bs0, i, t));
                        assert(seen0.contains(t));
                        let m = choose|m: int| 0 <= m < seen0.len() && seen0[m] == t;
                        assert(seen@[m] == t);
                    } else {
                        assert(seen@[seen0.len() as int] == t);
                    }
                }
            }
            assert forall|k: int| 0 <= k < i + 1 implies fp_out_branch(
                bs0[k],
                #[trigger] outs[k],
                cx,
                str_table@,
            ) by {
                if k < i {
                    assert(outs[k] == before[k]);
                    lemma_fp_out_mono(bs0[k].expr, before[k].expr, cx, p_before.strs, str_table@);
                }
            }
            assert forall|k: int| 0 <= k < i + 1 && bs0[k].expr.wf() implies (#[trigger] outs[k]).expr.wf() by {
                if k < i {
                    assert(outs[k] == before[k]);
                }
            }
        }
    }
    Ok(outs)
}

/// The first pass over an expression: checks what can be checked without
/// types, collects the integer and string constants, numbers the string
/// constants, and gives the branches of every type-case their families and
/// their order.
pub fn first_pass_expr(
    expr: Expression,
    classes: &NameMap<Class>,
    current_class_name: &TypeID,
    current_class_family: &Range<u32>,
    file_name: &str,
    int_table: &mut IntSet,
    str_table: &mut NameSet,
) -> (r: Result<Expression, SemantError>)
    requires
        classes.wf(),
        old(str_table).wf(),
    ensures
        final(str_table).wf(),
        is_prefix(old(str_table)@, final(str_table)@),
        match r {
            Ok(out) => {
                &&& fp_check(expr, scope_of(classes, current_class_name, current_class_family, file_name), pools_of(old(int_table), old(str_table))) == Ok::<
                    Pools,
                    ErrorView,
                >(pools_of(final(int_table), final(str_table)))
                &&& fp_out(expr, out, scope_of(classes, current_class_name, current_class_family, file_name), final(str_table)@)
                &&& expr.wf() ==> out.wf()
            },
            Err(e) => fp_check(expr, scope_of(classes, current_class_name, current_class_family, file_name), pools_of(old(int_table), old(str_table))) == Err::<
                Pools,
                ErrorView,
            >(e@),
        },
    decreases expr,
{
    let ghost cx = scope_of(classes, current_class_name, current_class_family, file_name);
    match expr {
        Expression::Assign { line_no, name, expr: inner } => {
            let inner = match first_pass_expr(
                *inner,
                classes,
                current_class_name,
                current_class_family,
                file_name,
                int_table,
                str_table,
            ) {
                Ok(e) => e,
                Err(err) => {
                    return Err(err);
                },
            };
            if name.is_self() {
                return Err(SemantError::new(ErrorKind::AssignToSelf, file_name, line_no));
            }
            Ok(Expression::Assign { line_no, name, expr: Box::new(inner) })
        },
        Expression::Dispatch { line_no, expr: inner, type_id, name, args, static_type } => {
            let inner = match first_pass_expr(
                *inner,
                classes,
                current_class_name,
                current_class_family,
                file_name,
                int_table,
                str_table,
            ) {
                Ok(e) => e,
                Err(err) => {
                    return Err(err);
                },
            };
            let ghost s1 = str_table@;
            let args = match first_pass_list(
                args,
                classes,
                current_class_name,
                current_class_family,
                file_name,
                int_table,
                str_table,
            ) {
                Ok(e) => e,
                Err(err) => {
                    return Err(err);
                },
            };
            proof {
                lemma_fp_out_mono(*expr->Dispatch_expr, inner, cx, s1, str_table@);
            }
            match &type_id {
                Some(t) => {
                    if t.is_self_type() {
                        return Err(
                            SemantError::new(ErrorKind::StaticDispatchSelfType, file_name, line_no),
                        );
                    }
                    if !is_known(t, classes, current_class_name) {
                        return Err(
                            SemantError::with_name(
                                ErrorKind::StaticDispatchUndefined,
                                file_name,
                                line_no,
                                t.as_str(),
                            ),
                        );
                    }
                },
                None => {},
            }
            Ok(Expression::Dispatch { line_no, expr: Box::new(inner), type_id, name, args, static_type })
        },
        Expression::Cond { line_no, pred, then_expr, else_expr, static_type } => {
            let pred = match first_pass_expr(
                *pred,
                classes,
                current_class_name,
                current_class_family,
                file_name,
                int_table,
                str_table,
            ) {
                Ok(e) => e,
                Err(err) => {
                    return Err(err);
                },
            };
            let ghost s1 = str_table@;
            let then_expr = match first_pass_expr(
                *then_expr,
                classes,
                current_class_name,
                current_class_family,
                file_name,
                int_table,
                str_table,
            ) {
                Ok(e) => e,
                Err(err) => {
                    return Err(err);
                },
            };
            let ghost s2 = str_table@;
            let else_expr = match first_pass_expr(
                *else_expr,
                classes,
                current_class_name,
                current_class_family,
                file_name,
                int_table,
                str_table,
            ) {
                Ok(e) => e,
                Err(err) => {
                    return Err(err);
                },
            };
            proof {
                lemma_fp_out_mono(*expr->Cond_pred, pred, cx, s1, str_table@);
                lemma_fp_out_mono(*expr->then_expr, then_expr, cx, s2, str_table@);
            }
            Ok(
                Expression::Cond {
                    line_no,
                    pred: Box::new(pred),
                    then_expr: Box::new(then_expr),
                    else_expr: Box::new(else_expr),
                    static_type,
                },
            )
        },
        Expression::Loop { line_no, pred, body } => {
            let pred = match first_pass_expr(
                *pred,
                classes,
                current_class_name,
                current_class_family,
                file_name,
                int_table,
                str_table,
            ) {
                Ok(e) => e,
                Err(err) => {
                    return Err(err);
                },
            };
            let ghost s1 = str_table@;
            let body = match first_pass_expr(
                *body,
                classes,
                current_class_name,
                current_class_family,
                file_name,
                int_table,
                str_table,
            ) {
                Ok(e) => e,
                Err(err) => {
                    return Err(err);
                },
            };
            proof {
                lemma_fp_out_mono(*expr->Loop_pred, pred, cx, s1, str_table@);
            }
            Ok(Expression::Loop { line_no, pred: Box::new(pred), body: Box::new(body) })
        },
        Expression::TypeCase { line_no, expr: inner, branches, static_type } => {
            let inner = match first_pass_expr(
                *inner,
                classes,
                current_class_name,
                current_class_family,
                file_name,
                int_table,
                str_table,
            ) {
                Ok(e) => e,
                Err(err) => {
                    return Err(err);
                },
            };
            let ghost s1 = str_table@;
            let mid = match first_pass_branches(
                branches,
                classes,
                current_class_name,
                current_class_family,
                file_name,
                int_table,
                str_table,
            ) {
                Ok(e) => e,
                Err(err) => {
                    return Err(err);
                },
            };
            proof {
                lemma_fp_out_mono(*expr->TypeCase_expr, inner, cx, s1, str_table@);
            }
            let ghost mid0 = mid@;
            let sorted = sort_branches(mid);
            proof {
                assert(mid0.to_multiset() == sorted@.to_multiset());
                if expr.wf() {
                    assert forall|k: int| 0 <= k < sorted.len() implies (#[trigger] sorted[k]).expr.wf() by {
                        assert(sorted@.contains(sorted[k]));
                        vstd::seq_lib::to_multiset_contains(sorted@, sorted[k]);
                        vstd::seq_lib::to_multiset_contains(mid0, sorted[k]);
                        assert(mid0.contains(sorted[k]));
                        let j = choose|j: int| 0 <= j < mid0.len() && mid0[j] == sorted[k];
                        assert(expr->branches[j].expr.wf());
                    }
                }
            }
            Ok(
                Expression::TypeCase {
                    line_no,
                    expr: Box::new(inner),
                    branches: sorted,
                    static_type,
                },
            )
        },
        Expression::Block { line_no, body } => {
            let body = match first_pass_list(
                body,
                classes,
                current_class_name,
                current_class_family,
                file_name,
                int_table,
                str_table,
            ) {
                Ok(e) => e,
                Err(err) => {
                    return Err(err);
                },
            };
            Ok(Expression::Block { line_no, body })
        },
        Expression::Let { line_no, identifier, type_decl, init, body } => {
            if identifier.is_self() {
                return Err(SemantError::new(ErrorKind::LetBindsSelf, file_name, line_no));
            }
            let init = match first_pass_expr(
                *init,
                classes,
                current_class_name,
                current_class_family,
                file_name,
                int_table,
                str_table,
            ) {
                Ok(e) => e,
                Err(err) => {
                    return Err(err);
                },
            };
            let ghost s1 = str_table@;
            let body = match first_pass_expr(
                *body,
                classes,
                current_class_name,
                current_class_family,
                file_name,
                int_table,
                str_table,
            ) {
                Ok(e) => e,
                Err(err) => {
                    return Err(err);
                },
            };
            proof {
                lemma_fp_out_mono(*expr->init, init, cx, s1, str_table@);
            }
            if !type_decl.is_self_type() && !is_known(&type_decl, classes, current_class_name) {
                return Err(
                    SemantError::with_names2(
                        ErrorKind::LetTypeUndefined,
                        file_name,
                        line_no,
                        type_decl.as_str(),
                        identifier.as_str(),
                    ),
                );
            }
            Ok(
                Expression::Let {
                    line_no,
                    identifier,
                    type_decl,
                    init: Box::new(init),
                    body: Box::new(body),
                },
            )
        },
        Expression::ArithOp { line_no, expr_lhs, expr_rhs, arith_op_type } => {
            let expr_lhs = match first_pass_expr(
                *expr_lhs,
                classes,
                current_class_name,
                current_class_family,
                file_name,
                int_table,
                str_table,
            ) {
                Ok(e) => e,
                Err(err) => {
                    return Err(err);
                },
            };
            let ghost s1 = str_table@;
            let expr_rhs = match first_pass_expr(
                *expr_rhs,
                classes,
                current_class_name,
                current_class_family,
                file_name,
                int_table,
                str_table,
            ) {
                Ok(e) => e,
                Err(err) => {
                    return Err(err);
                },
            };
            proof {
                lemma_fp_out_mono(*expr->ArithOp_expr_lhs, expr_lhs, cx, s1, str_table@);
            }
            Ok(Expression::ArithOp { line_no, expr_lhs: Box::new(expr_lhs), expr_rhs: Box::new(expr_rhs), arith_op_type })
        },
        Expression::Neg { line_no, expr: inner } => {
            let inner = match first_pass_expr(
                *inner,
                classes,
                current_class_name,
                current_class_family,
                file_name,
                int_table,
                str_table,
            ) {
                Ok(e) => e,
                Err(err) => {
                    return Err(err);
                },
            };
            Ok(Expression::Neg { line_no, expr: Box::new(inner) })
        },
        Expression::Comp { line_no, expr_lhs, expr_rhs, comp_type } => {
            let expr_lhs = match first_pass_expr(
                *expr_lhs,
                classes,
                current_class_name,
                current_class_family,
                file_name,
                int_table,
                str_table,
            ) {
                Ok(e) => e,
                Err(err) => {
                    return Err(err);
                },
            };
            let ghost s1 = str_table@;
            let expr_rhs = match first_pass_expr(
                *expr_rhs,
                classes,
                current_class_name,
                current_class_family,
                file_name,
                int_table,
                str_table,
            ) {
                Ok(e) => e,
                Err(err) => {
                    return Err(err);
                },
            };
            proof {
                lemma_fp_out_mono(*expr->Comp_expr_lhs, expr_lhs, cx, s1, str_table@);
            }
            Ok(Expression::Comp { line_no, expr_lhs: Box::new(expr_lhs), expr_rhs: Box::new(expr_rhs), comp_type })
        },
        Expression::Eq { line_no, expr_lhs, expr_rhs } => {
            let expr_lhs = match first_pass_expr(
                *expr_lhs,
                classes,
                current_class_name,
                current_class_family,
                file_name,
                int_table,
                str_table,
            ) {
                Ok(e) => e,
                Err(err) => {
                    return Err(err);
                },
            };
            let ghost s1 = str_table@;
            let expr_rhs = match first_pass_expr(
                *expr_rhs,
                classes,
                current_class_name,
                current_class_family,
                file_name,
                int_table,
                str_table,
            ) {
                Ok(e) => e,
                Err(err) => {
                    return Err(err);
                },
            };
            proof {
                lemma_fp_out_mono(*expr->Eq_expr_lhs, expr_lhs, cx, s1, str_table@);
            }
            Ok(Expression::Eq { line_no, expr_lhs: Box::new(expr_lhs), expr_rhs: Box::new(expr_rhs) })
        },
        Expression::Not { line_no, expr: inner } => {
            let inner = match first_pass_expr(
                *inner,
                classes,
                current_class_name,
                current_class_family,
                file_name,
                int_table,
                str_table,
            ) {
                Ok(e) => e,
                Err(err) => {
                    return Err(err);
                },
            };
            Ok(Expression::Not { line_no, expr: Box::new(inner) })
        },
        Expression::IntConst { line_no, val } => {
            int_table.insert(val);
            Ok(Expression::IntConst { line_no, val })
        },
        Expression::BoolConst { line_no, val } => Ok(Expression::BoolConst { line_no, val }),
        Expression::StringConst { line_no, val, val_id } => {
            let id: usize = match str_table.index_of(val.as_str()) {
                Some(i) => i,
                None => {
                    let len = val.as_str().len();
                    int_table.insert(#[verifier::truncate] (len as u32));
                    let at = str_table.len();
                    str_table.insert(val.clone());
                    at
                },
            };
            proof {
                crate::name_table::lemma_position_of(str_table@, id as int);
            }
            Ok(Expression::StringConst { line_no, val, val_id: #[verifier::truncate] (id as u32) })
        },
        Expression::New { line_no, type_id } => {
            if !type_id.is_self_type() && !is_known(&type_id, classes, current_class_name) {
                return Err(
                    SemantError::with_name(
                        ErrorKind::NewUndefined,
                        file_name,
                        line_no,
                        type_id.as_str(),
                    ),
                );
            }
            Ok(Expression::New { line_no, type_id })
        },
        Expression::IsVoid { line_no, expr: inner } => {
            let inner = match first_pass_expr(
                *inner,
                classes,
                current_class_name,
                current_class_family,
                file_name,
                int_table,
                str_table,
            ) {
                Ok(e) => e,
                Err(err) => {
                    return Err(err);
                },
            };
            Ok(Expression::IsVoid { line_no, expr: Box::new(inner) })
        },
        Expression::NoExpr => Ok(Expression::NoExpr),
        Expression::Object { line_no, name, static_type } => Ok(
            Expression::Object { line_no, name, static_type },
        ),
    }
}

} // verus!
