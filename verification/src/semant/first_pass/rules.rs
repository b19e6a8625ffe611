//! What the first pass checks in an expression and what it collects from
//! it, stated as functions of the expression.

use crate::ast::{Branch, Expression};
use crate::error::{ErrorKind, ErrorView};
use crate::name_table::position_of;
use std::ops::Range;
use vstd::prelude::*;

verus! {

/// The constants collected so far: the integers, and the texts of the
/// string constants, each once and in the order of its first occurrence.
pub struct Pools {
    pub ints: Seq<u32>,
    pub strs: Seq<Seq<char>>,
}

/// The length of a text in bytes, as a 32-bit number.
pub open spec fn text_len(s: Seq<char>) -> u32 {
    (vstd::utf8::encode_utf8(s).len() as usize) as u32
}

/// The integers with `v` among them.
pub open spec fn add_int(ints: Seq<u32>, v: u32) -> Seq<u32> {
    if ints.contains(v) {
        ints
    } else {
        ints.push(v)
    }
}

/// The pools with the text `s` among the strings. A new text comes last,
/// and its length joins the integers.
pub open spec fn add_str(p: Pools, s: Seq<char>) -> Pools {
    if p.strs.contains(s) {
        p
    } else {
        Pools { ints: add_int(p.ints, text_len(s)), strs: p.strs.push(s) }
    }
}

/// The number of the text `s` among the strings: its position.
pub open spec fn str_id(strs: Seq<Seq<char>>, s: Seq<char>) -> u32 {
    position_of(strs, s).unwrap() as u32
}

/// Where an expression stands: the classes of the program with their
/// families, the class that holds the expression, and the source file.
pub struct Scope {
    pub names: Seq<Seq<char>>,
    pub families: Seq<Range<u32>>,
    pub current: Seq<char>,
    pub current_family: Range<u32>,
    pub file: Seq<char>,
}

/// Whether `t` names the current class or a class of the program.
pub open spec fn known(cx: Scope, t: Seq<char>) -> bool {
    t == cx.current || cx.names.contains(t)
}

/// The family of the class `t`.
pub open spec fn family_of(cx: Scope, t: Seq<char>) -> Range<u32> {
    if t == cx.current {
        cx.current_family
    } else {
        cx.families[position_of(cx.names, t).unwrap()]
    }
}

/// A violation in the file of `cx`.
pub open spec fn fault(kind: ErrorKind, cx: Scope, line_no: i16, names: Seq<Seq<char>>) -> ErrorView {
    ErrorView { kind, file_name: cx.file, line_no, names }
}

/// Checks an expression and collects its constants: the pools after the
/// expression, or the first violation in the order of the walk.
pub open spec fn fp_check(e: Expression, cx: Scope, p: Pools) -> Result<Pools, ErrorView>
    decreases e, 0nat,
{
    match e {
        Expression::Assign { line_no, name, expr } => match fp_check(*expr, cx, p) {
            Err(x) => Err(x),
            Ok(pools1) => if name@ == "self"@ {
                Err(fault(ErrorKind::AssignToSelf, cx, line_no, seq![]))
            } else {
                Ok(pools1)
            },
        },
        Expression::Dispatch { line_no, expr, type_id, name, args, static_type } => match fp_check(
            *expr,
            cx,
            p,
        ) {
            Err(x) => Err(x),
            Ok(pools1) => match fp_check_list(args@, 0, cx, pools1) {
                Err(x) => Err(x),
                Ok(pools2) => match type_id {
                    Some(t) => if t@ == "SELF_TYPE"@ {
                        Err(fault(ErrorKind::StaticDispatchSelfType, cx, line_no, seq![]))
                    } else if !known(cx, t@) {
                        Err(fault(ErrorKind::StaticDispatchUndefined, cx, line_no, seq![t@]))
                    } else {
                        Ok(pools2)
                    },
                    None => Ok(pools2),
                },
            },
        },
        Expression::Cond { line_no, pred, then_expr, else_expr, static_type } => match fp_check(
            *pred,
            cx,
            p,
        ) {
            Err(x) => Err(x),
            Ok(pools1) => match fp_check(*then_expr, cx, pools1) {
                Err(x) => Err(x),
                Ok(pools2) => fp_check(*else_expr, cx, pools2),
            },
        },
        Expression::Loop { line_no, pred, body } => match fp_check(*pred, cx, p) {
            Err(x) => Err(x),
            Ok(pools1) => fp_check(*body, cx, pools1),
        },
        Expression::TypeCase { line_no, expr, branches, static_type } => match fp_check(
            *expr,
            cx,
            p,
        ) {
            Err(x) => Err(x),
            Ok(pools1) => fp_check_branches(branches@, 0, cx, pools1),
        },
        Expression::Block { line_no, body } => fp_check_list(body@, 0, cx, p),
        Expression::Let { line_no, identifier, type_decl, init, body } => if identifier@
            == "self"@ {
            Err(fault(ErrorKind::LetBindsSelf, cx, line_no, seq![]))
        } else {
            match fp_check(*init, cx, p) {
                Err(x) => Err(x),
                Ok(pools1) => match fp_check(*body, cx, pools1) {
                    Err(x) => Err(x),
                    Ok(pools2) => if type_decl@ != "SELF_TYPE"@ && !known(cx, type_decl@) {
                        Err(
                            fault(
                                ErrorKind::LetTypeUndefined,
                                cx,
                                line_no,
                                seq![type_decl@, identifier@],
                            ),
                        )
                    } else {
                        Ok(pools2)
                    },
                },
            }
        },
        Expression::ArithOp { line_no, expr_lhs, expr_rhs, arith_op_type } => match fp_check(
            *expr_lhs,
            cx,
            p,
        ) {
            Err(x) => Err(x),
            Ok(pools1) => fp_check(*expr_rhs, cx, pools1),
        },
        Expression::Neg { line_no, expr } => fp_check(*expr, cx, p),
        Expression::Comp { line_no, expr_lhs, expr_rhs, comp_type } => match fp_check(
            *expr_lhs,
            cx,
            p,
        ) {
            Err(x) => Err(x),
            Ok(pools1) => fp_check(*expr_rhs, cx, pools1),
        },
        Expression::Eq { line_no, expr_lhs, expr_rhs } => match fp_check(*expr_lhs, cx, p) {
            Err(x) => Err(x),
            Ok(pools1) => fp_check(*expr_rhs, cx, pools1),
        },
        Expression::Not { line_no, expr } => fp_check(*expr, cx, p),
        Expression::IntConst { line_no, val } => Ok(Pools { ints: add_int(p.ints, val), strs: p.strs }),
        Expression::BoolConst { line_no, val } => Ok(p),
        Expression::StringConst { line_no, val, val_id } => Ok(add_str(p, val@)),
        Expression::New { line_no, type_id } => if type_id@ != "SELF_TYPE"@ && !known(
            cx,
            type_id@,
        ) {
            Err(fault(ErrorKind::NewUndefined, cx, line_no, seq![type_id@]))
        } else {
            Ok(p)
        },
        Expression::IsVoid { line_no, expr } => fp_check(*expr, cx, p),
        Expression::NoExpr => Ok(p),
        Expression::Object { line_no, name, static_type } => Ok(p),
    }
}

/// Checks the expressions of a list from position `i` on, in order.
pub open spec fn fp_check_list(es: Seq<Expression>, i: int, cx: Scope, p: Pools) -> Result<
    Pools,
    ErrorView,
>
    decreases es, es.len() - i,
{
    if 0 <= i < es.len() {
        match fp_check(es[i], cx, p) {
            Err(x) => Err(x),
            Ok(pools1) => fp_check_list(es, i + 1, cx, pools1),
        }
    } else {
        Ok(p)
    }
}

/// Whether a branch before position `i` declares the type `t`.
pub open spec fn declared_before(bs: Seq<Branch>, i: int, t: Seq<char>) -> bool {
    exists|j: int| 0 <= j < i && j < bs.len() && (#[trigger] bs[j]).type_decl@ == t
}

/// What is wrong with the branch itself: it binds `self`, its type is no
/// class, or a branch before it declares the same type.
pub open spec fn branch_fault(bs: Seq<Branch>, i: int, cx: Scope) -> Option<ErrorView> {
    if bs[i].name@ == "self"@ {
        Some(fault(ErrorKind::CaseBindsSelf, cx, bs[i].line_no, seq![]))
    } else if !known(cx, bs[i].type_decl@) {
        Some(fault(ErrorKind::BranchTypeUndefined, cx, bs[i].line_no, seq![bs[i].type_decl@]))
    } else if declared_before(bs, i, bs[i].type_decl@) {
        Some(fault(ErrorKind::DuplicateBranch, cx, bs[i].line_no, seq![bs[i].type_decl@]))
    } else {
        None
    }
}

/// Checks the branches of a type-case from position `i` on, in order: the
/// body of a branch first, then the branch itself.
pub open spec fn fp_check_branches(bs: Seq<Branch>, i: int, cx: Scope, p: Pools) -> Result<
    Pools,
    ErrorView,
>
    decreases bs, bs.len() - i,
{
    if 0 <= i < bs.len() {
        match fp_check(bs[i].expr, cx, p) {
            Err(x) => Err(x),
            Ok(pools1) => match branch_fault(bs, i, cx) {
                Some(x) => Err(x),
                None => fp_check_branches(bs, i + 1, cx, pools1),
            },
        }
    } else {
        Ok(p)
    }
}

/// The branches stand in falling order of the first tag of their families.
pub open spec fn most_derived_first(bs: Seq<Branch>) -> bool {
    forall|i: int, j: int|
        0 <= i < j < bs.len() ==> (#[trigger] bs[i]).family.start >= (#[trigger] bs[j]).family.start
}

/// Branch `out` is branch `b` after the first pass: its body is passed and
/// its family is that of its declared class.
pub open spec fn fp_out_branch(b: Branch, out: Branch, cx: Scope, strs: Seq<Seq<char>>) -> bool
    decreases b, 1nat,
{
    &&& out.line_no == b.line_no
    &&& out.name == b.name
    &&& out.type_decl == b.type_decl
    &&& out.family == family_of(cx, b.type_decl@)
    &&& fp_out(b.expr, out.expr, cx, strs)
}

/// Expression `out` is expression `e` after the first pass: every string
/// constant has its number, which is its position in `strs`, and the
/// branches of every type-case have their families and stand with the most
/// derived class first.
pub open spec fn fp_out(e: Expression, out: Expression, cx: Scope, strs: Seq<Seq<char>>) -> bool
    decreases e, 0nat,
{
    match e {
        Expression::Assign { line_no, name, expr } => {
            &&& out matches Expression::Assign { line_no: l2, name: n2, expr: e2 }
            &&& l2 == line_no
            &&& n2 == name
            &&& fp_out(*expr, *e2, cx, strs)
        },
        Expression::Dispatch { line_no, expr, type_id, name, args, static_type } => {
            &&& out matches Expression::Dispatch {
                line_no: l2,
                expr: e2,
                type_id: t2,
                name: n2,
                args: a2,
                static_type: s2,
            }
            &&& l2 == line_no
            &&& t2 == type_id
            &&& n2 == name
            &&& s2 == static_type
            &&& fp_out(*expr, *e2, cx, strs)
            &&& a2.len() == args.len()
            &&& forall|k: int| 0 <= k < args.len() ==> fp_out(args[k], #[trigger] a2[k], cx, strs)
        },
        Expression::Cond { line_no, pred, then_expr, else_expr, static_type } => {
            &&& out matches Expression::Cond {
                line_no: l2,
                pred: c2,
                then_expr: t2,
                else_expr: e2,
                static_type: s2,
            }
            &&& l2 == line_no
            &&& s2 == static_type
            &&& fp_out(*pred, *c2, cx, strs)
            &&& fp_out(*then_expr, *t2, cx, strs)
            &&& fp_out(*else_expr, *e2, cx, strs)
        },
        Expression::Loop { line_no, pred, body } => {
            &&& out matches Expression::Loop { line_no: l2, pred: c2, body: b2 }
            &&& l2 == line_no
            &&& fp_out(*pred, *c2, cx, strs)
            &&& fp_out(*body, *b2, cx, strs)
        },
        Expression::TypeCase { line_no, expr, branches, static_type } => {
            &&& out matches Expression::TypeCase {
                line_no: l2,
                expr: e2,
                branches: b2,
                static_type: s2,
            }
            &&& l2 == line_no
            &&& s2 == static_type
            &&& fp_out(*expr, *e2, cx, strs)
            &&& most_derived_first(b2@)
            &&& exists|mid: Seq<Branch>|
                {
                    &&& mid.len() == branches.len()
                    &&& #[trigger] mid.to_multiset() == b2@.to_multiset()
                    &&& forall|k: int|
                        0 <= k < branches.len() ==> fp_out_branch(
                            branches[k],
                            #[trigger] mid[k],
                            cx,
                            strs,
                        )
                }
        },
        Expression::Block { line_no, body } => {
            &&& out matches Expression::Block { line_no: l2, body: b2 }
            &&& l2 == line_no
            &&& b2.len() == body.len()
            &&& forall|k: int| 0 <= k < body.len() ==> fp_out(body[k], #[trigger] b2[k], cx, strs)
        },
        Expression::Let { line_no, identifier, type_decl, init, body } => {
            &&& out matches Expression::Let {
                line_no: l2,
                identifier: i2,
                type_decl: t2,
                init: n2,
                body: b2,
            }
            &&& l2 == line_no
            &&& i2 == identifier
            &&& t2 == type_decl
            &&& fp_out(*init, *n2, cx, strs)
            &&& fp_out(*body, *b2, cx, strs)
        },
        Expression::ArithOp { line_no, expr_lhs, expr_rhs, arith_op_type } => {
            &&& out matches Expression::ArithOp {
                line_no: l2,
                expr_lhs: a2,
                expr_rhs: b2,
                arith_op_type: o2,
            }
            &&& l2 == line_no
            &&& o2 == arith_op_type
            &&& fp_out(*expr_lhs, *a2, cx, strs)
            &&& fp_out(*expr_rhs, *b2, cx, strs)
        },
        Expression::Neg { line_no, expr } => {
            &&& out matches Expression::Neg { line_no: l2, expr: e2 }
            &&& l2 == line_no
            &&& fp_out(*expr, *e2, cx, strs)
        },
        Expression::Comp { line_no, expr_lhs, expr_rhs, comp_type } => {
            &&& out matches Expression::Comp {
                line_no: l2,
                expr_lhs: a2,
                expr_rhs: b2,
                comp_type: o2,
            }
            &&& l2 == line_no
            &&& o2 == comp_type
            &&& fp_out(*expr_lhs, *a2, cx, strs)
            &&& fp_out(*expr_rhs, *b2, cx, strs)
        },
        Expression::Eq { line_no, expr_lhs, expr_rhs } => {
            &&& out matches Expression::Eq { line_no: l2, expr_lhs: a2, expr_rhs: b2 }
            &&& l2 == line_no
            &&& fp_out(*expr_lhs, *a2, cx, strs)
            &&& fp_out(*expr_rhs, *b2, cx, strs)
        },
        Expression::Not { line_no, expr } => {
            &&& out matches Expression::Not { line_no: l2, expr: e2 }
            &&& l2 == line_no
            &&& fp_out(*expr, *e2, cx, strs)
        },
        Expression::IntConst { line_no, val } => out == e,
        Expression::BoolConst { line_no, val } => out == e,
        Expression::StringConst { line_no, val, val_id } => {
            &&& out matches Expression::StringConst { line_no: l2, val: v2, val_id: id2 }
            &&& l2 == line_no
            &&& v2 == val
            &&& strs.contains(val@)
            &&& id2 == str_id(strs, val@)
        },
        Expression::New { line_no, type_id } => out == e,
        Expression::IsVoid { line_no, expr } => {
            &&& out matches Expression::IsVoid { line_no: l2, expr: e2 }
            &&& l2 == line_no
            &&& fp_out(*expr, *e2, cx, strs)
        },
        Expression::NoExpr => out == e,
        Expression::Object { line_no, name, static_type } => out == e,
    }
}

/// List `a` is the beginning of list `b`.
pub open spec fn is_prefix<T>(a: Seq<T>, b: Seq<T>) -> bool {
    &&& a.len() <= b.len()
    &&& forall|i: int| 0 <= i < a.len() ==> a[i] == b[i]
}

/// A text keeps its number when more texts follow.
pub proof fn lemma_str_id_stable(s1: Seq<Seq<char>>, s2: Seq<Seq<char>>, t: Seq<char>)
    requires
        is_prefix(s1, s2),
        s2.no_duplicates(),
        s1.contains(t),
    ensures
        s2.contains(t),
        str_id(s2, t) == str_id(s1, t),
{
    let i = choose|i: int| 0 <= i < s1.len() && s1[i] == t;
    assert(s2[i] == t);
    let j1 = position_of(s1, t).unwrap();
    let j2 = position_of(s2, t).unwrap();
    assert(s2[j1] == t);
}

/// What holds of a passed expression with the strings of the moment holds
/// with every later list of strings.
pub proof fn lemma_fp_out_mono(
    e: Expression,
    out: Expression,
    cx: Scope,
    s1: Seq<Seq<char>>,
    s2: Seq<Seq<char>>,
)
    requires
        fp_out(e, out, cx, s1),
        is_prefix(s1, s2),
        s2.no_duplicates(),
    ensures
        fp_out(e, out, cx, s2),
    decreases e,
{
    match e {
        Expression::Assign { line_no, name, expr } => {
            lemma_fp_out_mono(*expr, *out->Assign_expr, cx, s1, s2);
        },
        Expression::Dispatch { line_no, expr, type_id, name, args, static_type } => {
            lemma_fp_out_mono(*expr, *out->Dispatch_expr, cx, s1, s2);
            let a2 = out->args;
            assert forall|k: int| 0 <= k < args.len() implies fp_out(args[k], #[trigger] a2[k], cx, s2) by {
                assert(decreases_to!(e => e->args));
                assert(decreases_to!(e->args => (e->args)[k]));
                lemma_fp_out_mono(args[k], a2[k], cx, s1, s2);
            }
        },
        Expression::Cond { line_no, pred, then_expr, else_expr, static_type } => {
            lemma_fp_out_mono(*pred, *out->Cond_pred, cx, s1, s2);
            lemma_fp_out_mono(*then_expr, *out->then_expr, cx, s1, s2);
            lemma_fp_out_mono(*else_expr, *out->else_expr, cx, s1, s2);
        },
        Expression::Loop { line_no, pred, body } => {
            lemma_fp_out_mono(*pred, *out->Loop_pred, cx, s1, s2);
            lemma_fp_out_mono(*body, *out->Loop_body, cx, s1, s2);
        },
        Expression::TypeCase { line_no, expr, branches, static_type } => {
            lemma_fp_out_mono(*expr, *out->TypeCase_expr, cx, s1, s2);
            let b2 = out->branches;
            let mid = choose|mid: Seq<Branch>|
                {
                    &&& mid.len() == branches.len()
                    &&& #[trigger] mid.to_multiset() == b2@.to_multiset()
                    &&& forall|k: int|
                        0 <= k < branches.len() ==> fp_out_branch(
                            branches[k],
                            #[trigger] mid[k],
                            cx,
                            s1,
                        )
                };
            assert forall|k: int| 0 <= k < branches.len() implies fp_out_branch(
                branches[k],
                #[trigger] mid[k],
                cx,
                s2,
            ) by {
                assert(fp_out_branch(branches[k], mid[k], cx, s1));
                assert(decreases_to!(e => e->branches));
                assert(decreases_to!(e->branches => (e->branches)[k]));
                assert(decreases_to!((e->branches)[k] => (e->branches)[k].expr));
                lemma_fp_out_mono(branches[k].expr, mid[k].expr, cx, s1, s2);
            }
        },
        Expression::Block { line_no, body } => {
            let b2 = out->Block_body;
            assert forall|k: int| 0 <= k < body.len() implies fp_out(body[k], #[trigger] b2[k], cx, s2) by {
                assert(decreases_to!(e => e->Block_body));
                assert(decreases_to!(e->Block_body => (e->Block_body)[k]));
                lemma_fp_out_mono(body[k], b2[k], cx, s1, s2);
            }
        },
        Expression::Let { line_no, identifier, type_decl, init, body } => {
            lemma_fp_out_mono(*init, *out->init, cx, s1, s2);
            lemma_fp_out_mono(*body, *out->Let_body, cx, s1, s2);
        },
        Expression::ArithOp { line_no, expr_lhs, expr_rhs, arith_op_type } => {
            lemma_fp_out_mono(*expr_lhs, *out->ArithOp_expr_lhs, cx, s1, s2);
            lemma_fp_out_mono(*expr_rhs, *out->ArithOp_expr_rhs, cx, s1, s2);
        },
        Expression::Neg { line_no, expr } => {
            lemma_fp_out_mono(*expr, *out->Neg_expr, cx, s1, s2);
        },
        Expression::Comp { line_no, expr_lhs, expr_rhs, comp_type } => {
            lemma_fp_out_mono(*expr_lhs, *out->Comp_expr_lhs, cx, s1, s2);
            lemma_fp_out_mono(*expr_rhs, *out->Comp_expr_rhs, cx, s1, s2);
        },
        Expression::Eq { line_no, expr_lhs, expr_rhs } => {
            lemma_fp_out_mono(*expr_lhs, *out->Eq_expr_lhs, cx, s1, s2);
            lemma_fp_out_mono(*expr_rhs, *out->Eq_expr_rhs, cx, s1, s2);
        },
        Expression::Not { line_no, expr } => {
            lemma_fp_out_mono(*expr, *out->Not_expr, cx, s1, s2);
        },
        Expression::StringConst { line_no, val, val_id } => {
            lemma_str_id_stable(s1, s2, val@);
        },
        Expression::IsVoid { line_no, expr } => {
            lemma_fp_out_mono(*expr, *out->IsVoid_expr, cx, s1, s2);
        },
        _ => {},
    }
}

} // verus!
