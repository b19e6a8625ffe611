//! The typing rules: the static type of an expression, or the first
//! violation in it, stated as functions of the expression.

use crate::ast::{ArithOpType, Branch, CompType, Expression, TypeID};
use crate::semant::first_pass::layout::Slot;
use crate::error::{ErrorKind, ErrorView};
use crate::name_table::NameMap;
use crate::semant::conformance::{spec_conforms, spec_least_upper_bound};
use crate::semant::first_pass::rules::{declared_before, most_derived_first};
use std::ops::Range;
use vstd::prelude::*;

verus! {

/// Where an expression is typed: the class that holds it, its source file,
/// the slots of every class, which hold the signatures of its methods, and
/// the inheritance tree.
pub struct TypeScope {
    pub current: Seq<char>,
    pub file: Seq<char>,
    pub sigs: NameMap<NameMap<Slot>>,
    pub parent_names: NameMap<TypeID>,
    pub families: NameMap<Range<u32>>,
}

/// The declared types of the identifiers in sight.
pub type Env = Map<Seq<char>, Seq<char>>;

/// A violation in the file of `cx`.
pub open spec fn bad(kind: ErrorKind, cx: TypeScope, line_no: i16, names: Seq<Seq<char>>) -> ErrorView {
    ErrorView { kind, file_name: cx.file, line_no, names }
}

/// Whether type `a` conforms to type `b` in `cx`.
pub open spec fn fits(cx: TypeScope, a: Seq<char>, b: Seq<char>) -> bool {
    spec_conforms(a, b, cx.current, &cx.families)
}

/// The least type that `a` and `b` conform to in `cx`.
pub open spec fn join(cx: TypeScope, a: Seq<char>, b: Seq<char>) -> Seq<char> {
    spec_least_upper_bound(a, b, cx.current, &cx.parent_names, &cx.families)
}

/// Whether `t` names a class in sight: the current class or a class of the
/// tree.
pub open spec fn in_sight(cx: TypeScope, t: Seq<char>) -> bool {
    t == cx.current || cx.families.contains_name(t)
}

/// The signature of method `name` in class `class`.
pub open spec fn sig_of(cx: TypeScope, class: Seq<char>, name: Seq<char>) -> Option<Slot> {
    if cx.sigs.contains_name(class) && cx.sigs.value_of(class).contains_name(name) {
        Some(cx.sigs.value_of(class).value_of(name))
    } else {
        None
    }
}

/// The arithmetic operator as text.
pub open spec fn arith_symbol(op: ArithOpType) -> Seq<char> {
    match op {
        ArithOpType::Add => "+"@,
        ArithOpType::Sub => "-"@,
        ArithOpType::Mul => "*"@,
        ArithOpType::Div => "/"@,
    }
}

/// The relational operator as text.
pub open spec fn comp_symbol(op: CompType) -> Seq<char> {
    match op {
        CompType::LT => "<"@,
        CompType::LEq => "<="@,
    }
}

/// Whether `t` is one of the types that are compared by value.
pub open spec fn is_basic(t: Seq<char>) -> bool {
    t == "Int"@ || t == "String"@ || t == "Bool"@
}

/// The class in which a dispatch on a receiver of type `t` looks for the
/// method.
pub open spec fn receiver_class(cx: TypeScope, t: Seq<char>) -> Seq<char> {
    if t == "SELF_TYPE"@ {
        cx.current
    } else {
        t
    }
}

/// The first argument that does not conform to its formal.
pub open spec fn first_bad_arg(cx: TypeScope, args: Seq<Seq<char>>, sig: Slot, k: int) -> Option<
    int,
>
    decreases args.len() - k,
{
    if 0 <= k < args.len() && k < sig.formal_types.len() {
        if !fits(cx, args[k], sig.formal_types[k]@) {
            Some(k)
        } else {
            first_bad_arg(cx, args, sig, k + 1)
        }
    } else {
        None
    }
}

/// The type of a dispatch of method `name` on a receiver of type `t0`,
/// statically on class `qualifier` where one is given, with arguments of
/// the types `args`.
pub open spec fn dispatch_type(
    cx: TypeScope,
    line_no: i16,
    t0: Seq<char>,
    qualifier: Option<Seq<char>>,
    name: Seq<char>,
    args: Seq<Seq<char>>,
) -> Result<Seq<char>, ErrorView> {
    let class = match qualifier {
        Some(q) => q,
        None => receiver_class(cx, t0),
    };
    match sig_of(cx, class, name) {
        None => Err(bad(ErrorKind::DispatchUndefined, cx, line_no, seq![name])),
        Some(sig) => if args.len() != sig.formal_types.len() {
            Err(bad(ErrorKind::DispatchArity, cx, line_no, seq![name]))
        } else {
            match first_bad_arg(cx, args, sig, 0) {
                Some(k) => Err(
                    bad(
                        ErrorKind::ArgumentNonConforming,
                        cx,
                        line_no,
                        seq![name, args[k], sig.formal_types[k]@],
                    ),
                ),
                None => Ok(
                    if sig.return_type@ == "SELF_TYPE"@ && t0 != "SELF_TYPE"@ {
                        t0
                    } else {
                        sig.return_type@
                    },
                ),
            }
        },
    }
}

/// The static type of an expression where the identifiers have the types
/// of `env`, or the first violation in the order of the walk.
pub open spec fn sp_check(e: Expression, cx: TypeScope, env: Env) -> Result<Seq<char>, ErrorView>
    decreases e, 0nat,
{
    match e {
        Expression::Assign { line_no, name, expr } => match sp_check(*expr, cx, env) {
            Err(x) => Err(x),
            Ok(t) => if name@ == "self"@ {
                Err(bad(ErrorKind::AssignToSelf, cx, line_no, seq![]))
            } else if !env.contains_key(name@) {
                Err(bad(ErrorKind::AssignUndeclared, cx, line_no, seq![name@]))
            } else if !fits(cx, t, env[name@]) {
                Err(bad(ErrorKind::AssignNonConforming, cx, line_no, seq![t, env[name@], name@]))
            } else {
                Ok(t)
            },
        },
        Expression::Dispatch { line_no, expr, type_id, name, args, static_type } => match sp_check(
            *expr,
            cx,
            env,
        ) {
            Err(x) => Err(x),
            Ok(t0) => if type_id matches Some(q) && q@ == "SELF_TYPE"@ {
                Err(bad(ErrorKind::StaticDispatchSelfType, cx, line_no, seq![]))
            } else if type_id matches Some(q) && !in_sight(cx, q@) {
                Err(bad(ErrorKind::StaticDispatchUndefined, cx, line_no, seq![type_id.unwrap()@]))
            } else if type_id matches Some(q) && !fits(cx, t0, q@) {
                Err(
                    bad(
                        ErrorKind::StaticDispatchNonConforming,
                        cx,
                        line_no,
                        seq![t0, type_id.unwrap()@],
                    ),
                )
            } else {
                match sp_check_list(args@, 0, cx, env) {
                    Some(x) => Err(x),
                    None => dispatch_type(
                        cx,
                        line_no,
                        t0,
                        match type_id {
                            Some(q) => Some(q@),
                            None => None,
                        },
                        name@,
                        sp_types(args@, args.len() as int, cx, env),
                    ),
                }
            },
        },
        Expression::Cond { line_no, pred, then_expr, else_expr, static_type } => match sp_check(
            *pred,
            cx,
            env,
        ) {
            Err(x) => Err(x),
            Ok(tp) => if tp != "Bool"@ {
                Err(bad(ErrorKind::IfPredicateNotBool, cx, line_no, seq![]))
            } else {
                match sp_check(*then_expr, cx, env) {
                    Err(x) => Err(x),
                    Ok(tt) => match sp_check(*else_expr, cx, env) {
                        Err(x) => Err(x),
                        Ok(te) => Ok(join(cx, tt, te)),
                    },
                }
            },
        },
        Expression::Loop { line_no, pred, body } => match sp_check(*pred, cx, env) {
            Err(x) => Err(x),
            Ok(tp) => match sp_check(*body, cx, env) {
                Err(x) => Err(x),
                Ok(tb) => if tp != "Bool"@ {
                    Err(bad(ErrorKind::LoopPredicateNotBool, cx, line_no, seq![]))
                } else {
                    Ok("Object"@)
                },
            },
        },
        Expression::TypeCase { line_no, expr, branches, static_type } => match sp_check(
            *expr,
            cx,
            env,
        ) {
            Err(x) => Err(x),
            Ok(t0) => match sp_check_branches(branches@, 0, cx, env) {
                Some(x) => Err(x),
                None => Ok(
                    sp_case_type(
                        branches@,
                        branches.len() as nat,
                        cx,
                        env,
                    ),
                ),
            },
        },
        Expression::Block { line_no, body } => match sp_check_list(body@, 0, cx, env) {
            Some(x) => Err(x),
            None => if body.len() > 0 {
                Ok(sp_types(body@, body.len() as int, cx, env)[body.len() - 1])
            } else {
                Ok("Object"@)
            },
        },
        Expression::Let { line_no, identifier, type_decl, init, body } => if identifier@
            == "self"@ {
            Err(bad(ErrorKind::LetBindsSelf, cx, line_no, seq![]))
        } else if type_decl@ != "SELF_TYPE"@ && !in_sight(cx, type_decl@) {
            Err(bad(ErrorKind::LetTypeUndefined, cx, line_no, seq![type_decl@, identifier@]))
        } else {
            match sp_check(*init, cx, env) {
                Err(x) => Err(x),
                Ok(ti) => if !fits(cx, ti, type_decl@) {
                    Err(
                        bad(
                            ErrorKind::LetInitNonConforming,
                            cx,
                            line_no,
                            seq![ti, identifier@, type_decl@],
                        ),
                    )
                } else {
                    sp_check(*body, cx, env.insert(identifier@, type_decl@))
                },
            }
        },
        Expression::ArithOp { line_no, expr_lhs, expr_rhs, arith_op_type } => match sp_check(
            *expr_lhs,
            cx,
            env,
        ) {
            Err(x) => Err(x),
            Ok(tl) => match sp_check(*expr_rhs, cx, env) {
                Err(x) => Err(x),
                Ok(tr) => if tl != "Int"@ || tr != "Int"@ {
                    Err(
                        bad(
                            ErrorKind::ArithNonInt,
                            cx,
                            line_no,
                            seq![tl, arith_symbol(arith_op_type), tr],
                        ),
                    )
                } else {
                    Ok("Int"@)
                },
            },
        },
        Expression::Neg { line_no, expr } => match sp_check(*expr, cx, env) {
            Err(x) => Err(x),
            Ok(t) => if t != "Int"@ {
                Err(bad(ErrorKind::NegNonInt, cx, line_no, seq![t]))
            } else {
                Ok("Int"@)
            },
        },
        Expression::Comp { line_no, expr_lhs, expr_rhs, comp_type } => match sp_check(
            *expr_lhs,
            cx,
            env,
        ) {
            Err(x) => Err(x),
            Ok(tl) => match sp_check(*expr_rhs, cx, env) {
                Err(x) => Err(x),
                Ok(tr) => if tl != "Int"@ || tr != "Int"@ {
                    Err(
                        bad(
                            ErrorKind::CompNonInt,
                            cx,
                            line_no,
                            seq![tl, comp_symbol(comp_type), tr],
                        ),
                    )
                } else {
                    Ok("Bool"@)
                },
            },
        },
        Expression::Eq { line_no, expr_lhs, expr_rhs } => match sp_check(*expr_lhs, cx, env) {
            Err(x) => Err(x),
            Ok(tl) => match sp_check(*expr_rhs, cx, env) {
                Err(x) => Err(x),
                Ok(tr) => if (is_basic(tl) || is_basic(tr)) && tl != tr {
                    Err(bad(ErrorKind::IllegalBasicComparison, cx, line_no, seq![]))
                } else {
                    Ok("Bool"@)
                },
            },
        },
        Expression::Not { line_no, expr } => match sp_check(*expr, cx, env) {
            Err(x) => Err(x),
            Ok(t) => if t != "Bool"@ {
                Err(bad(ErrorKind::NotNonBool, cx, line_no, seq![t]))
            } else {
                Ok("Bool"@)
            },
        },
        Expression::IntConst { line_no, val } => Ok("Int"@),
        Expression::BoolConst { line_no, val } => Ok("Bool"@),
        Expression::StringConst { line_no, val, val_id } => Ok("String"@),
        Expression::New { line_no, type_id } => Ok(type_id@),
        Expression::IsVoid { line_no, expr } => match sp_check(*expr, cx, env) {
            Err(x) => Err(x),
            Ok(t) => Ok("Bool"@),
        },
        Expression::NoExpr => Ok("_no_type"@),
        Expression::Object { line_no, name, static_type } => if name@ == "self"@ {
            Ok("SELF_TYPE"@)
        } else if env.contains_key(name@) {
            Ok(env[name@])
        } else {
            Err(bad(ErrorKind::UndeclaredIdentifier, cx, line_no, seq![name@]))
        },
    }
}

/// The first violation in the expressions of a list from position `i` on.
pub open spec fn sp_check_list(es: Seq<Expression>, i: int, cx: TypeScope, env: Env) -> Option<
    ErrorView,
>
    decreases es, es.len() - i,
{
    if 0 <= i < es.len() {
        match sp_check(es[i], cx, env) {
            Err(x) => Some(x),
            Ok(_) => sp_check_list(es, i + 1, cx, env),
        }
    } else {
        None
    }
}

/// The static types of the first `n` expressions of a list.
pub open spec fn sp_types(es: Seq<Expression>, n: int, cx: TypeScope, env: Env) -> Seq<Seq<char>>
    decreases es, n,
{
    if 0 < n <= es.len() {
        sp_types(es, n - 1, cx, env).push(
            match sp_check(es[n - 1], cx, env) {
                Ok(t) => t,
                Err(_) => Seq::empty(),
            },
        )
    } else {
        Seq::empty()
    }
}

/// The identifiers in sight in the body of a branch.
pub open spec fn branch_env(b: Branch, env: Env) -> Env {
    env.insert(b.name@, b.type_decl@)
}

/// The first violation in a branch of a type-case: it binds `self`, or
/// its body holds a violation where the bound name is in sight.
pub open spec fn sp_check_branch(b: Branch, cx: TypeScope, env: Env) -> Option<ErrorView>
    decreases b, 0nat,
{
    if b.name@ == "self"@ {
        Some(bad(ErrorKind::CaseBindsSelf, cx, b.line_no, seq![]))
    } else {
        match sp_check(b.expr, cx, branch_env(b, env)) {
            Err(x) => Some(x),
            Ok(_) => None,
        }
    }
}

/// The first violation in the branches of a type-case from position `i` on:
/// a branch declares the type of a branch before it, or holds a violation
/// itself.
pub open spec fn sp_check_branches(bs: Seq<Branch>, i: int, cx: TypeScope, env: Env) -> Option<
    ErrorView,
>
    decreases bs, bs.len() - i,
{
    if 0 <= i < bs.len() {
        if declared_before(bs, i, bs[i].type_decl@) {
            Some(bad(ErrorKind::DuplicateBranch, cx, bs[i].line_no, seq![bs[i].type_decl@]))
        } else {
            match sp_check_branch(bs[i], cx, env) {
                Some(x) => Some(x),
                None => sp_check_branches(bs, i + 1, cx, env),
            }
        }
    } else {
        None
    }
}

/// The static type of the body of the branch at position `i`.
pub open spec fn sp_branch_type(bs: Seq<Branch>, i: int, cx: TypeScope, env: Env) -> Seq<char>
    decreases bs, 0nat,
{
    if 0 <= i < bs.len() {
        match sp_check(bs[i].expr, cx, branch_env(bs[i], env)) {
            Ok(t) => t,
            Err(_) => Seq::empty(),
        }
    } else {
        Seq::empty()
    }
}

/// The type of a type-case after its first `n` branches: the least type
/// that the bodies of these branches all conform to, found by joining the
/// type of the first body with the type of each body in turn.
pub open spec fn sp_case_type(bs: Seq<Branch>, n: nat, cx: TypeScope, env: Env) -> Seq<char>
    decreases bs, n + 1,
{
    if 0 < n <= bs.len() {
        join(cx, sp_case_type(bs, (n - 1) as nat, cx, env), sp_branch_type(bs, n - 1, cx, env))
    } else {
        sp_branch_type(bs, 0, cx, env)
    }
}

/// Branch `out` is branch `b` with its body typed.
pub open spec fn sp_out_branch(b: Branch, out: Branch, cx: TypeScope, env: Env) -> bool
    decreases b, 1nat,
{
    &&& out.line_no == b.line_no
    &&& out.name == b.name
    &&& out.type_decl == b.type_decl
    &&& out.family == b.family
    &&& sp_out(b.expr, out.expr, cx, branch_env(b, env))
}

/// Expression `out` is expression `e` with the static type of every part
/// in its place, and with the branches of every type-case in falling order
/// of the first tag of their families, the most derived class first.
pub open spec fn sp_out(e: Expression, out: Expression, cx: TypeScope, env: Env) -> bool
    decreases e, 0nat,
{
    &&& sp_check(e, cx, env) == Ok::<Seq<char>, ErrorView>(out.spec_static_type())
    &&& match e {
        Expression::Assign { line_no, name, expr } => {
            &&& out matches Expression::Assign { line_no: l2, name: n2, expr: e2 }
            &&& l2 == line_no
            &&& n2 == name
            &&& sp_out(*expr, *e2, cx, env)
        },
        Expression::Dispatch { line_no, expr, type_id, name, args, static_type } => {
            &&& out matches Expression::Dispatch {
                line_no: l2,
                expr: e2,
                type_id: t2,
                name: n2,
                args: a2,
                static_type: s2,
            }
            &&& l2 == line_no
            &&& t2 == type_id
            &&& n2 == name
            &&& sp_out(*expr, *e2, cx, env)
            &&& a2.len() == args.len()
            &&& forall|k: int| 0 <= k < args.len() ==> sp_out(args[k], #[trigger] a2[k], cx, env)
        },
        Expression::Cond { line_no, pred, then_expr, else_expr, static_type } => {
            &&& out matches Expression::Cond {
                line_no: l2,
                pred: c2,
                then_expr: t2,
                else_expr: e2,
                static_type: s2,
            }
            &&& l2 == line_no
            &&& sp_out(*pred, *c2, cx, env)
            &&& sp_out(*then_expr, *t2, cx, env)
            &&& sp_out(*else_expr, *e2, cx, env)
        },
        Expression::Loop { line_no, pred, body } => {
            &&& out matches Expression::Loop { line_no: l2, pred: c2, body: b2 }
            &&& l2 == line_no
            &&& sp_out(*pred, *c2, cx, env)
            &&& sp_out(*body, *b2, cx, env)
        },
        Expression::TypeCase { line_no, expr, branches, static_type } => {
            &&& out matches Expression::TypeCase {
                line_no: l2,
                expr: e2,
                branches: b2,
                static_type: s2,
            }
            &&& l2 == line_no
            &&& sp_out(*expr, *e2, cx, env)
            &&& most_derived_first(b2@)
            &&& exists|mid: Seq<Branch>|
                {
                    &&& mid.len() == branches.len()
                    &&& #[trigger] mid.to_multiset() == b2@.to_multiset()
                    &&& forall|k: int|
                        0 <= k < branches.len() ==> sp_out_branch(
                            branches[k],
                            #[trigger] mid[k],
                            cx,
                            env,
                        )
                }
        },
        Expression::Block { line_no, body } => {
            &&& out matches Expression::Block { line_no: l2, body: b2 }
            &&& l2 == line_no
            &&& b2.len() == body.len()
            &&& forall|k: int| 0 <= k < body.len() ==> sp_out(body[k], #[trigger] b2[k], cx, env)
        },
        Expression::Let { line_no, identifier, type_decl, init, body } => {
            &&& out matches Expression::Let {
                line_no: l2,
                identifier: i2,
                type_decl: t2,
                init: n2,
                body: b2,
            }
            &&& l2 == line_no
            &&& i2 == identifier
            &&& t2 == type_decl
            &&& sp_out(*init, *n2, cx, env)
            &&& sp_out(*body, *b2, cx, env.insert(identifier@, type_decl@))
        },
        Expression::ArithOp { line_no, expr_lhs, expr_rhs, arith_op_type } => {
            &&& out matches Expression::ArithOp {
                line_no: l2,
                expr_lhs: a2,
                expr_rhs: b2,
                arith_op_type: o2,
            }
            &&& l2 == line_no
            &&& o2 == arith_op_type
            &&& sp_out(*expr_lhs, *a2, cx, env)
            &&& sp_out(*expr_rhs, *b2, cx, env)
        },
        Expression::Neg { line_no, expr } => {
            &&& out matches Expression::Neg { line_no: l2, expr: e2 }
            &&& l2 == line_no
            &&& sp_out(*expr, *e2, cx, env)
        },
        Expression::Comp { line_no, expr_lhs, expr_rhs, comp_type } => {
            &&& out matches Expression::Comp {
                line_no: l2,
                expr_lhs: a2,
                expr_rhs: b2,
                comp_type: o2,
            }
            &&& l2 == line_no
            &&& o2 == comp_type
            &&& sp_out(*expr_lhs, *a2, cx, env)
            &&& sp_out(*expr_rhs, *b2, cx, env)
        },
        Expression::Eq { line_no, expr_lhs, expr_rhs } => {
            &&& out matches Expression::Eq { line_no: l2, expr_lhs: a2, expr_rhs: b2 }
            &&& l2 == line_no
            &&& sp_out(*expr_lhs, *a2, cx, env)
            &&& sp_out(*expr_rhs, *b2, cx, env)
        },
        Expression::Not { line_no, expr } => {
            &&& out matches Expression::Not { line_no: l2, expr: e2 }
            &&& l2 == line_no
            &&& sp_out(*expr, *e2, cx, env)
        },
        Expression::IntConst { line_no, val } => out == e,
        Expression::BoolConst { line_no, val } => out == e,
        Expression::StringConst { line_no, val, val_id } => out == e,
        Expression::New { line_no, type_id } => out == e,
        Expression::IsVoid { line_no, expr } => {
            &&& out matches Expression::IsVoid { line_no: l2, expr: e2 }
            &&& l2 == line_no
            &&& sp_out(*expr, *e2, cx, env)
        },
        Expression::NoExpr => out == e,
        Expression::Object { line_no, name, static_type } => {
            &&& out matches Expression::Object { line_no: l2, name: n2, static_type: s2 }
            &&& l2 == line_no
            &&& n2 == name
        },
    }
}

/// The static types of a list, one by one.
pub proof fn lemma_sp_types(es: Seq<Expression>, n: int, cx: TypeScope, env: Env)
    requires
        0 <= n <= es.len(),
    ensures
        sp_types(es, n, cx, env).len() == n,
        forall|k: int|
            0 <= k < n ==> #[trigger] sp_types(es, n, cx, env)[k] == match sp_check(es[k], cx, env) {
                Ok(t) => t,
                Err(_) => Seq::empty(),
            },
    decreases n,
{
    if n > 0 {
        lemma_sp_types(es, n - 1, cx, env);
    }
}

/// The signatures of the methods are held in well-formed maps.
pub open spec fn sigs_wf(method_sigs: &NameMap<NameMap<Slot>>) -> bool {
    &&& method_sigs.wf()
    &&& forall|i: int|
        0 <= i < method_sigs.values().len() ==> (#[trigger] method_sigs.values()[i]).wf()
}

} // verus!
