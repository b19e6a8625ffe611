//! What the second pass checks in a class, and the order in which it takes
//! the classes, stated as functions of the class table.

use crate::ast::{Attr, Class, Formal, Method, TypeID};
use crate::error::{ErrorKind, ErrorView};
use crate::name_table::NameMap;
use crate::semant::build_inheritiance_tree::parents_of;
use crate::semant::first_pass::layout::{class_with_tag, Slot};
use crate::semant::second_pass::rules::{bad, fits, sp_check, sp_out, Env, TypeScope};
use std::ops::Range;
use vstd::prelude::*;

verus! {

/// The environment with the first `n` attributes in sight, each at its
/// declared type.
pub open spec fn attrs_env(env: Env, attrs: Seq<Attr>, n: int) -> Env
    decreases n,
{
    if n <= 0 {
        env
    } else {
        attrs_env(env, attrs, n - 1).insert(attrs[n - 1].name@, attrs[n - 1].type_decl@)
    }
}

/// The environment with the first `n` formals in sight, each at its
/// declared type.
pub open spec fn formals_env(env: Env, formals: Seq<Formal>, n: int) -> Env
    decreases n,
{
    if n <= 0 {
        env
    } else {
        formals_env(env, formals, n - 1).insert(formals[n - 1].name@, formals[n - 1].type_decl@)
    }
}

/// The environment in the body of a method.
pub open spec fn method_env(env: Env, m: Method) -> Env {
    formals_env(env, m.formals@, m.formals.len() as int)
}

/// The first violation in an attribute: in its initializer, or that the
/// initializer does not conform to the declared type.
pub open spec fn sp_attr(a: Attr, cx: TypeScope, env: Env) -> Option<ErrorView> {
    match sp_check(a.init, cx, env) {
        Err(x) => Some(x),
        Ok(t) => if !fits(cx, t, a.type_decl@) {
            Some(
                bad(
                    ErrorKind::AttrInitNonConforming,
                    cx,
                    a.line_no,
                    seq![t, a.type_decl@, a.name@],
                ),
            )
        } else {
            None
        },
    }
}

/// The first violation in a method: in its body, or that the body does
/// not conform to the declared return type.
pub open spec fn sp_method(m: Method, name: Seq<char>, cx: TypeScope, env: Env) -> Option<
    ErrorView,
> {
    match sp_check(m.expr, cx, method_env(env, m)) {
        Err(x) => Some(x),
        Ok(t) => if !fits(cx, t, m.return_type@) {
            Some(
                bad(
                    ErrorKind::ReturnNonConforming,
                    cx,
                    m.line_no,
                    seq![t, name, m.return_type@],
                ),
            )
        } else {
            None
        },
    }
}

/// The first violation in the attributes from position `i` on.
pub open spec fn sp_attrs(attrs: Seq<Attr>, i: int, cx: TypeScope, env: Env) -> Option<ErrorView>
    decreases attrs.len() - i,
{
    if 0 <= i < attrs.len() {
        match sp_attr(attrs[i], cx, env) {
            Some(x) => Some(x),
            None => sp_attrs(attrs, i + 1, cx, env),
        }
    } else {
        None
    }
}

/// The first violation in the methods from position `i` on.
pub open spec fn sp_methods(
    names: Seq<Seq<char>>,
    ms: Seq<Method>,
    i: int,
    cx: TypeScope,
    env: Env,
) -> Option<ErrorView>
    decreases ms.len() - i,
{
    if 0 <= i < ms.len() {
        match sp_method(ms[i], names[i], cx, env) {
            Some(x) => Some(x),
            None => sp_methods(names, ms, i + 1, cx, env),
        }
    } else {
        None
    }
}

/// What the whole program gives the typing rules: the signatures of the
/// methods of every class, and the inheritance tree.
pub struct Program {
    pub sigs: NameMap<NameMap<Slot>>,
    pub parent_names: NameMap<TypeID>,
    pub families: NameMap<Range<u32>>,
}

/// The place of the expressions of class `c`.
pub open spec fn class_type_scope(t: &NameMap<Class>, c: int, pr: Program) -> TypeScope {
    TypeScope {
        current: t.keys()[c],
        file: t.values()[c].file_name@,
        sigs: pr.sigs,
        parent_names: pr.parent_names,
        families: pr.families,
    }
}

/// The attributes in sight in class `c`: those of its ancestors, as the
/// pass has recorded them for its parent, and its own.
pub open spec fn class_env(t: &NameMap<Class>, c: int, envs: Seq<Env>) -> Env {
    let base = match parents_of(t)[c] {
        Some(p) => envs[p],
        None => Map::empty(),
    };
    attrs_env(base, t.values()[c].attrs@, t.values()[c].attrs.len() as int)
}

/// Types class `c`: its attributes, then its methods. Records the
/// attributes in sight in the class.
pub open spec fn sp_class(t: &NameMap<Class>, c: int, pr: Program, envs: Seq<Env>) -> Result<
    Seq<Env>,
    ErrorView,
> {
    let class = t.values()[c];
    let cx = class_type_scope(t, c, pr);
    let env = class_env(t, c, envs);
    match sp_attrs(class.attrs@, 0, cx, env) {
        Some(x) => Err(x),
        None => match sp_methods(class.methods.keys(), class.methods.values(), 0, cx, env) {
            Some(x) => Err(x),
            None => Ok(envs.update(c, env)),
        },
    }
}

/// Types the classes with the tags below `k`, in the order of their tags:
/// the order of the depth-first walk from the root class.
pub open spec fn sp_run(t: &NameMap<Class>, k: int, pr: Program) -> Result<Seq<Env>, ErrorView>
    decreases k,
{
    if k <= 0 {
        Ok(Seq::new(t.values().len(), |i: int| Map::empty()))
    } else {
        match sp_run(t, k - 1, pr) {
            Err(x) => Err(x),
            Ok(envs) => match class_with_tag(t, k - 1) {
                Some(c) => sp_class(t, c, pr, envs),
                None => Ok(envs),
            },
        }
    }
}

/// A violation ends the pass: the classes after it change nothing.
pub proof fn lemma_sp_run_stops(t: &NameMap<Class>, k: int, m: int, pr: Program)
    requires
        0 <= k <= m,
        sp_run(t, k, pr) is Err,
    ensures
        sp_run(t, m, pr) == sp_run(t, k, pr),
    decreases m - k,
{
    if k < m {
        lemma_sp_run_stops(t, k, m - 1, pr);
    }
}

/// Attribute `out` is attribute `a` with its initializer typed.
pub open spec fn sp_attr_out(a: Attr, out: Attr, cx: TypeScope, env: Env) -> bool {
    &&& out.line_no == a.line_no
    &&& out.name == a.name
    &&& out.type_decl == a.type_decl
    &&& out.self_offset == a.self_offset
    &&& sp_out(a.init, out.init, cx, env)
    &&& out.init.wf()
}

/// Method `out` is method `m` with its body typed.
pub open spec fn sp_method_out(m: Method, out: Method, cx: TypeScope, env: Env) -> bool {
    &&& out.line_no == m.line_no
    &&& out.formals == m.formals
    &&& out.return_type == m.return_type
    &&& sp_out(m.expr, out.expr, cx, method_env(env, m))
    &&& out.expr.wf()
}

/// Class `c` of table `out` is class `c` of table `t` with every
/// expression typed, the attributes of `env` in sight.
pub open spec fn sp_class_out(
    t: &NameMap<Class>,
    out: &NameMap<Class>,
    c: int,
    pr: Program,
    env: Env,
) -> bool {
    let a = t.values()[c];
    let b = out.values()[c];
    let cx = class_type_scope(t, c, pr);
    &&& b.file_name == a.file_name
    &&& b.file_no == a.file_no
    &&& b.basic == a.basic
    &&& b.line_no == a.line_no
    &&& b.parent_name == a.parent_name
    &&& b.family == a.family
    &&& b.child_names == a.child_names
    &&& b.method_name_to_pos == a.method_name_to_pos
    &&& b.dispatch_table == a.dispatch_table
    &&& b.attrs.len() == a.attrs.len()
    &&& forall|k: int|
        0 <= k < a.attrs.len() ==> sp_attr_out(a.attrs[k], #[trigger] b.attrs[k], cx, env)
    &&& b.methods.wf()
    &&& b.methods.keys() == a.methods.keys()
    &&& forall|k: int|
        0 <= k < a.methods.values().len() ==> sp_method_out(
            a.methods.values()[k],
            #[trigger] b.methods.values()[k],
            cx,
            env,
        )
}

/// Table `out` is table `t` with every expression typed.
pub open spec fn sp_pass_out(
    t: &NameMap<Class>,
    out: &NameMap<Class>,
    pr: Program,
    envs: Seq<Env>,
) -> bool {
    &&& out.wf()
    &&& out.keys() == t.keys()
    &&& forall|c: int|
        0 <= c < t.values().len() ==> #[trigger] sp_class_out(t, out, c, pr, envs[c])
}

} // verus!
