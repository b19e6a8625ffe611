//! The second pass over a method.

use crate::ast::{Method, ObjectID, TypeID};
use crate::error::{ErrorKind, SemantError};
use crate::name_table::NameMap;
use crate::semant::first_pass::layout::Slot;
use crate::scoped_collections::ScopedIndexMap;
use crate::semant::conformance::conforms;
use crate::semant::second_pass::class_rules::{formals_env, method_env, sp_method, sp_method_out};
use crate::semant::second_pass::rules::sigs_wf;
use crate::semant::second_pass::second_pass_expr::{
    env_of, lemma_bind_env, second_pass_expr, type_scope,
};
use std::ops::Range;
use vstd::prelude::*;

verus! {

/// The second pass over a method: types the body with the formals in
/// sight; the body must conform to the declared return type.
pub fn second_pass_method(
    method: Method,
    method_name: &ObjectID,
    current_class_name: &TypeID,
    file_name: &str,
    object_types: &mut ScopedIndexMap<TypeID>,
    method_sigs: &NameMap<NameMap<Slot>>,
    parent_names: &NameMap<TypeID>,
    families: &NameMap<Range<u32>>,
) -> (r: Result<Method, SemantError>)
    requires
        method.expr.wf(),
        old(object_types).wf(),
        sigs_wf(method_sigs),
        parent_names.wf(),
        families.wf(),
    ensures
        final(object_types).wf(),
        match r {
            Ok(out) => {
                &&& final(object_types).frames() == old(object_types).frames()
                &&& sp_method(method, method_name@, type_scope(current_class_name, file_name, method_sigs, parent_names, families), env_of(old(object_types))) is None
                &&& sp_method_out(method, out, type_scope(current_class_name, file_name, method_sigs, parent_names, families), env_of(old(object_types)))
            },
            Err(e) => sp_method(method, method_name@, type_scope(current_class_name, file_name, method_sigs, parent_names, families), env_of(old(object_types))) == Some(e@),
        },
{
    let ghost env = env_of(object_types);
    let ghost frames0 = object_types.frames();
    let Method { line_no, formals, return_type, expr } = method;
    object_types.enter_scope();
    proof {
        assert(env_of(object_types) =~= env);
    }
    let mut k: usize = 0;
    while k < formals.len()
        invariant
            object_types.wf(),
            k <= formals.len(),
            object_types.frames().len() == frames0.len() + 1,
            object_types.frames().drop_last() == frames0,
            env_of(object_types) == formals_env(env, formals@, k as int),
        decreases formals.len() - k,
    {
        let ghost before = *object_types;
        let bound = formals[k].type_decl.clone();
        object_types.insert(formals[k].name.as_str().to_string(), bound);
        proof {
            lemma_bind_env(&before, object_types, formals[k as int].name@, bound);
        }
        k += 1;
    }
    let expr = match second_pass_expr(
        expr,
        current_class_name,
        file_name,
        object_types,
        method_sigs,
        parent_names,
        families,
    ) {
        Ok(e) => e,
        Err(err) => {
            return Err(err);
        },
    };
    let t = expr.static_type();
    if !conforms(&t, &return_type, current_class_name, families) {
        return Err(
            SemantError::with_names3(
                ErrorKind::ReturnNonConforming,
                file_name,
                line_no,
                t.as_str(),
                method_name.as_str(),
                return_type.as_str(),
            ),
        );
    }
    object_types.exit_scope();
    Ok(Method { line_no, formals, return_type, expr })
}

} // verus!
