//! The second pass over one branch of a type-case.

use crate::ast::{Branch, TypeID};
use crate::semant::first_pass::layout::Slot;
use crate::error::{ErrorKind, SemantError};
use crate::name_table::NameMap;
use crate::scoped_collections::ScopedIndexMap;
use crate::semant::second_pass::rules::{sigs_wf, sp_check_branch, sp_out_branch};
use crate::semant::second_pass::second_pass_expr::{
    env_of, lemma_bind_env, second_pass_expr, type_scope,
};
use std::ops::Range;
use vstd::prelude::*;

verus! {

/// The second pass over a branch: the bound name must not be `self`, and
/// the body is typed with the bound name in sight, at its declared type.
pub fn second_pass_branch(
    branch: Branch,
    current_class_name: &TypeID,
    file_name: &str,
    object_types: &mut ScopedIndexMap<TypeID>,
    method_sigs: &NameMap<NameMap<Slot>>,
    parent_names: &NameMap<TypeID>,
    families: &NameMap<Range<u32>>,
) -> (r: Result<Branch, SemantError>)
    requires
        branch.expr.wf(),
        old(object_types).wf(),
        sigs_wf(method_sigs),
        parent_names.wf(),
        families.wf(),
    ensures
        final(object_types).wf(),
        match r {
            Ok(out) => {
                &&& final(object_types).frames() == old(object_types).frames()
                &&& sp_check_branch(branch, type_scope(current_class_name, file_name, method_sigs, parent_names, families), env_of(old(object_types))) is None
                &&& sp_out_branch(branch, out, type_scope(current_class_name, file_name, method_sigs, parent_names, families), env_of(old(object_types)))
                &&& out.expr.wf()
            },
            Err(e) => sp_check_branch(branch, type_scope(current_class_name, file_name, method_sigs, parent_names, families), env_of(old(object_types)))
                == Some(e@),
        },
    decreases branch,
{
    let ghost env = env_of(object_types);
    let Branch { line_no, name, type_decl, expr, family } = branch;
    if name.is_self() {
        return Err(SemantError::new(ErrorKind::CaseBindsSelf, file_name, line_no));
    }
    let ghost before = *object_types;
    let bound = type_decl.clone();
    object_types.bind(name.as_str().to_string(), bound);
    proof {
        lemma_bind_env(&before, object_types, name@, bound);
    }
    let expr = match second_pass_expr(
        expr,
        current_class_name,
        file_name,
        object_types,
        method_sigs,
        parent_names,
        families,
    ) {
        Ok(e) => e,
        Err(err) => {
            return Err(err);
        },
    };
    object_types.exit_scope();
    Ok(Branch { line_no, name, type_decl, expr, family })
}

} // verus!
