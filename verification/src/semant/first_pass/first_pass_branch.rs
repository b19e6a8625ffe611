//! The first pass over one branch of a type-case.

use crate::ast::{Branch, Class, TypeID};
use crate::error::{ErrorKind, ErrorView, SemantError};
use crate::name_table::{IntSet, NameMap, NameSet};
use crate::semant::first_pass::first_pass_expr::{first_pass_expr, pools_of, scope_of};
use crate::semant::first_pass::rules::{fault, fp_check, fp_out_branch, is_prefix, known, Pools};
use std::ops::Range;
use vstd::prelude::*;

verus! {

/// The first pass over a branch: passes the body, refuses a branch that
/// binds `self`, and gives the branch the family of its declared class,
/// which must be a class of the program.
pub fn first_pass_branch(
    branch: Branch,
    classes: &NameMap<Class>,
    current_class_name: &TypeID,
    current_class_family: &Range<u32>,
    file_name: &str,
    int_table: &mut IntSet,
    str_table: &mut NameSet,
) -> (r: Result<Branch, SemantError>)
    requires
        classes.wf(),
        old(str_table).wf(),
    ensures
        final(str_table).wf(),
        is_prefix(old(str_table)@, final(str_table)@),
        match r {
            Ok(out) => {
                &&& fp_check(
                    branch.expr,
                    scope_of(classes, current_class_name, current_class_family, file_name),
                    pools_of(old(int_table), old(str_table)),
                ) == Ok::<Pools, ErrorView>(pools_of(final(int_table), final(str_table)))
                &&& branch.name@ != "self"@
                &&& known(
                    scope_of(classes, current_class_name, current_class_family, file_name),
                    branch.type_decl@,
                )
                &&& fp_out_branch(
                    branch,
                    out,
                    scope_of(classes, current_class_name, current_class_family, file_name),
                    final(str_table)@,
                )
                &&& branch.expr.wf() ==> out.expr.wf()
            },
            Err(e) => {
                let cx = scope_of(classes, current_class_name, current_class_family, file_name);
                match fp_check(branch.expr, cx, pools_of(old(int_table), old(str_table))) {
                    Err(x) => e@ == x,
                    Ok(_) => if branch.name@ == "self"@ {
                        e@ == fault(ErrorKind::CaseBindsSelf, cx, branch.line_no, seq![])
                    } else {
                        !known(cx, branch.type_decl@) && e@ == fault(
                            ErrorKind::BranchTypeUndefined,
                            cx,
                            branch.line_no,
                            seq![branch.type_decl@],
                        )
                    },
                }
            },
        },
    decreases branch,
{
    let Branch { line_no, name, type_decl, expr, family: _ } = branch;
    let expr = match first_pass_expr(
        expr,
        classes,
        current_class_name,
        current_class_family,
        file_name,
        int_table,
        str_table,
    ) {
        Ok(e) => e,
        Err(err) => {
            return Err(err);
        },
    };
    if name.is_self() {
        return Err(SemantError::new(ErrorKind::CaseBindsSelf, file_name, line_no));
    }
    let family: Range<u32> = if type_decl.same(current_class_name) {
        current_class_family.start..current_class_family.end
    } else {
        match classes.get(type_decl.as_str()) {
            Some(class) => class.family.start..class.family.end,
            None => {
                return Err(
                    SemantError::with_name(
                        ErrorKind::BranchTypeUndefined,
                        file_name,
                        line_no,
                        type_decl.as_str(),
                    ),
                );
            },
        }
    };
    Ok(Branch { line_no, name, type_decl, expr, family })
}

} // verus!
