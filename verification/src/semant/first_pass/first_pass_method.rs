//! The first pass over a method.

use crate::ast::{Class, Method, ObjectID, TypeID};
use crate::error::{ErrorKind, ErrorView, SemantError};
use crate::name_table::{IntSet, NameMap, NameSet};
use crate::semant::build_inheritiance_tree::first_some;
use crate::semant::first_pass::first_pass_expr::{first_pass_expr, is_known, pools_of, scope_of};
use crate::semant::first_pass::layout::{
    first_changed_formal, formal_before, formal_fault, formal_fault_at, formal_types, method_fault,
    method_out, override_fault, slot_names, slots_view, with_method, Slot,
};
use crate::semant::first_pass::rules::{fp_check, is_prefix, Pools};
use std::ops::Range;
use vstd::prelude::*;

verus! {

/// Holds a method against the slot of the method that it overrides: the
/// return type, the number of formals and the type of every formal must be
/// the same.
pub fn method_compare(
    old_method: &Slot,
    method: &Method,
    method_name: &ObjectID,
    class_name: &TypeID,
    file_name: &str,
) -> (r: Result<(), SemantError>)
    ensures
        match r {
            Ok(_) => override_fault(
                *method,
                method_name@,
                class_name@,
                file_name@,
                old_method.view_as(method_name@),
            ) is None,
            Err(e) => override_fault(
                *method,
                method_name@,
                class_name@,
                file_name@,
                old_method.view_as(method_name@),
            ) == Some(e@),
        },
{
    if !old_method.return_type.same(&method.return_type) {
        return Err(
            SemantError::with_names4(
                ErrorKind::OverrideReturnType,
                file_name,
                method.line_no,
                method_name.as_str(),
                method.return_type.as_str(),
                old_method.return_type.as_str(),
                class_name.as_str(),
            ),
        );
    }
    if old_method.formal_types.len() != method.formals.len() {
        return Err(
            SemantError::with_names2(
                ErrorKind::OverrideFormalCount,
                file_name,
                method.line_no,
                method_name.as_str(),
                class_name.as_str(),
            ),
        );
    }
    let ghost old = old_method.view_as(method_name@).formals;
    let mut k: usize = 0;
    while k < method.formals.len()
        invariant
            k <= method.formals.len(),
            old == old_method.view_as(method_name@).formals,
            old.len() == method.formals.len(),
            old_method.formal_types.len() == method.formals.len(),
            old_method.return_type@ == method.return_type@,
            first_changed_formal(*method, old, 0) == first_changed_formal(*method, old, k as int),
        decreases method.formals.len() - k,
    {
        if !old_method.formal_types[k].same(&method.formals[k].type_decl) {
            proof {
                assert(old[k as int] == old_method.formal_types[k as int]@);
                assert(first_changed_formal(*method, old, k as int) == Some(k as int));
                assert(old_method.view_as(method_name@).ret == method.return_type@);
            }
            return Err(
                SemantError::with_names4(
                    ErrorKind::OverrideFormalType,
                    file_name,
                    method.line_no,
                    method_name.as_str(),
                    method.formals[k].type_decl.as_str(),
                    old_method.formal_types[k].as_str(),
                    class_name.as_str(),
                ),
            );
        }
        proof {
            assert(old[k as int] == old_method.formal_types[k as int]@);
        }
        k += 1;
    }
    Ok(())
}

/// Checks the formals of a method in order: none has type `SELF_TYPE` or
/// the name `self`, the type of each is a class, and no two have one name.
fn check_formals(
    method: &Method,
    classes: &NameMap<Class>,
    current_class_name: &TypeID,
    current_class_family: &Range<u32>,
    file_name: &str,
) -> (r: Result<(), SemantError>)
    ensures
        match r {
            Ok(_) => first_some(
                formal_fault_at(
                    *method,
                    scope_of(classes, current_class_name, current_class_family, file_name),
                ),
                0,
                method.formals.len() as int,
            ) is None,
            Err(e) => first_some(
                formal_fault_at(
                    *method,
                    scope_of(classes, current_class_name, current_class_family, file_name),
                ),
                0,
                method.formals.len() as int,
            ) == Some(e@),
        },
{
    let ghost cx = scope_of(classes, current_class_name, current_class_family, file_name);
    let ghost f = formal_fault_at(*method, cx);
    let n = method.formals.len();
    let mut seen = NameSet::new();
    let mut k: usize = 0;
    while k < n
        invariant
            seen.wf(),
            n == method.formals.len(),
            k <= n,
            cx == scope_of(classes, current_class_name, current_class_family, file_name),
            f == formal_fault_at(*method, cx),
            first_some(f, 0, n as int) == first_some(f, k as int, n as int),
            forall|name: Seq<char>|
                #![trigger seen@.contains(name)]
                #![trigger formal_before(*method, k as int, name)]
                seen@.contains(name) <==> formal_before(*method, k as int, name),
        decreases n - k,
    {
        let formal = &method.formals[k];
        let ghost seen0 = seen@;
        if formal.type_decl.is_self_type() {
            return Err(
                SemantError::with_name(
                    ErrorKind::FormalSelfType,
                    file_name,
                    method.line_no,
                    formal.name.as_str(),
                ),
            );
        }
        if formal.name.is_self() {
            return Err(SemantError::new(ErrorKind::FormalNamedSelf, file_name, method.line_no));
        }
        if !is_known(&formal.type_decl, classes, current_class_name) {
            return Err(
                SemantError::with_names2(
                    ErrorKind::FormalTypeUndefined,
                    file_name,
                    method.line_no,
                    formal.type_decl.as_str(),
                    formal.name.as_str(),
                ),
            );
        }
        if !seen.insert(formal.name.as_str().to_string()) {
            return Err(
                SemantError::with_name(
                    ErrorKind::FormalMultiplyDefined,
                    file_name,
                    method.line_no,
                    formal.name.as_str(),
                ),
            );
        }
        proof {
            let i = k as int;
            let m = *method;
            assert(f(i) is None);
            assert forall|name: Seq<char>|
                #![trigger seen@.contains(name)]
                #![trigger formal_before(m, i + 1, name)]
                seen@.contains(name) <==> formal_before(m, i + 1, name) by {
                if seen@.contains(name) {
                    if seen0.contains(name) {
                        let j = choose|j: int|
                            0 <= j < i && j < m.formals.len() && (#[trigger] m.formals[j]).name@
                                == name;
                        assert(0 <= j < i + 1 && m.formals[j].name@ == name);
                    } else {
                        let j = choose|j: int| 0 <= j < seen@.len() && seen@[j] == name;
                        if j < seen0.len() {
                            assert(seen0[j] == name);
                        }
                        assert(m.formals[i].name@ == name);
                    }
                }
                if formal_before(m, i + 1, name) {
                    let j = choose|j: int|
                        0 <= j < i + 1 && j < m.formals.len() && (#[trigger] m.formals[j]).name@
                            == name;
                    if j < i {
                        assert(formal_before(m, i, name));
                        assert(seen0.contains(name));
                        let x = choose|x: int| 0 <= x < seen0.len() && seen0[x] == name;
                        assert(seen@[x] == name);
                    } else {
                        assert(seen@[seen0.len() as int] == name);
                    }
                }
            }
        }
        k += 1;
    }
    Ok(())
}

/// The first pass over a method. An override must repeat the signature of
/// the method in its slot, and keeps the slot; any other method gets a new
/// last slot, which must fit. The formals and the return type must be in
/// order. The body is passed.
pub fn first_pass_method(
    method: Method,
    method_name: &ObjectID,
    classes: &NameMap<Class>,
    current_class_name: &TypeID,
    current_class_family: &Range<u32>,
    file_name: &str,
    int_table: &mut IntSet,
    str_table: &mut NameSet,
    dispatch_table: &mut NameMap<Slot>,
) -> (r: Result<Method, SemantError>)
    requires
        classes.wf(),
        old(str_table).wf(),
        old(dispatch_table).wf(),
    ensures
        final(str_table).wf(),
        is_prefix(old(str_table)@, final(str_table)@),
        final(dispatch_table).wf(),
        match r {
            Ok(out) => {
                &&& method_fault(
                    method,
                    method_name@,
                    scope_of(classes, current_class_name, current_class_family, file_name),
                    slots_view(old(dispatch_table)),
                ) is None
                &&& fp_check(
                    method.expr,
                    scope_of(classes, current_class_name, current_class_family, file_name),
                    pools_of(old(int_table), old(str_table)),
                ) == Ok::<Pools, ErrorView>(pools_of(final(int_table), final(str_table)))
                &&& method_out(
                    method,
                    out,
                    scope_of(classes, current_class_name, current_class_family, file_name),
                    final(str_table)@,
                )
                &&& slots_view(final(dispatch_table)) == with_method(
                    slots_view(old(dispatch_table)),
                    method_name@,
                    current_class_name@,
                    method,
                )
            },
            Err(e) => match method_fault(
                method,
                method_name@,
                scope_of(classes, current_class_name, current_class_family, file_name),
                slots_view(old(dispatch_table)),
            ) {
                Some(x) => e@ == x,
                None => fp_check(
                    method.expr,
                    scope_of(classes, current_class_name, current_class_family, file_name),
                    pools_of(old(int_table), old(str_table)),
                ) == Err::<Pools, ErrorView>(e@),
            },
        },
{
    let ghost cx = scope_of(classes, current_class_name, current_class_family, file_name);
    let ghost slots0 = slots_view(dispatch_table);
    proof {
        assert(slot_names(slots0) =~= dispatch_table.keys());
    }
    match dispatch_table.index_of(method_name.as_str()) {
        Some(s) => {
            proof {
                assert(slots0[s as int] == dispatch_table.values()[s as int].view_as(method_name@));
            }
            match method_compare(
                dispatch_table.value(s),
                &method,
                method_name,
                current_class_name,
                file_name,
            ) {
                Err(err) => {
                    return Err(err);
                },
                Ok(_) => {},
            }
        },
        None => {
            if dispatch_table.len() > 32767 {
                return Err(
                    SemantError::with_name(
                        ErrorKind::TooManyMethods,
                        file_name,
                        method.line_no,
                        method_name.as_str(),
                    ),
                );
            }
        },
    }
    match check_formals(&method, classes, current_class_name, current_class_family, file_name) {
        Err(err) => {
            return Err(err);
        },
        Ok(_) => {},
    }
    if !method.return_type.is_self_type() && !is_known(
        &method.return_type,
        classes,
        current_class_name,
    ) {
        return Err(
            SemantError::with_names2(
                ErrorKind::ReturnTypeUndefined,
                file_name,
                method.line_no,
                method.return_type.as_str(),
                method_name.as_str(),
            ),
        );
    }
    let slot = Slot::of(current_class_name, &method);
    let ghost before = *dispatch_table;
    dispatch_table.insert(method_name.as_str().to_string(), slot);
    proof {
        let after = slots_view(dispatch_table);
        let want = with_method(slots0, method_name@, current_class_name@, method);
        assert(after =~= want) by {
            assert(after.len() == want.len());
            assert forall|i: int| 0 <= i < after.len() implies after[i] == want[i] by {
                if i < before.values().len() && before.position(method_name@) != Some(i) {
                    assert(dispatch_table.values()[i] == before.values()[i]);
                    assert(dispatch_table.keys()[i] == before.keys()[i]);
                }
            }
        }
    }
    let Method { line_no, formals, return_type, expr } = method;
    let expr = match first_pass_expr(
        expr,
        classes,
        current_class_name,
        current_class_family,
        file_name,
        int_table,
        str_table,
    ) {
        Ok(e) => e,
        Err(err) => {
            return Err(err);
        },
    };
    Ok(Method { line_no, formals, return_type, expr })
}

} // verus!
