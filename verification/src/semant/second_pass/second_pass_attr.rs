//! The second pass over an attribute.

use crate::ast::{Attr, TypeID};
use crate::semant::first_pass::layout::Slot;
use crate::error::{ErrorKind, SemantError};
use crate::name_table::NameMap;
use crate::scoped_collections::ScopedIndexMap;
use crate::semant::conformance::conforms;
use crate::semant::second_pass::class_rules::{sp_attr, sp_attr_out};
use crate::semant::second_pass::rules::sigs_wf;
use crate::semant::second_pass::second_pass_expr::{env_of, second_pass_expr, type_scope};
use std::ops::Range;
use vstd::prelude::*;

verus! {

/// The second pass over an attribute: types the initializer, which must
/// conform to the declared type.
pub fn second_pass_attr(
    attr: Attr,
    current_class_name: &TypeID,
    file_name: &str,
    object_types: &mut ScopedIndexMap<TypeID>,
    method_sigs: &NameMap<NameMap<Slot>>,
    parent_names: &NameMap<TypeID>,
    families: &NameMap<Range<u32>>,
) -> (r: Result<Attr, SemantError>)
    requires
        attr.init.wf(),
        old(object_types).wf(),
        sigs_wf(method_sigs),
        parent_names.wf(),
        families.wf(),
    ensures
        final(object_types).wf(),
        match r {
            Ok(out) => {
                &&& final(object_types).frames() == old(object_types).frames()
                &&& sp_attr(attr, type_scope(current_class_name, file_name, method_sigs, parent_names, families), env_of(old(object_types))) is None
                &&& sp_attr_out(attr, out, type_scope(current_class_name, file_name, method_sigs, parent_names, families), env_of(old(object_types)))
            },
            Err(e) => sp_attr(attr, type_scope(current_class_name, file_name, method_sigs, parent_names, families), env_of(old(object_types))) == Some(e@),
        },
{
    let Attr { line_no, name, type_decl, init, self_offset } = attr;
    let init = match second_pass_expr(
        init,
        current_class_name,
        file_name,
        object_types,
        method_sigs,
        parent_names,
        families,
    ) {
        Ok(e) => e,
        Err(err) => {
            return Err(err);
        },
    };
    let t = init.static_type();
    if !conforms(&t, &type_decl, current_class_name, families) {
        return Err(
            SemantError::with_names3(
                ErrorKind::AttrInitNonConforming,
                file_name,
                line_no,
                t.as_str(),
                type_decl.as_str(),
                name.as_str(),
            ),
        );
    }
    Ok(Attr { line_no, name, type_decl, init, self_offset })
}

} // verus!
