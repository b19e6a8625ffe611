//! The first pass over an attribute.

use crate::ast::{Attr, Class, TypeID};
use crate::error::{ErrorKind, ErrorView, SemantError};
use crate::name_table::{IntSet, NameMap, NameSet};
use crate::scoped_collections::{in_frames, ScopedIndexSet};
use crate::semant::first_pass::first_pass_expr::{first_pass_expr, is_known, pools_of, scope_of};
use crate::semant::first_pass::layout::{attr_fault, attr_out};
use crate::semant::first_pass::rules::{fp_check, is_prefix, Pools};
use std::ops::Range;
use vstd::prelude::*;

verus! {

/// The first pass over an attribute. The name may not be `self`, nor that
/// of another attribute of the class or of an ancestor; the type must be a
/// class, an internal type or `SELF_TYPE`. The attribute then gets the
/// offset, its name joins the innermost frame of `inherited_attrs`, and its
/// initializer is passed.
pub fn first_pass_attr(
    attr: Attr,
    classes: &NameMap<Class>,
    current_class_name: &TypeID,
    current_class_family: &Range<u32>,
    file_name: &str,
    self_offset: i16,
    int_table: &mut IntSet,
    str_table: &mut NameSet,
    inherited_attrs: &mut ScopedIndexSet,
) -> (r: Result<Attr, SemantError>)
    requires
        classes.wf(),
        old(str_table).wf(),
        old(inherited_attrs).wf(),
        old(inherited_attrs).frames().len() > 0,
    ensures
        final(str_table).wf(),
        is_prefix(old(str_table)@, final(str_table)@),
        final(inherited_attrs).wf(),
        final(inherited_attrs).frames().len() == old(inherited_attrs).frames().len(),
        final(inherited_attrs).frames().drop_last() == old(inherited_attrs).frames().drop_last(),
        match r {
            Ok(out) => {
                &&& attr_fault(
                    attr,
                    scope_of(classes, current_class_name, current_class_family, file_name),
                    in_frames(old(inherited_attrs).frames().drop_last(), attr.name@),
                    old(inherited_attrs).frames().last()@,
                ) is None
                &&& fp_check(
                    attr.init,
                    scope_of(classes, current_class_name, current_class_family, file_name),
                    pools_of(old(int_table), old(str_table)),
                ) == Ok::<Pools, ErrorView>(pools_of(final(int_table), final(str_table)))
                &&& attr_out(
                    attr,
                    out,
                    scope_of(classes, current_class_name, current_class_family, file_name),
                    self_offset as int,
                    final(str_table)@,
                )
                &&& final(inherited_attrs).frames().last()@ == old(
                    inherited_attrs,
                ).frames().last()@.push(attr.name@)
            },
            Err(e) => match attr_fault(
                attr,
                scope_of(classes, current_class_name, current_class_family, file_name),
                in_frames(old(inherited_attrs).frames().drop_last(), attr.name@),
                old(inherited_attrs).frames().last()@,
            ) {
                Some(x) => e@ == x,
                None => fp_check(
                    attr.init,
                    scope_of(classes, current_class_name, current_class_family, file_name),
                    pools_of(old(int_table), old(str_table)),
                ) == Err::<Pools, ErrorView>(e@),
            },
        },
{
    let Attr { line_no, name, type_decl, init, self_offset: _ } = attr;
    if name.is_self() {
        return Err(SemantError::new(ErrorKind::AttrNamedSelf, file_name, line_no));
    }
    if inherited_attrs.contains_top_scope(name.as_str()) {
        return Err(
            SemantError::with_name(
                ErrorKind::AttrMultiplyDefined,
                file_name,
                line_no,
                name.as_str(),
            ),
        );
    }
    if inherited_attrs.contains(name.as_str()) {
        proof {
            let frames = inherited_attrs.frames();
            let i = choose|i: int| 0 <= i < frames.len() && (#[trigger] frames[i])@.contains(name@);
            assert(frames.drop_last()[i] == frames[i]);
        }
        return Err(
            SemantError::with_name(ErrorKind::AttrInherited, file_name, line_no, name.as_str()),
        );
    }
    proof {
        let frames = inherited_attrs.frames();
        if in_frames(frames.drop_last(), name@) {
            let i = choose|i: int|
                0 <= i < frames.drop_last().len() && (#[trigger] frames.drop_last()[i])@.contains(
                    name@,
                );
            assert(frames[i] == frames.drop_last()[i]);
            assert(in_frames(frames, name@));
        }
    }
    if !is_known(&type_decl, classes, current_class_name) && !type_decl.is_system_type()
        && !type_decl.is_self_type() {
        return Err(
            SemantError::with_names2(
                ErrorKind::AttrTypeUndefined,
                file_name,
                line_no,
                type_decl.as_str(),
                name.as_str(),
            ),
        );
    }
    inherited_attrs.insert(name.as_str().to_string());
    let init = match first_pass_expr(
        init,
        classes,
        current_class_name,
        current_class_family,
        file_name,
        int_table,
        str_table,
    ) {
        Ok(e) => e,
        Err(err) => {
            return Err(err);
        },
    };
    Ok(Attr { line_no, name, type_decl, init, self_offset })
}

} // verus!
