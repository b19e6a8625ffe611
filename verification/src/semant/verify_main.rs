//! The entry point: class `Main` with a method `main` that takes no
//! arguments.

use crate::ast::Class;
use crate::error::{ErrorKind, ErrorView, SemantError};
use crate::name_table::NameMap;
use vstd::prelude::*;

verus! {

/// What is wrong with the entry point of the program: there is no class
/// `Main`, or it has no method `main`, or the method takes arguments.
pub open spec fn main_violation(t: &NameMap<Class>) -> Option<ErrorView> {
    if !t.contains_name("Main"@) {
        Some(
            ErrorView {
                kind: ErrorKind::MainClassMissing,
                file_name: Seq::empty(),
                line_no: 0,
                names: seq![],
            },
        )
    } else {
        let class = t.value_of("Main"@);
        if !class.methods.contains_name("main"@) {
            Some(
                ErrorView {
                    kind: ErrorKind::MainMethodMissing,
                    file_name: class.file_name@,
                    line_no: class.line_no,
                    names: seq![],
                },
            )
        } else if class.methods.value_of("main"@).formals.len() > 0 {
            Some(
                ErrorView {
                    kind: ErrorKind::MainMethodHasArguments,
                    file_name: class.file_name@,
                    line_no: class.methods.value_of("main"@).line_no,
                    names: seq![],
                },
            )
        } else {
            None
        }
    }
}

/// Checks that the program has an entry point.
pub fn verify_main(classes: &NameMap<Class>) -> (r: Result<(), SemantError>)
    requires
        classes.wf(),
        forall|i: int| 0 <= i < classes.values().len() ==> (#[trigger] classes.values()[i]).methods.wf(),
    ensures
        match r {
            Ok(_) => main_violation(classes) is None,
            Err(e) => main_violation(classes) == Some(e@),
        },
{
    let main_class = match classes.index_of("Main") {
        Some(i) => classes.value(i),
        None => {
            proof {
                reveal_strlit("");
                assert(""@ =~= Seq::<char>::empty());
            }
            return Err(SemantError::new(ErrorKind::MainClassMissing, "", 0));
        },
    };
    let main_method = match main_class.methods.get("main") {
        Some(m) => m,
        None => {
            return Err(
                SemantError::new(
                    ErrorKind::MainMethodMissing,
                    main_class.file_name.as_str(),
                    main_class.line_no,
                ),
            );
        },
    };
    if main_method.formals.len() > 0 {
        return Err(
            SemantError::new(
                ErrorKind::MainMethodHasArguments,
                main_class.file_name.as_str(),
                main_method.line_no,
            ),
        );
    }
    Ok(())
}

} // verus!
