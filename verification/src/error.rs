//! The violations that the analysis reports.

use crate::text::{decimal, decimal_text};
use vstd::prelude::*;
use vstd::string::StringExecFns;

verus! {

/// What was violated.
#[derive(Clone, Copy, Debug, PartialEq, Eq, Structural)]
pub enum ErrorKind {
    /// A class inherits `Int`, `Bool`, `String` or `SELF_TYPE`.
    /// Names: the class, the parent.
    IllegalParent,
    /// A class is named `SELF_TYPE`.
    RedefinedSelfType,
    /// The declared parent is no class of the program.
    /// Names: the class, the parent.
    UndefinedParent,
    /// The class does not descend from the root class.
    /// Names: the class.
    InheritanceCycle,
    /// The program has no class `Main`.
    MainClassMissing,
    /// Class `Main` has no method `main`.
    MainMethodMissing,
    /// Method `main` of class `Main` takes arguments.
    MainMethodHasArguments,
    /// An attribute is named `self`.
    AttrNamedSelf,
    /// The class declares the attribute twice. Names: the attribute.
    AttrMultiplyDefined,
    /// An ancestor declares an attribute of that name. Names: the attribute.
    AttrInherited,
    /// The attribute's type is no class. Names: the type, the attribute.
    AttrTypeUndefined,
    /// The class has more attributes than an offset can count.
    /// Names: the attribute at which the count ran out.
    TooManyAttributes,
    /// The class has more methods than a slot can count.
    /// Names: the method at which the count ran out.
    TooManyMethods,
    /// An override changes the return type.
    /// Names: the method, the new type, the overridden type, the class.
    OverrideReturnType,
    /// An override changes the number of formals.
    /// Names: the method, the class.
    OverrideFormalCount,
    /// An override changes the type of a formal.
    /// Names: the method, the new type, the overridden type, the class.
    OverrideFormalType,
    /// A formal has type `SELF_TYPE`. Names: the formal.
    FormalSelfType,
    /// A formal is named `self`.
    FormalNamedSelf,
    /// The formal's type is no class. Names: the type, the formal.
    FormalTypeUndefined,
    /// The method declares the formal twice. Names: the formal.
    FormalMultiplyDefined,
    /// The return type is no class. Names: the type, the method.
    ReturnTypeUndefined,
    /// An assignment to `self`.
    AssignToSelf,
    /// A static dispatch names `SELF_TYPE`.
    StaticDispatchSelfType,
    /// A static dispatch names no class. Names: the type.
    StaticDispatchUndefined,
    /// Two branches of a type-case declare the same type. Names: the type.
    DuplicateBranch,
    /// A `let` binds `self`.
    LetBindsSelf,
    /// The type of a `let` is no class. Names: the type, the identifier.
    LetTypeUndefined,
    /// `new` names no class. Names: the type.
    NewUndefined,
    /// A branch of a type-case binds `self`.
    CaseBindsSelf,
    /// The type of a branch is no class. Names: the type.
    BranchTypeUndefined,
    /// The assigned expression does not conform to the identifier's type.
    /// Names: the expression's type, the declared type, the identifier.
    AssignNonConforming,
    /// An assignment to an identifier that is not declared.
    /// Names: the identifier.
    AssignUndeclared,
    /// The receiver of a static dispatch does not conform to the type named.
    /// Names: the receiver's type, the type named.
    StaticDispatchNonConforming,
    /// The class of the receiver has no such method. Names: the method.
    DispatchUndefined,
    /// A dispatch with the wrong number of arguments. Names: the method.
    DispatchArity,
    /// An argument does not conform to its formal's type.
    /// Names: the method, the argument's type, the formal's type.
    ArgumentNonConforming,
    /// The predicate of a conditional is not of type `Bool`.
    IfPredicateNotBool,
    /// The predicate of a loop is not of type `Bool`.
    LoopPredicateNotBool,
    /// The initializer of a `let` does not conform to the declared type.
    /// Names: the initializer's type, the identifier, the declared type.
    LetInitNonConforming,
    /// An operand of an arithmetic operator is not of type `Int`.
    /// Names: the left type, the operator, the right type.
    ArithNonInt,
    /// The operand of `~` is not of type `Int`. Names: the operand's type.
    NegNonInt,
    /// An operand of a comparison is not of type `Int`.
    /// Names: the left type, the operator, the right type.
    CompNonInt,
    /// An equality test between a basic type and another type.
    IllegalBasicComparison,
    /// The operand of `not` is not of type `Bool`. Names: the operand's type.
    NotNonBool,
    /// An identifier that is not declared. Names: the identifier.
    UndeclaredIdentifier,
    /// The initializer of an attribute does not conform to the declared
    /// type. Names: the initializer's type, the declared type, the attribute.
    AttrInitNonConforming,
    /// The body of a method does not conform to the declared return type.
    /// Names: the body's type, the method, the declared type.
    ReturnNonConforming,
}

/// A violation: what was violated, where, and the names involved.
#[derive(Debug)]
pub struct SemantError {
    pub kind: ErrorKind,
    pub file_name: String,
    pub line_no: i16,
    /// The names that the message cites, in the order given with the kind.
    pub names: Vec<String>,
}

/// A violation with its texts as sequences of characters.
pub struct ErrorView {
    pub kind: ErrorKind,
    pub file_name: Seq<char>,
    pub line_no: i16,
    pub names: Seq<Seq<char>>,
}

impl View for SemantError {
    type V = ErrorView;

    open spec fn view(&self) -> ErrorView {
        ErrorView {
            kind: self.kind,
            file_name: self.file_name@,
            line_no: self.line_no,
            names: Seq::new(self.names.len() as nat, |i: int| self.names[i]@),
        }
    }
}

impl SemantError {
    /// A violation that cites no name.
    pub fn new(kind: ErrorKind, file_name: &str, line_no: i16) -> (r: SemantError)
        ensures
            r@ == (ErrorView { kind, file_name: file_name@, line_no, names: seq![] }),
    {
        let r = SemantError {
            kind,
            file_name: file_name.to_string(),
            line_no,
            names: Vec::new(),
        };
        assert(r@.names =~= seq![]);
        r
    }

    /// A violation that cites one name.
    pub fn with_name(kind: ErrorKind, file_name: &str, line_no: i16, a: &str) -> (r: SemantError)
        ensures
            r@ == (ErrorView { kind, file_name: file_name@, line_no, names: seq![a@] }),
    {
        let mut names: Vec<String> = Vec::new();
        names.push(a.to_string());
        let r = SemantError { kind, file_name: file_name.to_string(), line_no, names };
        assert(r@.names =~= seq![a@]);
        r
    }

    /// A violation that cites two names.
    pub fn with_names2(kind: ErrorKind, file_name: &str, line_no: i16, a: &str, b: &str) -> (r:
        SemantError)
        ensures
            r@ == (ErrorView { kind, file_name: file_name@, line_no, names: seq![a@, b@] }),
    {
        let mut names: Vec<String> = Vec::new();
        names.push(a.to_string());
        names.push(b.to_string());
        let r = SemantError { kind, file_name: file_name.to_string(), line_no, names };
        assert(r@.names =~= seq![a@, b@]);
        r
    }

    /// A violation that cites four names.
    pub fn with_names4(
        kind: ErrorKind,
        file_name: &str,
        line_no: i16,
        a: &str,
        b: &str,
        c: &str,
        d: &str,
    ) -> (r: SemantError)
        ensures
            r@ == (ErrorView { kind, file_name: file_name@, line_no, names: seq![a@, b@, c@, d@] }),
    {
        let mut names: Vec<String> = Vec::new();
        names.push(a.to_string());
        names.push(b.to_string());
        names.push(c.to_string());
        names.push(d.to_string());
        let r = SemantError { kind, file_name: file_name.to_string(), line_no, names };
        assert(r@.names =~= seq![a@, b@, c@, d@]);
        r
    }

    /// A violation that cites three names.
    pub fn with_names3(
        kind: ErrorKind,
        file_name: &str,
        line_no: i16,
        a: &str,
        b: &str,
        c: &str,
    ) -> (r: SemantError)
        ensures
            r@ == (ErrorView { kind, file_name: file_name@, line_no, names: seq![a@, b@, c@] }),
    {
        let mut names: Vec<String> = Vec::new();
        names.push(a.to_string());
        names.push(b.to_string());
        names.push(c.to_string());
        let r = SemantError { kind, file_name: file_name.to_string(), line_no, names };
        assert(r@.names =~= seq![a@, b@, c@]);
        r
    }
}

/// The name at position `i` among the names that a violation cites.
pub open spec fn name_at(names: Seq<Seq<char>>, i: int) -> Seq<char> {
    if 0 <= i < names.len() {
        names[i]
    } else {
        Seq::empty()
    }
}

/// What a message says of the violation itself.
pub open spec fn description(e: ErrorView) -> Seq<char> {
    match e.kind {
        ErrorKind::MainClassMissing => "Class Main is not defined."@,
        ErrorKind::IllegalParent => "Class "@ + name_at(e.names, 0) + " cannot inherit class "@ + name_at(e.names, 1) + "."@,
        ErrorKind::RedefinedSelfType => "Redefinition of basic class SELF_TYPE."@,
        ErrorKind::UndefinedParent => "Class "@ + name_at(e.names, 0) + " inherits from an undefined class "@ + name_at(e.names, 1) + "."@,
        ErrorKind::InheritanceCycle => "Class "@ + name_at(e.names, 0) + ", or an ancestor of "@ + name_at(e.names, 0) + ", is involved in an inheritance cycle."@,
        ErrorKind::MainMethodMissing => "No 'main' method in class Main."@,
        ErrorKind::MainMethodHasArguments => "'main' method in class Main should have no arguments."@,
        ErrorKind::AttrNamedSelf => "'self' cannot be the name of an attribute."@,
        ErrorKind::AttrMultiplyDefined => "Attribute "@ + name_at(e.names, 0) + " is multiply defined in class."@,
        ErrorKind::AttrInherited => "Attribute "@ + name_at(e.names, 0) + " is an attribute of an inherited class."@,
        ErrorKind::AttrTypeUndefined => "Class "@ + name_at(e.names, 0) + " of attribute "@ + name_at(e.names, 1) + " is undefined."@,
        ErrorKind::TooManyAttributes => "Attribute "@ + name_at(e.names, 0) + " is one attribute too many."@,
        ErrorKind::TooManyMethods => "Method "@ + name_at(e.names, 0) + " is one method too many."@,
        ErrorKind::OverrideReturnType => "In redefined method "@ + name_at(e.names, 0) + " of class "@ + name_at(e.names, 3) + ", return type "@ + name_at(e.names, 1) + " is different from original return type "@ + name_at(e.names, 2) + "."@,
        ErrorKind::OverrideFormalCount => "Incompatible number of formal parameters in redefined method "@ + name_at(e.names, 0) + " of class "@ + name_at(e.names, 1) + "."@,
        ErrorKind::OverrideFormalType => "In redefined method "@ + name_at(e.names, 0) + " of class "@ + name_at(e.names, 3) + ", parameter type "@ + name_at(e.names, 1) + " is different from original type "@ + name_at(e.names, 2) + "."@,
        ErrorKind::FormalSelfType => "Formal parameter "@ + name_at(e.names, 0) + " cannot have type SELF_TYPE."@,
        ErrorKind::FormalNamedSelf => "'self' cannot be the name of a formal parameter."@,
        ErrorKind::FormalTypeUndefined => "Class "@ + name_at(e.names, 0) + " of formal parameter "@ + name_at(e.names, 1) + " is undefined."@,
        ErrorKind::FormalMultiplyDefined => "Formal parameter "@ + name_at(e.names, 0) + " is multiply defined."@,
        ErrorKind::ReturnTypeUndefined => "Undefined return type "@ + name_at(e.names, 0) + " in method "@ + name_at(e.names, 1) + "."@,
        ErrorKind::AssignToSelf => "Cannot assign to 'self'."@,
        ErrorKind::StaticDispatchSelfType => "Static dispatch to SELF_TYPE."@,
        ErrorKind::StaticDispatchUndefined => "Static dispatch to undefined class "@ + name_at(e.names, 0) + "."@,
        ErrorKind::DuplicateBranch => "Duplicate branch "@ + name_at(e.names, 0) + " in case statement."@,
        ErrorKind::LetBindsSelf => "'self' cannot be bound in a 'let' expression."@,
        ErrorKind::LetTypeUndefined => "Class "@ + name_at(e.names, 0) + " of let-bound identifier "@ + name_at(e.names, 1) + " is undefined."@,
        ErrorKind::NewUndefined => "'new' used with undefined class "@ + name_at(e.names, 0) + "."@,
        ErrorKind::CaseBindsSelf => "'self' bound in 'case'."@,
        ErrorKind::BranchTypeUndefined => "Class "@ + name_at(e.names, 0) + " of case branch is undefined."@,
        ErrorKind::AssignNonConforming => "Type "@ + name_at(e.names, 0) + " of assigned expression does not conform to declared type "@ + name_at(e.names, 1) + " of identifier "@ + name_at(e.names, 2) + "."@,
        ErrorKind::AssignUndeclared => "Assignment to undeclared variable "@ + name_at(e.names, 0) + "."@,
        ErrorKind::StaticDispatchNonConforming => "Expression type "@ + name_at(e.names, 0) + " does not conform to declared static dispatch type "@ + name_at(e.names, 1) + "."@,
        ErrorKind::DispatchUndefined => "Dispatch to undefined method "@ + name_at(e.names, 0) + "."@,
        ErrorKind::DispatchArity => "Method "@ + name_at(e.names, 0) + " called with wrong number of arguments."@,
        ErrorKind::ArgumentNonConforming => "In call of method "@ + name_at(e.names, 0) + ", type "@ + name_at(e.names, 1) + " of parameter a does not conform to declared type "@ + name_at(e.names, 2) + "."@,
        ErrorKind::IfPredicateNotBool => "Predicate of 'if' does not have type Bool."@,
        ErrorKind::LoopPredicateNotBool => "Loop condition does not have type Bool."@,
        ErrorKind::LetInitNonConforming => "Inferred type "@ + name_at(e.names, 0) + " of initialization of "@ + name_at(e.names, 1) + " does not conform to identifier's declared type "@ + name_at(e.names, 2) + "."@,
        ErrorKind::ArithNonInt => "non-Int arguments: "@ + name_at(e.names, 0) + " "@ + name_at(e.names, 1) + " "@ + name_at(e.names, 2),
        ErrorKind::NegNonInt => "Argument of '~' has type "@ + name_at(e.names, 0) + " instead of Int"@,
        ErrorKind::CompNonInt => "non-Int arguments: "@ + name_at(e.names, 0) + " "@ + name_at(e.names, 1) + " "@ + name_at(e.names, 2),
        ErrorKind::IllegalBasicComparison => "Illegal comparison with a basic type."@,
        ErrorKind::NotNonBool => "Argument of 'not' has type "@ + name_at(e.names, 0) + " instead of Bool."@,
        ErrorKind::UndeclaredIdentifier => "Undeclared identifier "@ + name_at(e.names, 0) + "."@,
        ErrorKind::AttrInitNonConforming => "Type "@ + name_at(e.names, 0) + " of assigned expression does not conform to declared type "@ + name_at(e.names, 1) + " of identifier "@ + name_at(e.names, 2) + "."@,
        ErrorKind::ReturnNonConforming => "Inferred return type "@ + name_at(e.names, 0) + " of method "@ + name_at(e.names, 1) + " does not conform to declared return type "@ + name_at(e.names, 2) + "."@,
    }
}

/// The message for a violation: the file, the line and the description. A
/// program without class `Main` has no place to name.
pub open spec fn message_text(e: ErrorView) -> Seq<char> {
    if e.kind == ErrorKind::MainClassMissing {
        description(e)
    } else if e.kind == ErrorKind::BranchTypeUndefined {
        e.file_name + " : "@ + decimal_text(e.line_no as int) + " : "@ + description(e)
    } else {
        e.file_name + " : "@ + decimal_text(e.line_no as int) + " - "@ + description(e)
    }
}

impl SemantError {
    /// The name at position `i` among the names that the violation cites.
    pub fn name(&self, i: usize) -> (r: &str)
        ensures
            r@ == name_at(self@.names, i as int),
    {
        if i < self.names.len() {
            self.names[i].as_str()
        } else {
            proof {
                reveal_strlit("");
                assert(""@ =~= Seq::<char>::empty());
            }
            ""
        }
    }

    /// What the message says of the violation itself.
    fn describe(&self) -> (text: String)
        ensures
            text@ == description(self@),
    {
        let mut text = String::new();
        match self.kind {
            ErrorKind::MainClassMissing => {
                text.append("Class Main is not defined.");
            },
            ErrorKind::IllegalParent => {
                text.append("Class ");
                text.append(self.name(0));
                text.append(" cannot inherit class ");
                text.append(self.name(1));
                text.append(".");
            },
            ErrorKind::RedefinedSelfType => {
                text.append("Redefinition of basic class SELF_TYPE.");
            },
            ErrorKind::UndefinedParent => {
                text.append("Class ");
                text.append(self.name(0));
                text.append(" inherits from an undefined class ");
                text.append(self.name(1));
                text.append(".");
            },
            ErrorKind::InheritanceCycle => {
                text.append("Class ");
                text.append(self.name(0));
                text.append(", or an ancestor of ");
                text.append(self.name(0));
                text.append(", is involved in an inheritance cycle.");
            },
            ErrorKind::MainMethodMissing => {
                text.append("No 'main' method in class Main.");
            },
            ErrorKind::MainMethodHasArguments => {
                text.append("'main' method in class Main should have no arguments.");
            },
            ErrorKind::AttrNamedSelf => {
                text.append("'self' cannot be the name of an attribute.");
            },
            ErrorKind::AttrMultiplyDefined => {
                text.append("Attribute ");
                text.append(self.name(0));
                text.append(" is multiply defined in class.");
            },
            ErrorKind::AttrInherited => {
                text.append("Attribute ");
                text.append(self.name(0));
                text.append(" is an attribute of an inherited class.");
            },
            ErrorKind::AttrTypeUndefined => {
                text.append("Class ");
                text.append(self.name(0));
                text.append(" of attribute ");
                text.append(self.name(1));
                text.append(" is undefined.");
            },
            ErrorKind::TooManyAttributes => {
                text.append("Attribute ");
                text.append(self.name(0));
                text.append(" is one attribute too many.");
            },
            ErrorKind::TooManyMethods => {
                text.append("Method ");
                text.append(self.name(0));
                text.append(" is one method too many.");
            },
            ErrorKind::OverrideReturnType => {
                text.append("In redefined method ");
                text.append(self.name(0));
                text.append(" of class ");
                text.append(self.name(3));
                text.append(", return type ");
                text.append(self.name(1));
                text.append(" is different from original return type ");
                text.append(self.name(2));
                text.append(".");
            },
            ErrorKind::OverrideFormalCount => {
                text.append("Incompatible number of formal parameters in redefined method ");
                text.append(self.name(0));
                text.append(" of class ");
                text.append(self.name(1));
                text.append(".");
            },
            ErrorKind::OverrideFormalType => {
                text.append("In redefined method ");
                text.append(self.name(0));
                text.append(" of class ");
                text.append(self.name(3));
                text.append(", parameter type ");
                text.append(self.name(1));
                text.append(" is different from original type ");
                text.append(self.name(2));
                text.append(".");
            },
            ErrorKind::FormalSelfType => {
                text.append("Formal parameter ");
                text.append(self.name(0));
                text.append(" cannot have type SELF_TYPE.");
            },
            ErrorKind::FormalNamedSelf => {
                text.append("'self' cannot be the name of a formal parameter.");
            },
            ErrorKind::FormalTypeUndefined => {
                text.append("Class ");
                text.append(self.name(0));
                text.append(" of formal parameter ");
                text.append(self.name(1));
                text.append(" is undefined.");
            },
            ErrorKind::FormalMultiplyDefined => {
                text.append("Formal parameter ");
                text.append(self.name(0));
                text.append(" is multiply defined.");
            },
            ErrorKind::ReturnTypeUndefined => {
                text.append("Undefined return type ");
                text.append(self.name(0));
                text.append(" in method ");
                text.append(self.name(1));
                text.append(".");
            },
            ErrorKind::AssignToSelf => {
                text.append("Cannot assign to 'self'.");
            },
            ErrorKind::StaticDispatchSelfType => {
                text.append("Static dispatch to SELF_TYPE.");
            },
            ErrorKind::StaticDispatchUndefined => {
                text.append("Static dispatch to undefined class ");
                text.append(self.name(0));
                text.append(".");
            },
            ErrorKind::DuplicateBranch => {
                text.append("Duplicate branch ");
                text.append(self.name(0));
                text.append(" in case statement.");
            },
            ErrorKind::LetBindsSelf => {
                text.append("'self' cannot be bound in a 'let' expression.");
            },
            ErrorKind::LetTypeUndefined => {
                text.append("Class ");
                text.append(self.name(0));
                text.append(" of let-bound identifier ");
                text.append(self.name(1));
                text.append(" is undefined.");
            },
            ErrorKind::NewUndefined => {
                text.append("'new' used with undefined class ");
                text.append(self.name(0));
                text.append(".");
            },
            ErrorKind::CaseBindsSelf => {
                text.append("'self' bound in 'case'.");
            },
            ErrorKind::BranchTypeUndefined => {
                text.append("Class ");
                text.append(self.name(0));
                text.append(" of case branch is undefined.");
            },
            ErrorKind::AssignNonConforming => {
                text.append("Type ");
                text.append(self.name(0));
                text.append(" of assigned expression does not conform to declared type ");
                text.append(self.name(1));
                text.append(" of identifier ");
                text.append(self.name(2));
                text.append(".");
            },
            ErrorKind::AssignUndeclared => {
                text.append("Assignment to undeclared variable ");
                text.append(self.name(0));
                text.append(".");
            },
            ErrorKind::StaticDispatchNonConforming => {
                text.append("Expression type ");
                text.append(self.name(0));
                text.append(" does not conform to declared static dispatch type ");
                text.append(self.name(1));
                text.append(".");
            },
            ErrorKind::DispatchUndefined => {
                text.append("Dispatch to undefined method ");
                text.append(self.name(0));
                text.append(".");
            },
            ErrorKind::DispatchArity => {
                text.append("Method ");
                text.append(self.name(0));
                text.append(" called with wrong number of arguments.");
            },
            ErrorKind::ArgumentNonConforming => {
                text.append("In call of method ");
                text.append(self.name(0));
                text.append(", type ");
                text.append(self.name(1));
                text.append(" of parameter a does not conform to declared type ");
                text.append(self.name(2));
                text.append(".");
            },
            ErrorKind::IfPredicateNotBool => {
                text.append("Predicate of 'if' does not have type Bool.");
            },
            ErrorKind::LoopPredicateNotBool => {
                text.append("Loop condition does not have type Bool.");
            },
            ErrorKind::LetInitNonConforming => {
                text.append("Inferred type ");
                text.append(self.name(0));
                text.append(" of initialization of ");
                text.append(self.name(1));
                text.append(" does not conform to identifier's declared type ");
                text.append(self.name(2));
                text.append(".");
            },
            ErrorKind::ArithNonInt => {
                text.append("non-Int arguments: ");
                text.append(self.name(0));
                text.append(" ");
                text.append(self.name(1));
                text.append(" ");
                text.append(self.name(2));
            },
            ErrorKind::NegNonInt => {
                text.append("Argument of '~' has type ");
                text.append(self.name(0));
                text.append(" instead of Int");
            },
            ErrorKind::CompNonInt => {
                text.append("non-Int arguments: ");
                text.append(self.name(0));
                text.append(" ");
                text.append(self.name(1));
                text.append(" ");
                text.append(self.name(2));
            },
            ErrorKind::IllegalBasicComparison => {
                text.append("Illegal comparison with a basic type.");
            },
            ErrorKind::NotNonBool => {
                text.append("Argument of 'not' has type ");
                text.append(self.name(0));
                text.append(" instead of Bool.");
            },
            ErrorKind::UndeclaredIdentifier => {
                text.append("Undeclared identifier ");
                text.append(self.name(0));
                text.append(".");
            },
            ErrorKind::AttrInitNonConforming => {
                text.append("Type ");
                text.append(self.name(0));
                text.append(" of assigned expression does not conform to declared type ");
                text.append(self.name(1));
                text.append(" of identifier ");
                text.append(self.name(2));
                text.append(".");
            },
            ErrorKind::ReturnNonConforming => {
                text.append("Inferred return type ");
                text.append(self.name(0));
                text.append(" of method ");
                text.append(self.name(1));
                text.append(" does not conform to declared return type ");
                text.append(self.name(2));
                text.append(".");
            },
        }
        proof {
            assert(text@ =~= description(self@));
        }
        text
    }

    /// The message for the violation.
    pub fn message(&self) -> (text: String)
        ensures
            text@ == message_text(self@),
    {
        if self.kind == ErrorKind::MainClassMissing {
            return self.describe();
        }
        let mut text = self.file_name.clone();
        text.append(" : ");
        text.append(decimal(self.line_no as i64).as_str());
        if self.kind == ErrorKind::BranchTypeUndefined {
            text.append(" : ");
        } else {
            text.append(" - ");
        }
        text.append(self.describe().as_str());
        text
    }
}

} // verus!
