//! The abstract syntax tree: identifiers, classes, features and expressions.

use crate::name_table::NameMap;
use std::ops::Range;
use vstd::prelude::*;

verus! {

/// `str`'s `==`: two string slices are equal exactly when they hold the same
/// characters.
pub assume_specification[ <str as PartialEq>::eq ](a: &str, b: &str) -> (r: bool)
    ensures
        r == (a@ == b@),
;

/// The reserved names differ from one another.
pub proof fn lemma_reserved_names()
    ensures
        "Object"@.len() == 6,
        "IO"@.len() == 2,
        "Int"@.len() == 3,
        "Bool"@.len() == 4,
        "String"@.len() == 6,
        "Main"@.len() == 4,
        "SELF_TYPE"@.len() == 9,
        "_no_type"@.len() == 8,
        "_no_type"@[0] == '_',
        "Object"@[0] == 'O',
        "String"@[0] == 'S',
        "Bool"@[0] == 'B',
        "Main"@[0] == 'M',
        "Int"@[0] == 'I',
        "IO"@[0] == 'I',
        "SELF_TYPE"@[0] == 'S',
        "self"@.len() == 4,
        "main"@.len() == 4,
        "self"@[0] == 's',
        "main"@[0] == 'm',
{
    reveal_strlit("Object");
    reveal_strlit("IO");
    reveal_strlit("Int");
    reveal_strlit("Bool");
    reveal_strlit("String");
    reveal_strlit("Main");
    reveal_strlit("SELF_TYPE");
    reveal_strlit("_no_type");
    reveal_strlit("self");
    reveal_strlit("main");
}

/// The name of a variable, attribute or method.
#[derive(Debug)]
pub struct ObjectID {
    name: String,
}

impl View for ObjectID {
    type V = Seq<char>;

    closed spec fn view(&self) -> Seq<char> {
        self.name@
    }
}

impl Clone for ObjectID {
    fn clone(&self) -> (r: Self)
        ensures
            r@ == self@,
    {
        ObjectID { name: self.name.clone() }
    }
}

impl ObjectID {
    pub fn new(obj_name: String) -> (r: ObjectID)
        ensures
            r@ == obj_name@,
    {
        ObjectID { name: obj_name }
    }

    pub fn new_self() -> (r: ObjectID)
        ensures
            r@ == "self"@,
    {
        ObjectID { name: "self".to_string() }
    }

    pub fn new_main() -> (r: ObjectID)
        ensures
            r@ == "main"@,
    {
        ObjectID { name: "main".to_string() }
    }

    pub fn is_self(&self) -> (r: bool)
        ensures
            r == (self@ == "self"@),
    {
        self.name.as_str().eq("self")
    }

    /// The name as text.
    pub fn as_str(&self) -> (r: &str)
        ensures
            r@ == self@,
    {
        self.name.as_str()
    }
}

/// The name of a class.
#[derive(Debug)]
pub struct TypeID {
    name: String,
}

impl View for TypeID {
    type V = Seq<char>;

    closed spec fn view(&self) -> Seq<char> {
        self.name@
    }
}

impl Clone for TypeID {
    fn clone(&self) -> (r: Self)
        ensures
            r@ == self@,
    {
        TypeID { name: self.name.clone() }
    }
}

impl TypeID {
    pub fn new(name: String) -> (r: TypeID)
        ensures
            r@ == name@,
    {
        TypeID { name }
    }

    /// The class at which the walk over the inheritance tree starts.
    pub fn root_class_name() -> (r: TypeID)
        ensures
            r@ == "Object"@,
    {
        TypeID { name: "Object".to_string() }
    }

    pub fn new_object() -> (r: TypeID)
        ensures
            r@ == "Object"@,
    {
        TypeID { name: "Object".to_string() }
    }

    pub fn new_io() -> (r: TypeID)
        ensures
            r@ == "IO"@,
    {
        TypeID { name: "IO".to_string() }
    }

    pub fn new_int() -> (r: TypeID)
        ensures
            r@ == "Int"@,
    {
        TypeID { name: "Int".to_string() }
    }

    pub fn new_bool() -> (r: TypeID)
        ensures
            r@ == "Bool"@,
    {
        TypeID { name: "Bool".to_string() }
    }

    pub fn new_string() -> (r: TypeID)
        ensures
            r@ == "String"@,
    {
        TypeID { name: "String".to_string() }
    }

    pub fn new_main() -> (r: TypeID)
        ensures
            r@ == "Main"@,
    {
        TypeID { name: "Main".to_string() }
    }

    pub fn new_self_type() -> (r: TypeID)
        ensures
            r@ == "SELF_TYPE"@,
    {
        TypeID { name: "SELF_TYPE".to_string() }
    }

    pub fn new_no_type() -> (r: TypeID)
        ensures
            r@ == "_no_type"@,
    {
        TypeID { name: "_no_type".to_string() }
    }

    /// A name that begins with an underscore is internal to the analysis.
    pub fn is_system_type(&self) -> (r: bool)
        ensures
            r == is_system_name(self@),
    {
        let s = self.name.as_str();
        if s.is_empty() {
            false
        } else {
            s.get_char(0) == '_'
        }
    }

    pub fn is_self_type(&self) -> (r: bool)
        ensures
            r == (self@ == "SELF_TYPE"@),
    {
        self.name.as_str().eq("SELF_TYPE")
    }

    pub fn is_no_type(&self) -> (r: bool)
        ensures
            r == (self@ == "_no_type"@),
    {
        self.name.as_str().eq("_no_type")
    }

    pub fn is_int(&self) -> (r: bool)
        ensures
            r == (self@ == "Int"@),
    {
        self.name.as_str().eq("Int")
    }

    pub fn is_bool(&self) -> (r: bool)
        ensures
            r == (self@ == "Bool"@),
    {
        self.name.as_str().eq("Bool")
    }

    pub fn is_string(&self) -> (r: bool)
        ensures
            r == (self@ == "String"@),
    {
        self.name.as_str().eq("String")
    }

    /// The length of the name in bytes.
    pub fn len(&self) -> (r: usize)
        ensures
            r == vstd::utf8::encode_utf8(self@).len() as usize,
    {
        self.name.as_str().len()
    }

    /// Whether two names are the same.
    pub fn same(&self, other: &TypeID) -> (r: bool)
        ensures
            r == (self@ == other@),
    {
        self.name.as_str().eq(other.name.as_str())
    }

    /// The name as text.
    pub fn as_str(&self) -> (r: &str)
        ensures
            r@ == self@,
    {
        self.name.as_str()
    }
}

/// Whether a class name is internal to the analysis.
pub open spec fn is_system_name(name: Seq<char>) -> bool {
    name.len() > 0 && name[0] == '_'
}

/// The arithmetic operators.
#[derive(Clone, Copy, Debug, PartialEq, Eq, Structural)]
pub enum ArithOpType {
    Add,
    Sub,
    Mul,
    Div,
}

impl ArithOpType {
    /// The operator as it is written in source text.
    pub fn symbol(&self) -> (r: &'static str)
        ensures
            r@ == match *self {
                ArithOpType::Add => "+"@,
                ArithOpType::Sub => "-"@,
                ArithOpType::Mul => "*"@,
                ArithOpType::Div => "/"@,
            },
    {
        match self {
            ArithOpType::Add => "+",
            ArithOpType::Sub => "-",
            ArithOpType::Mul => "*",
            ArithOpType::Div => "/",
        }
    }
}

/// The relational operators.
#[derive(Clone, Copy, Debug, PartialEq, Eq, Structural)]
pub enum CompType {
    LT,
    LEq,
}

impl CompType {
    /// The operator as it is written in source text.
    pub fn symbol(&self) -> (r: &'static str)
        ensures
            r@ == match *self {
                CompType::LT => "<"@,
                CompType::LEq => "<="@,
            },
    {
        match self {
            CompType::LT => "<",
            CompType::LEq => "<=",
        }
    }
}

/// A formal parameter of a method.
#[derive(Debug)]
pub struct Formal {
    pub line_no: i16,
    pub name: ObjectID,
    pub type_decl: TypeID,
}

impl Clone for Formal {
    fn clone(&self) -> (r: Self)
        ensures
            r.line_no == self.line_no,
            r.name@ == self.name@,
            r.type_decl@ == self.type_decl@,
    {
        Formal { line_no: self.line_no, name: self.name.clone(), type_decl: self.type_decl.clone() }
    }
}

/// One branch of a type-case.
#[derive(Debug)]
pub struct Branch {
    pub line_no: i16,
    pub name: ObjectID,
    pub type_decl: TypeID,
    pub expr: Expression,
    /// The tags of the declared class and of its descendants.
    pub family: Range<u32>,
}

#[derive(Debug)]
#[allow(inconsistent_fields)]
pub enum Expression {
    Assign { line_no: i16, name: ObjectID, expr: Box<Expression> },
    Dispatch {
        line_no: i16,
        expr: Box<Expression>,
        /// The class named in a static dispatch.
        type_id: Option<TypeID>,
        name: ObjectID,
        args: Vec<Expression>,
        static_type: TypeID,
    },
    Cond {
        line_no: i16,
        pred: Box<Expression>,
        then_expr: Box<Expression>,
        else_expr: Box<Expression>,
        static_type: TypeID,
    },
    Loop { line_no: i16, pred: Box<Expression>, body: Box<Expression> },
    TypeCase { line_no: i16, expr: Box<Expression>, branches: Vec<Branch>, static_type: TypeID },
    Block { line_no: i16, body: Vec<Expression> },
    Let {
        line_no: i16,
        identifier: ObjectID,
        type_decl: TypeID,
        init: Box<Expression>,
        body: Box<Expression>,
    },
    ArithOp {
        line_no: i16,
        expr_lhs: Box<Expression>,
        expr_rhs: Box<Expression>,
        arith_op_type: ArithOpType,
    },
    Neg { line_no: i16, expr: Box<Expression> },
    Comp {
        line_no: i16,
        expr_lhs: Box<Expression>,
        expr_rhs: Box<Expression>,
        comp_type: CompType,
    },
    Eq { line_no: i16, expr_lhs: Box<Expression>, expr_rhs: Box<Expression> },
    Not { line_no: i16, expr: Box<Expression> },
    IntConst { line_no: i16, val: u32 },
    BoolConst { line_no: i16, val: bool },
    StringConst {
        line_no: i16,
        val: String,
        /// The position of the text among the program's string constants.
        val_id: u32,
    },
    New { line_no: i16, type_id: TypeID },
    IsVoid { line_no: i16, expr: Box<Expression> },
    /// The place of an initializer or a body that the source leaves out.
    NoExpr,
    Object { line_no: i16, name: ObjectID, static_type: TypeID },
}

impl Branch {
    /// The static type of the branch's body.
    pub open spec fn spec_static_type(&self) -> Seq<char> {
        self.expr.spec_static_type()
    }

    /// The static type of the branch's body.
    pub fn static_type(&self) -> (r: TypeID)
        requires
            self.expr.wf(),
        ensures
            r@ == self.spec_static_type(),
    {
        self.expr.static_type()
    }
}

impl Expression {
    /// Every block holds an expression and every type-case a branch, here
    /// and in all parts of the expression.
    pub open spec fn wf(&self) -> bool
        decreases self,
    {
        match self {
            Expression::Assign { expr, .. } => expr.wf(),
            Expression::Dispatch { expr, args, .. } => {
                &&& expr.wf()
                &&& forall|i: int| 0 <= i < args.len() ==> (#[trigger] args[i]).wf()
            },
            Expression::Cond { pred, then_expr, else_expr, .. } => {
                &&& pred.wf()
                &&& then_expr.wf()
                &&& else_expr.wf()
            },
            Expression::Loop { pred, body, .. } => pred.wf() && body.wf(),
            Expression::TypeCase { expr, branches, .. } => {
                &&& expr.wf()
                &&& branches.len() > 0
                &&& forall|i: int| 0 <= i < branches.len() ==> (#[trigger] branches[i]).expr.wf()
            },
            Expression::Block { body, .. } => {
                &&& body.len() > 0
                &&& forall|i: int| 0 <= i < body.len() ==> (#[trigger] body[i]).wf()
            },
            Expression::Let { init, body, .. } => init.wf() && body.wf(),
            Expression::ArithOp { expr_lhs, expr_rhs, .. } => expr_lhs.wf() && expr_rhs.wf(),
            Expression::Neg { expr, .. } => expr.wf(),
            Expression::Comp { expr_lhs, expr_rhs, .. } => expr_lhs.wf() && expr_rhs.wf(),
            Expression::Eq { expr_lhs, expr_rhs, .. } => expr_lhs.wf() && expr_rhs.wf(),
            Expression::Not { expr, .. } => expr.wf(),
            Expression::IsVoid { expr, .. } => expr.wf(),
            Expression::IntConst { .. } => true,
            Expression::BoolConst { .. } => true,
            Expression::StringConst { .. } => true,
            Expression::New { .. } => true,
            Expression::NoExpr => true,
            Expression::Object { .. } => true,
        }
    }

    /// Whether every block holds an expression and every type-case a
    /// branch, here and in all parts of the expression.
    pub fn is_wf(&self) -> (r: bool)
        ensures
            r == self.wf(),
        decreases self,
    {
        match self {
            Expression::Assign { expr, .. } => expr.is_wf(),
            Expression::Dispatch { expr, args, .. } => {
                if !expr.is_wf() {
                    return false;
                }
                let mut i: usize = 0;
                while i < args.len()
                    invariant
                        i <= args.len(),
                        *self matches Expression::Dispatch { args: a, .. } && a == args,
                        forall|k: int| 0 <= k < i ==> (#[trigger] args[k]).wf(),
                    decreases args.len() - i,
                {
                    proof {
                        assert(decreases_to!(*self => self->args));
                        assert(decreases_to!(self->args => (self->args)[i as int]));
                    }
                    if !args[i].is_wf() {
                        return false;
                    }
                    i += 1;
                }
                true
            },
            Expression::Cond { pred, then_expr, else_expr, .. } => pred.is_wf() && then_expr.is_wf()
                && else_expr.is_wf(),
            Expression::Loop { pred, body, .. } => pred.is_wf() && body.is_wf(),
            Expression::TypeCase { expr, branches, .. } => {
                if !expr.is_wf() || branches.len() == 0 {
                    return false;
                }
                let mut i: usize = 0;
                while i < branches.len()
                    invariant
                        i <= branches.len(),
                        *self matches Expression::TypeCase { branches: b, .. } && b == branches,
                        forall|k: int| 0 <= k < i ==> (#[trigger] branches[k]).expr.wf(),
                    decreases branches.len() - i,
                {
                    proof {
                        assert(decreases_to!(*self => self->branches));
                        assert(decreases_to!(self->branches => (self->branches)[i as int]));
                        assert(decreases_to!((self->branches)[i as int] => (self->branches)[i as int].expr));
                    }
                    if !branches[i].expr.is_wf() {
                        return false;
                    }
                    i += 1;
                }
                true
            },
            Expression::Block { body, .. } => {
                if body.len() == 0 {
                    return false;
                }
                let mut i: usize = 0;
                while i < body.len()
                    invariant
                        i <= body.len(),
                        *self matches Expression::Block { body: b, .. } && b == body,
                        forall|k: int| 0 <= k < i ==> (#[trigger] body[k]).wf(),
                    decreases body.len() - i,
                {
                    proof {
                        assert(decreases_to!(*self => self->Block_body));
                        assert(decreases_to!(self->Block_body => (self->Block_body)[i as int]));
                    }
                    if !body[i].is_wf() {
                        return false;
                    }
                    i += 1;
                }
                true
            },
            Expression::Let { init, body, .. } => init.is_wf() && body.is_wf(),
            Expression::ArithOp { expr_lhs, expr_rhs, .. } => expr_lhs.is_wf() && expr_rhs.is_wf(),
            Expression::Neg { expr, .. } => expr.is_wf(),
            Expression::Comp { expr_lhs, expr_rhs, .. } => expr_lhs.is_wf() && expr_rhs.is_wf(),
            Expression::Eq { expr_lhs, expr_rhs, .. } => expr_lhs.is_wf() && expr_rhs.is_wf(),
            Expression::Not { expr, .. } => expr.is_wf(),
            Expression::IsVoid { expr, .. } => expr.is_wf(),
            Expression::IntConst { .. } => true,
            Expression::BoolConst { .. } => true,
            Expression::StringConst { .. } => true,
            Expression::New { .. } => true,
            Expression::NoExpr => true,
            Expression::Object { .. } => true,
        }
    }

    /// The source line of the expression.
    pub open spec fn spec_line_no(&self) -> i16 {
        match self {
            Expression::Assign { line_no, .. } => *line_no,
            Expression::Dispatch { line_no, .. } => *line_no,
            Expression::Cond { line_no, .. } => *line_no,
            Expression::Loop { line_no, .. } => *line_no,
            Expression::TypeCase { line_no, .. } => *line_no,
            Expression::Block { line_no, .. } => *line_no,
            Expression::Let { line_no, .. } => *line_no,
            Expression::ArithOp { line_no, .. } => *line_no,
            Expression::Neg { line_no, .. } => *line_no,
            Expression::Comp { line_no, .. } => *line_no,
            Expression::Eq { line_no, .. } => *line_no,
            Expression::Not { line_no, .. } => *line_no,
            Expression::IntConst { line_no, .. } => *line_no,
            Expression::BoolConst { line_no, .. } => *line_no,
            Expression::StringConst { line_no, .. } => *line_no,
            Expression::New { line_no, .. } => *line_no,
            Expression::IsVoid { line_no, .. } => *line_no,
            Expression::Object { line_no, .. } => *line_no,
            Expression::NoExpr => 0,
        }
    }

    /// The source line of the expression. The placeholder for a missing
    /// expression has none.
    pub fn line_no(&self) -> (r: i16)
        requires
            !(self is NoExpr),
        ensures
            r == self.spec_line_no(),
    {
        match self {
            Expression::Assign { line_no, .. } => *line_no,
            Expression::Dispatch { line_no, .. } => *line_no,
            Expression::Cond { line_no, .. } => *line_no,
            Expression::Loop { line_no, .. } => *line_no,
            Expression::TypeCase { line_no, .. } => *line_no,
            Expression::Block { line_no, .. } => *line_no,
            Expression::Let { line_no, .. } => *line_no,
            Expression::ArithOp { line_no, .. } => *line_no,
            Expression::Neg { line_no, .. } => *line_no,
            Expression::Comp { line_no, .. } => *line_no,
            Expression::Eq { line_no, .. } => *line_no,
            Expression::Not { line_no, .. } => *line_no,
            Expression::IntConst { line_no, .. } => *line_no,
            Expression::BoolConst { line_no, .. } => *line_no,
            Expression::StringConst { line_no, .. } => *line_no,
            Expression::New { line_no, .. } => *line_no,
            Expression::IsVoid { line_no, .. } => *line_no,
            Expression::Object { line_no, .. } => *line_no,
            Expression::NoExpr => 0,
        }
    }

    /// The static type of the expression: fixed by the kind of expression
    /// where there is no choice, taken from a part of it where it passes a
    /// value on, and otherwise the type recorded in the node.
    pub open spec fn spec_static_type(&self) -> Seq<char>
        decreases self,
    {
        match self {
            Expression::Assign { expr, .. } => expr.spec_static_type(),
            Expression::Loop { .. } => "Object"@,
            Expression::Block { body, .. } => if body.len() > 0 {
                body[body.len() - 1].spec_static_type()
            } else {
                "Object"@
            },
            Expression::Let { body, .. } => body.spec_static_type(),
            Expression::StringConst { .. } => "String"@,
            Expression::New { type_id, .. } => type_id@,
            Expression::NoExpr => "_no_type"@,
            Expression::Comp { .. } => "Bool"@,
            Expression::Eq { .. } => "Bool"@,
            Expression::Not { .. } => "Bool"@,
            Expression::IsVoid { .. } => "Bool"@,
            Expression::BoolConst { .. } => "Bool"@,
            Expression::ArithOp { .. } => "Int"@,
            Expression::Neg { .. } => "Int"@,
            Expression::IntConst { .. } => "Int"@,
            Expression::Dispatch { static_type, .. } => static_type@,
            Expression::Cond { static_type, .. } => static_type@,
            Expression::TypeCase { static_type, .. } => static_type@,
            Expression::Object { static_type, .. } => static_type@,
        }
    }

    /// The static type of the expression. Dispatches, conditionals,
    /// type-cases and identifiers hold theirs once the types are checked.
    pub fn static_type(&self) -> (r: TypeID)
        requires
            self.wf(),
        ensures
            r@ == self.spec_static_type(),
        decreases self,
    {
        match self {
            Expression::Assign { expr, .. } => expr.static_type(),
            Expression::Loop { .. } => TypeID::new_object(),
            Expression::Block { body, .. } => {
                proof {
                    assert(decreases_to!(*self => self->Block_body));
                    assert(decreases_to!(self->Block_body => (self->Block_body)[body.len() - 1]));
                }
                body[body.len() - 1].static_type()
            },
            Expression::Let { body, .. } => body.static_type(),
            Expression::StringConst { .. } => TypeID::new_string(),
            Expression::New { type_id, .. } => type_id.clone(),
            Expression::NoExpr => TypeID::new_no_type(),
            Expression::Comp { .. } => TypeID::new_bool(),
            Expression::Eq { .. } => TypeID::new_bool(),
            Expression::Not { .. } => TypeID::new_bool(),
            Expression::IsVoid { .. } => TypeID::new_bool(),
            Expression::BoolConst { .. } => TypeID::new_bool(),
            Expression::ArithOp { .. } => TypeID::new_int(),
            Expression::Neg { .. } => TypeID::new_int(),
            Expression::IntConst { .. } => TypeID::new_int(),
            Expression::Dispatch { static_type, .. } => static_type.clone(),
            Expression::Cond { static_type, .. } => static_type.clone(),
            Expression::TypeCase { static_type, .. } => static_type.clone(),
            Expression::Object { static_type, .. } => static_type.clone(),
        }
    }
}

/// An attribute of a class.
#[derive(Debug)]
pub struct Attr {
    pub line_no: i16,
    pub name: ObjectID,
    pub type_decl: TypeID,
    pub init: Expression,
    /// The attribute's place in an object, counted in words from its start.
    pub self_offset: i16,
}

/// A method of a class.
#[derive(Debug)]
pub struct Method {
    pub line_no: i16,
    pub formals: Vec<Formal>,
    pub return_type: TypeID,
    pub expr: Expression,
}

impl Method {
    /// Whether `other` has the line, the formals and the return type of
    /// `self`.
    pub open spec fn same_signature(&self, other: &Method) -> bool {
        &&& other.line_no == self.line_no
        &&& other.return_type@ == self.return_type@
        &&& other.formals.len() == self.formals.len()
        &&& forall|i: int|
            0 <= i < self.formals.len() ==> {
                &&& (#[trigger] other.formals[i]).line_no == self.formals[i].line_no
                &&& other.formals[i].name@ == self.formals[i].name@
                &&& other.formals[i].type_decl@ == self.formals[i].type_decl@
            }
    }

    /// A copy of what a dispatch is compared with: the formals and the
    /// return type, without the body.
    pub fn get_sig(&self) -> (r: Method)
        ensures
            self.same_signature(&r),
            r.expr is NoExpr,
    {
        let mut formals: Vec<Formal> = Vec::new();
        let mut i: usize = 0;
        while i < self.formals.len()
            invariant
                i <= self.formals.len(),
                formals.len() == i,
                forall|j: int|
                    0 <= j < i ==> {
                        &&& (#[trigger] formals[j]).line_no == self.formals[j].line_no
                        &&& formals[j].name@ == self.formals[j].name@
                        &&& formals[j].type_decl@ == self.formals[j].type_decl@
                    },
            decreases self.formals.len() - i,
        {
            formals.push(self.formals[i].clone());
            i += 1;
        }
        Method {
            line_no: self.line_no,
            formals,
            return_type: self.return_type.clone(),
            expr: Expression::NoExpr,
        }
    }
}

/// A class: what its declaration says, and what the analysis adds to it.
#[derive(Debug)]
pub struct Class {
    pub file_name: String,
    pub file_no: u32,
    /// Whether the runtime provides the class.
    pub basic: bool,
    pub line_no: i16,
    /// The declared parent; only the root class has none.
    pub parent_name: Option<TypeID>,
    pub attrs: Vec<Attr>,
    /// The methods that the class declares, by name, in declaration order.
    pub methods: NameMap<Method>,
    /// The tags of the class and of its descendants.
    pub family: Range<u32>,
    /// The classes that declare this class as their parent.
    pub child_names: Vec<TypeID>,
    /// The slot of every method of the class, declared or inherited.
    pub method_name_to_pos: NameMap<i16>,
    /// For every slot, the class that implements it and the method's name.
    pub dispatch_table: Vec<(TypeID, ObjectID)>,
}

impl Class {
    /// The collections of the class are well formed, and so are the
    /// expressions of its attributes and methods.
    pub open spec fn wf(&self) -> bool {
        &&& self.methods.wf()
        &&& self.method_name_to_pos.wf()
        &&& forall|i: int| 0 <= i < self.attrs.len() ==> (#[trigger] self.attrs[i]).init.wf()
        &&& forall|i: int|
            0 <= i < self.methods.values().len() ==> (#[trigger] self.methods.values()[i]).expr.wf()
    }

    /// Whether the expressions of the attributes and of the methods of the
    /// class are well formed.
    pub fn is_wf(&self) -> (r: bool)
        requires
            self.methods.wf(),
            self.method_name_to_pos.wf(),
        ensures
            r == self.wf(),
    {
        let mut i: usize = 0;
        while i < self.attrs.len()
            invariant
                i <= self.attrs.len(),
                forall|k: int| 0 <= k < i ==> (#[trigger] self.attrs[k]).init.wf(),
            decreases self.attrs.len() - i,
        {
            if !self.attrs[i].init.is_wf() {
                return false;
            }
            i += 1;
        }
        let mut j: usize = 0;
        while j < self.methods.len()
            invariant
                j <= self.methods.values().len(),
                forall|k: int| 0 <= k < j ==> (#[trigger] self.methods.values()[k]).expr.wf(),
            decreases self.methods.values().len() - j,
        {
            if !self.methods.value(j).expr.is_wf() {
                return false;
            }
            j += 1;
        }
        true
    }

    /// The tag of the class: the first tag of its family.
    pub fn tag(&self) -> (r: u32)
        ensures
            r == self.family.start,
    {
        self.family.start
    }
}

} // verus!
