//! The classes that the runtime provides: `Object`, `IO`, `Int`, `Bool`
//! and `String`.

use crate::ast::{lemma_reserved_names, Attr, Class, Expression, Formal, Method, ObjectID, TypeID};
use crate::name_table::NameMap;
use crate::semant::build_inheritiance_tree::{classes_wf, has_root};
use vstd::prelude::*;
use vstd::string::StringExecFns;

verus! {

/// A method of a class of the runtime: its formals and its return type. The
/// runtime holds the body.
fn runtime_method(formals: Vec<Formal>, return_type: TypeID) -> (r: Method)
    ensures
        r.expr is NoExpr,
        r.formals == formals,
        r.return_type == return_type,
        r.line_no == 0,
{
    Method { line_no: 0, formals, return_type, expr: Expression::NoExpr }
}

/// A formal of a method of the runtime.
fn runtime_formal(name: &str, type_decl: TypeID) -> (r: Formal)
    ensures
        r.name@ == name@,
        r.type_decl == type_decl,
{
    Formal { line_no: 0, name: ObjectID::new(String::from_str(name)), type_decl }
}

/// An attribute of a class of the runtime, which has no initializer.
fn runtime_attr(name: &str, type_decl: TypeID) -> (r: Attr)
    ensures
        r.init is NoExpr,
        r.name@ == name@,
        r.type_decl == type_decl,
{
    Attr {
        line_no: 0,
        name: ObjectID::new(String::from_str(name)),
        type_decl,
        init: Expression::NoExpr,
        self_offset: 0,
    }
}

/// A class of the runtime, before the analysis.
fn runtime_class(parent_name: Option<TypeID>, attrs: Vec<Attr>, methods: NameMap<Method>) -> (r:
    Class)
    requires
        methods.wf(),
        forall|i: int| 0 <= i < attrs.len() ==> (#[trigger] attrs[i]).init is NoExpr,
        forall|i: int| 0 <= i < methods.values().len() ==> (#[trigger] methods.values()[i]).expr is NoExpr,
    ensures
        r.wf(),
        r.parent_name == parent_name,
        r.basic,
        r.attrs == attrs,
        r.methods == methods,
{
    Class {
        file_name: String::new(),
        file_no: 0,
        basic: true,
        line_no: 0,
        parent_name,
        attrs,
        methods,
        family: 0..0,
        child_names: Vec::new(),
        method_name_to_pos: NameMap::new(),
        dispatch_table: Vec::new(),
    }
}

/// A method's signature as texts: its name, the names and types of its
/// formals, and its return type.
pub struct SigText {
    pub name: Seq<char>,
    pub formals: Seq<(Seq<char>, Seq<char>)>,
    pub return_type: Seq<char>,
}

/// The names and types of a list of formals.
pub open spec fn formal_texts(formals: Seq<Formal>) -> Seq<(Seq<char>, Seq<char>)> {
    Seq::new(formals.len(), |i: int| (formals[i].name@, formals[i].type_decl@))
}

/// The names and types of a list of attributes.
pub open spec fn attr_texts(attrs: Seq<Attr>) -> Seq<(Seq<char>, Seq<char>)> {
    Seq::new(attrs.len(), |i: int| (attrs[i].name@, attrs[i].type_decl@))
}

/// The signatures of the methods of a class, in the order of the methods.
pub open spec fn sig_texts(methods: NameMap<Method>) -> Seq<SigText> {
    Seq::new(
        methods.keys().len(),
        |i: int|
            SigText {
                name: methods.keys()[i],
                formals: formal_texts(methods.values()[i].formals@),
                return_type: methods.values()[i].return_type@,
            },
    )
}

/// The signatures of the methods of the runtime: those of `Object`, of
/// `IO` and of `String`, which are the classes at the places 0, 1 and 4.
/// `Int` and `Bool` have no methods.
pub open spec fn runtime_sigs(class: int) -> Seq<SigText> {
    if class == 0 {
        seq![
            SigText { name: "abort"@, formals: seq![], return_type: "Object"@ },
            SigText { name: "type_"@ + "name"@, formals: seq![], return_type: "String"@ },
            SigText { name: "copy"@, formals: seq![], return_type: "SELF_TYPE"@ },
        ]
    } else if class == 1 {
        seq![
            SigText {
                name: "out_string"@,
                formals: seq![("arg"@, "String"@)],
                return_type: "SELF_TYPE"@,
            },
            SigText {
                name: "out_int"@,
                formals: seq![("arg"@, "Int"@)],
                return_type: "SELF_TYPE"@,
            },
            SigText { name: "in_string"@, formals: seq![], return_type: "String"@ },
            SigText { name: "in_int"@, formals: seq![], return_type: "Int"@ },
        ]
    } else if class == 4 {
        seq![
            SigText { name: "length"@, formals: seq![], return_type: "Int"@ },
            SigText {
                name: "concat"@,
                formals: seq![("arg"@, "String"@)],
                return_type: "String"@,
            },
            SigText {
                name: "substr"@,
                formals: seq![("arg1"@, "Int"@), ("arg2"@, "Int"@)],
                return_type: "String"@,
            },
        ]
    } else {
        seq![]
    }
}

/// The attributes of the classes of the runtime: the value of an `Int` and
/// of a `Bool`, and the length and the text of a `String`.
pub open spec fn runtime_attrs(class: int) -> Seq<(Seq<char>, Seq<char>)> {
    if class == 2 || class == 3 {
        seq![("_val"@, "_prim_slot"@)]
    } else if class == 4 {
        seq![("_val"@, "Int"@), ("_str_field"@, "_prim_slot"@)]
    } else {
        seq![]
    }
}

/// The names of the methods of a class of the runtime differ.
proof fn lemma_method_names()
    ensures
        "abort"@.len() == 5,
        ("type_"@ + "name"@).len() == 9,
        "copy"@.len() == 4,
        "out_string"@.len() == 10,
        "out_int"@.len() == 7,
        "in_string"@.len() == 9,
        "in_int"@.len() == 6,
        "length"@[0] == 'l',
        "concat"@[0] == 'c',
        "substr"@[0] == 's',
{
    reveal_strlit("abort");
    reveal_strlit("type_");
    reveal_strlit("name");
    reveal_strlit("copy");
    reveal_strlit("out_string");
    reveal_strlit("out_int");
    reveal_strlit("in_string");
    reveal_strlit("in_int");
    reveal_strlit("length");
    reveal_strlit("concat");
    reveal_strlit("substr");
}

/// Adds a method to the methods of a class of the runtime.
fn add_method(methods: &mut NameMap<Method>, name: &str, formals: Vec<Formal>, return_type: TypeID)
    requires
        old(methods).wf(),
        !old(methods).contains_name(name@),
        forall|i: int|
            0 <= i < old(methods).values().len() ==> (#[trigger] old(methods).values()[i]).expr is NoExpr,
    ensures
        final(methods).wf(),
        forall|i: int|
            0 <= i < final(methods).values().len() ==> (#[trigger] final(methods).values()[i]).expr is NoExpr,
        sig_texts(*final(methods)) == sig_texts(*old(methods)).push(
            SigText {
                name: name@,
                formals: formal_texts(formals@),
                return_type: return_type@,
            },
        ),
{
    let ghost before = *methods;
    methods.insert(String::from_str(name), runtime_method(formals, return_type));
    proof {
        assert(sig_texts(*methods) =~= sig_texts(before).push(
            SigText {
                name: name@,
                formals: formal_texts(formals@),
                return_type: return_type@,
            },
        ));
        assert forall|i: int| 0 <= i < methods.values().len() implies (
        #[trigger] methods.values()[i]).expr is NoExpr by {
            if i < before.values().len() && before.position(name@) != Some(i) {
                assert(methods.values()[i] == before.values()[i]);
            }
        }
    }
}

/// The classes of the runtime, as a program holds them before the
/// analysis: the root class `Object`, and `IO`, `Int`, `Bool` and `String`,
/// which inherit from it. The methods have their signatures and no bodies.
pub fn initialize_classes() -> (r: NameMap<Class>)
    ensures
        classes_wf(&r),
        has_root(&r),
        r.keys() == seq!["Object"@, "IO"@, "Int"@, "Bool"@, "String"@],
        r.values()[0].parent_name is None,
        forall|i: int|
            1 <= i < 5 ==> ((#[trigger] r.values()[i]).parent_name matches Some(p) && p@
                == "Object"@),
        forall|i: int| 0 <= i < 5 ==> (#[trigger] r.values()[i]).basic,
        forall|i: int|
            0 <= i < 5 ==> sig_texts((#[trigger] r.values()[i]).methods) == runtime_sigs(i),
        forall|i: int|
            0 <= i < 5 ==> attr_texts((#[trigger] r.values()[i]).attrs@) == runtime_attrs(i),
{
    proof {
        lemma_reserved_names();
        lemma_method_names();
    }
    let mut classes: NameMap<Class> = NameMap::new();

    let mut methods: NameMap<Method> = NameMap::new();
    assert(sig_texts(methods) =~= seq![]);
    add_method(&mut methods, "abort", Vec::new(), TypeID::new_object());
    let mut name_of_type = String::from_str("type_");
    name_of_type.append("name");
    assert(sig_texts(methods).len() == 1);
    assert(methods.keys() =~= seq![sig_texts(methods)[0].name]);
    add_method(&mut methods, name_of_type.as_str(), Vec::new(), TypeID::new_string());
    assert(sig_texts(methods).len() == 2);
    assert(methods.keys() =~= seq![sig_texts(methods)[0].name, sig_texts(methods)[1].name]);
    add_method(&mut methods, "copy", Vec::new(), TypeID::new_self_type());
    assert(sig_texts(methods) =~= runtime_sigs(0)) by {
        assert(formal_texts(Seq::<Formal>::empty()) =~= seq![]);
    }
    let object = runtime_class(None, Vec::new(), methods);
    assert(attr_texts(object.attrs@) =~= runtime_attrs(0));
    classes.insert(String::from_str("Object"), object);
    let ghost c1 = classes;

    let mut methods: NameMap<Method> = NameMap::new();
    assert(sig_texts(methods) =~= seq![]);
    let mut formals: Vec<Formal> = Vec::new();
    formals.push(runtime_formal("arg", TypeID::new_string()));
    assert(formal_texts(formals@) =~= seq![("arg"@, "String"@)]);
    add_method(&mut methods, "out_string", formals, TypeID::new_self_type());
    let mut formals: Vec<Formal> = Vec::new();
    formals.push(runtime_formal("arg", TypeID::new_int()));
    assert(formal_texts(formals@) =~= seq![("arg"@, "Int"@)]);
    assert(sig_texts(methods).len() == 1);
    assert(methods.keys() =~= seq![sig_texts(methods)[0].name]);
    add_method(&mut methods, "out_int", formals, TypeID::new_self_type());
    assert(sig_texts(methods).len() == 2);
    assert(methods.keys() =~= seq![sig_texts(methods)[0].name, sig_texts(methods)[1].name]);
    add_method(&mut methods, "in_string", Vec::new(), TypeID::new_string());
    assert(sig_texts(methods).len() == 3);
    assert(methods.keys() =~= seq![
        sig_texts(methods)[0].name,
        sig_texts(methods)[1].name,
        sig_texts(methods)[2].name,
    ]);
    add_method(&mut methods, "in_int", Vec::new(), TypeID::new_int());
    assert(sig_texts(methods) =~= runtime_sigs(1)) by {
        assert(formal_texts(Seq::<Formal>::empty()) =~= seq![]);
    }
    let io = runtime_class(Some(TypeID::new_object()), Vec::new(), methods);
    assert(attr_texts(io.attrs@) =~= runtime_attrs(1));
    classes.insert(String::from_str("IO"), io);
    let ghost c2 = classes;

    let mut attrs: Vec<Attr> = Vec::new();
    attrs.push(runtime_attr("_val", TypeID::new(String::from_str("_prim_slot"))));
    assert(attr_texts(attrs@) =~= runtime_attrs(2));
    let int_class = runtime_class(Some(TypeID::new_object()), attrs, NameMap::new());
    assert(sig_texts(int_class.methods) =~= runtime_sigs(2));
    classes.insert(String::from_str("Int"), int_class);
    let ghost c3 = classes;

    let mut attrs: Vec<Attr> = Vec::new();
    attrs.push(runtime_attr("_val", TypeID::new(String::from_str("_prim_slot"))));
    assert(attr_texts(attrs@) =~= runtime_attrs(3));
    let bool_class = runtime_class(Some(TypeID::new_object()), attrs, NameMap::new());
    assert(sig_texts(bool_class.methods) =~= runtime_sigs(3));
    classes.insert(String::from_str("Bool"), bool_class);
    let ghost c4 = classes;

    let mut attrs: Vec<Attr> = Vec::new();
    attrs.push(runtime_attr("_val", TypeID::new_int()));
    attrs.push(runtime_attr("_str_field", TypeID::new(String::from_str("_prim_slot"))));
    assert(attr_texts(attrs@) =~= runtime_attrs(4));
    let mut methods: NameMap<Method> = NameMap::new();
    assert(sig_texts(methods) =~= seq![]);
    add_method(&mut methods, "length", Vec::new(), TypeID::new_int());
    let mut formals: Vec<Formal> = Vec::new();
    formals.push(runtime_formal("arg", TypeID::new_string()));
    assert(formal_texts(formals@) =~= seq![("arg"@, "String"@)]);
    assert(sig_texts(methods).len() == 1);
    assert(methods.keys() =~= seq![sig_texts(methods)[0].name]);
    add_method(&mut methods, "concat", formals, TypeID::new_string());
    let mut formals: Vec<Formal> = Vec::new();
    formals.push(runtime_formal("arg1", TypeID::new_int()));
    formals.push(runtime_formal("arg2", TypeID::new_int()));
    assert(formal_texts(formals@) =~= seq![("arg1"@, "Int"@), ("arg2"@, "Int"@)]);
    assert(sig_texts(methods).len() == 2);
    assert(methods.keys() =~= seq![sig_texts(methods)[0].name, sig_texts(methods)[1].name]);
    add_method(&mut methods, "substr", formals, TypeID::new_string());
    assert(sig_texts(methods) =~= runtime_sigs(4)) by {
        assert(formal_texts(Seq::<Formal>::empty()) =~= seq![]);
    }
    let string = runtime_class(Some(TypeID::new_object()), attrs, methods);
    classes.insert(String::from_str("String"), string);

    proof {
        assert(c1.keys() =~= seq!["Object"@]);
        assert(c2.keys() =~= seq!["Object"@, "IO"@]);
        assert(c3.keys() =~= seq!["Object"@, "IO"@, "Int"@]);
        assert(c4.keys() =~= seq!["Object"@, "IO"@, "Int"@, "Bool"@]);
        assert(classes.keys() =~= seq!["Object"@, "IO"@, "Int"@, "Bool"@, "String"@]);
        assert(classes.keys()[0] == "Object"@);
        crate::name_table::lemma_position_of(classes.keys(), 0);
        assert(classes.values()[0] == c1.values()[0]);
        assert forall|i: int| 0 <= i < 5 implies (#[trigger] classes.values()[i]).basic && (i >= 1
            ==> (classes.values()[i].parent_name matches Some(p) && p@ == "Object"@)) by {
            if i == 0 {
                assert(classes.values()[0] == c1.values()[0]);
            } else if i == 1 {
                assert(classes.values()[1] == c2.values()[1]);
            } else if i == 2 {
                assert(classes.values()[2] == c3.values()[2]);
            } else if i == 3 {
                assert(classes.values()[3] == c4.values()[3]);
            }
        }
        assert forall|i: int| 0 <= i < 5 implies sig_texts(
            (#[trigger] classes.values()[i]).methods,
        ) == runtime_sigs(i) && attr_texts(classes.values()[i].attrs@) == runtime_attrs(i) by {
            if i == 0 {
                assert(classes.values()[0] == c1.values()[0]);
            } else if i == 1 {
                assert(classes.values()[1] == c2.values()[1]);
            } else if i == 2 {
                assert(classes.values()[2] == c3.values()[2]);
            } else if i == 3 {
                assert(classes.values()[3] == c4.values()[3]);
            }
        }
        assert forall|i: int| 0 <= i < classes.values().len() implies (#[trigger] classes.values()[i]).wf() by {
            if i == 0 {
                assert(classes.values()[0] == c1.values()[0]);
            } else if i == 1 {
                assert(classes.values()[1] == c2.values()[1]);
            } else if i == 2 {
                assert(classes.values()[2] == c3.values()[2]);
            } else if i == 3 {
                assert(classes.values()[3] == c4.values()[3]);
            }
        }
    }
    classes
}

} // verus!
