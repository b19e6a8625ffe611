use coolc::ast::{Attr, Branch, Class, Expression, Formal, Method, ObjectID, TypeID};
use coolc::builtins::initialize_classes;
use coolc::error::{ErrorKind, SemantError};
use coolc::name_table::{IntSet, NameMap, NameSet};
use coolc::semant::build_inheritiance_tree::build_inheritiance_tree;
use coolc::semant::first_pass::first_pass;
use coolc::semant::first_pass::first_pass_expr::{first_pass_expr, sort_branches};
use coolc::semant::first_pass::layout::Slot;

fn tid(name: &str) -> TypeID {
    TypeID::new(name.to_string())
}

fn oid(name: &str) -> ObjectID {
    ObjectID::new(name.to_string())
}

fn num(val: u32) -> Expression {
    Expression::IntConst { line_no: 1, val }
}

fn text(val: &str) -> Expression {
    Expression::StringConst { line_no: 1, val: val.to_string(), val_id: 99 }
}

fn attr(line_no: i16, name: &str, type_decl: &str, init: Expression) -> Attr {
    Attr { line_no, name: oid(name), type_decl: tid(type_decl), init, self_offset: 0 }
}

fn method(line_no: i16, formals: Vec<(&str, &str)>, return_type: &str, expr: Expression) -> Method {
    Method {
        line_no,
        formals: formals
            .into_iter()
            .map(|(n, t)| Formal { line_no, name: oid(n), type_decl: tid(t) })
            .collect(),
        return_type: tid(return_type),
        expr,
    }
}

fn class(parent: &str, attrs: Vec<Attr>, methods: Vec<(&str, Method)>) -> Class {
    let mut map: NameMap<Method> = NameMap::new();
    for (name, m) in methods {
        map.insert(name.to_string(), m);
    }
    Class {
        file_name: "prog.cl".to_string(),
        file_no: 1,
        basic: false,
        line_no: 1,
        parent_name: Some(tid(parent)),
        attrs,
        methods: map,
        family: 0..0,
        child_names: Vec::new(),
        method_name_to_pos: NameMap::new(),
        dispatch_table: Vec::new(),
    }
}

struct Passed {
    classes: NameMap<Class>,
    slots: Vec<NameMap<Slot>>,
    ints: Vec<u32>,
    strs: Vec<String>,
}

fn pass(classes: Vec<(&str, Class)>) -> Result<Passed, SemantError> {
    let mut table = initialize_classes();
    for (name, c) in classes {
        table.insert(name.to_string(), c);
    }
    let table = build_inheritiance_tree(table)?;
    let mut ints = IntSet::new();
    let mut strs = NameSet::new();
    ints.insert(0);
    strs.insert(String::new());
    let (classes, slots) = first_pass(table, &mut ints, &mut strs)?;
    let strs: Vec<String> = (0..strs.len()).map(|i| strs.get(i).clone()).collect();
    Ok(Passed { classes, slots, ints: ints.to_vec(), strs })
}

fn fail(classes: Vec<(&str, Class)>) -> SemantError {
    match pass(classes) {
        Ok(_) => panic!("the first pass accepts the program"),
        Err(e) => e,
    }
}

fn with_body(body: Expression) -> Vec<(&'static str, Class)> {
    vec![("A", class("Object", vec![], vec![("m", method(5, vec![], "Object", body))]))]
}

fn dispatch_table(passed: &Passed, name: &str) -> Vec<(String, String)> {
    passed
        .classes
        .get(name)
        .unwrap()
        .dispatch_table
        .iter()
        .map(|(c, m)| (c.as_str().to_string(), m.as_str().to_string()))
        .collect()
}

fn slot_of(passed: &Passed, class: &str, method: &str) -> i16 {
    *passed.classes.get(class).unwrap().method_name_to_pos.get(method).unwrap()
}

fn offsets(passed: &Passed, name: &str) -> Vec<i16> {
    passed.classes.get(name).unwrap().attrs.iter().map(|a| a.self_offset).collect()
}

#[test]
fn override_with_the_same_signature_keeps_the_slot() {
    let passed = pass(vec![
        ("A", class("Object", vec![], vec![("m", method(2, vec![("x", "Int")], "Int", num(1)))])),
        ("B", class("A", vec![], vec![("m", method(7, vec![("y", "Int")], "Int", num(2)))])),
    ])
    .unwrap();
    assert_eq!(slot_of(&passed, "A", "m"), 3);
    assert_eq!(slot_of(&passed, "B", "m"), slot_of(&passed, "A", "m"));
    assert_eq!(dispatch_table(&passed, "A")[3], ("A".to_string(), "m".to_string()));
    assert_eq!(dispatch_table(&passed, "B")[3], ("B".to_string(), "m".to_string()));
    assert_eq!(dispatch_table(&passed, "B").len(), 4);
}

#[test]
fn override_with_another_return_type_is_refused() {
    let err = fail(vec![
        ("A", class("Object", vec![], vec![("m", method(2, vec![], "Int", num(1)))])),
        (
            "B",
            class(
                "A",
                vec![],
                vec![("m", method(7, vec![], "Bool", Expression::BoolConst { line_no: 7, val: true }))],
            ),
        ),
    ]);
    assert_eq!(err.kind, ErrorKind::OverrideReturnType);
    assert_eq!(err.file_name, "prog.cl");
    assert_eq!(err.line_no, 7);
    assert_eq!(err.names, vec!["m", "Bool", "Int", "B"]);
    assert_eq!(
        err.message(),
        "prog.cl : 7 - In redefined method m of class B, return type Bool is different from original return type Int."
    );
}

#[test]
fn slots_stay_along_a_chain_of_classes() {
    let passed = pass(vec![
        (
            "A",
            class(
                "Object",
                vec![],
                vec![("m", method(2, vec![], "Int", num(1))), ("n", method(3, vec![], "Int", num(1)))],
            ),
        ),
        ("B", class("A", vec![], vec![("p", method(4, vec![], "Int", num(1)))])),
        (
            "C",
            class(
                "B",
                vec![],
                vec![("n", method(5, vec![], "Int", num(1))), ("q", method(6, vec![], "Int", num(1)))],
            ),
        ),
        ("D", class("A", vec![], vec![("r", method(7, vec![], "Int", num(1)))])),
    ])
    .unwrap();
    let own = |c: &str, m: &str| (c.to_string(), m.to_string());
    let object = vec![own("Object", "abort"), own("Object", &["type", "name"].join("_")), own("Object", "copy")];
    assert_eq!(dispatch_table(&passed, "Object"), object);
    let mut a = object.clone();
    a.extend(vec![own("A", "m"), own("A", "n")]);
    assert_eq!(dispatch_table(&passed, "A"), a);
    let mut b = a.clone();
    b.push(own("B", "p"));
    assert_eq!(dispatch_table(&passed, "B"), b);
    let mut c = object.clone();
    c.extend(vec![own("A", "m"), own("C", "n"), own("B", "p"), own("C", "q")]);
    assert_eq!(dispatch_table(&passed, "C"), c);
    let mut d = a.clone();
    d.push(own("D", "r"));
    assert_eq!(dispatch_table(&passed, "D"), d);
    assert_eq!(slot_of(&passed, "B", "p"), 5);
    assert_eq!(slot_of(&passed, "D", "r"), 5);
    assert_eq!(slot_of(&passed, "C", "n"), 4);
    assert_eq!(slot_of(&passed, "C", "abort"), 0);
    assert_eq!(passed.classes.get("C").unwrap().method_name_to_pos.len(), 7);
}

#[test]
fn runtime_classes_get_their_tables() {
    let passed = pass(vec![]).unwrap();
    assert_eq!(dispatch_table(&passed, "IO").len(), 7);
    assert_eq!(dispatch_table(&passed, "IO")[3], ("IO".to_string(), "out_string".to_string()));
    assert_eq!(dispatch_table(&passed, "IO")[6], ("IO".to_string(), "in_int".to_string()));
    assert_eq!(dispatch_table(&passed, "Int").len(), 3);
    assert_eq!(slot_of(&passed, "String", "substr"), 5);
    assert_eq!(offsets(&passed, "Int"), vec![3]);
    assert_eq!(offsets(&passed, "String"), vec![3, 4]);
    assert_eq!(passed.ints, vec![0]);
    assert_eq!(passed.strs, vec![String::new()]);
}

#[test]
fn slots_carry_the_signatures() {
    let passed = pass(vec![(
        "A",
        class("Object", vec![], vec![("m", method(2, vec![("x", "Int"), ("y", "A")], "Bool", num(1)))]),
    )])
    .unwrap();
    assert_eq!(passed.slots.len(), 6);
    let slots = &passed.slots[5];
    assert_eq!(slots.len(), 4);
    assert_eq!(slots.key(3), "m");
    let slot = slots.get("m").unwrap();
    assert_eq!(slot.owner.as_str(), "A");
    assert_eq!(slot.return_type.as_str(), "Bool");
    assert_eq!(slot.formal_types.len(), 2);
    assert_eq!(slot.formal_types[0].as_str(), "Int");
    assert_eq!(slot.formal_types[1].as_str(), "A");
    assert_eq!(slots.get("copy").unwrap().owner.as_str(), "Object");
    assert_eq!(slots.get("copy").unwrap().return_type.as_str(), "SELF_TYPE");
}

#[test]
fn offsets_count_on_from_the_parent() {
    let passed = pass(vec![
        ("B", class("A", vec![attr(1, "z", "Int", Expression::NoExpr)], vec![])),
        (
            "A",
            class(
                "Object",
                vec![attr(1, "x", "Int", Expression::NoExpr), attr(2, "y", "A", Expression::NoExpr)],
                vec![],
            ),
        ),
        ("C", class("B", vec![], vec![])),
        (
            "D",
            class(
                "C",
                vec![attr(1, "u", "SELF_TYPE", Expression::NoExpr), attr(2, "v", "D", Expression::NoExpr)],
                vec![],
            ),
        ),
        ("E", class("A", vec![attr(1, "w", "Bool", Expression::NoExpr)], vec![])),
    ])
    .unwrap();
    assert_eq!(offsets(&passed, "A"), vec![3, 4]);
    assert_eq!(offsets(&passed, "B"), vec![5]);
    assert_eq!(offsets(&passed, "D"), vec![6, 7]);
    assert_eq!(offsets(&passed, "E"), vec![5]);
}

#[test]
fn attribute_named_like_an_inherited_one_is_refused() {
    let err = fail(vec![
        ("A", class("Object", vec![attr(2, "x", "Int", Expression::NoExpr)], vec![])),
        ("B", class("A", vec![], vec![])),
        ("C", class("B", vec![attr(9, "x", "String", Expression::NoExpr)], vec![])),
    ]);
    assert_eq!(err.kind, ErrorKind::AttrInherited);
    assert_eq!(err.line_no, 9);
    assert_eq!(err.names, vec!["x"]);
    let same_type = fail(vec![
        ("A", class("Object", vec![attr(2, "x", "Int", Expression::NoExpr)], vec![])),
        ("B", class("A", vec![attr(3, "x", "Int", Expression::NoExpr)], vec![])),
    ]);
    assert_eq!(same_type.kind, ErrorKind::AttrInherited);
}

#[test]
fn siblings_may_share_attribute_names() {
    let passed = pass(vec![
        ("A", class("Object", vec![attr(2, "x", "Int", Expression::NoExpr)], vec![])),
        ("B", class("Object", vec![attr(3, "x", "Int", Expression::NoExpr)], vec![])),
    ])
    .unwrap();
    assert_eq!(offsets(&passed, "A"), vec![3]);
    assert_eq!(offsets(&passed, "B"), vec![3]);
}

#[test]
fn attribute_faults() {
    let err = fail(vec![("A", class("Object", vec![attr(4, "self", "Int", Expression::NoExpr)], vec![]))]);
    assert_eq!(err.kind, ErrorKind::AttrNamedSelf);
    assert_eq!(err.line_no, 4);
    let err = fail(vec![(
        "A",
        class(
            "Object",
            vec![attr(4, "x", "Int", Expression::NoExpr), attr(5, "x", "Bool", Expression::NoExpr)],
            vec![],
        ),
    )]);
    assert_eq!(err.kind, ErrorKind::AttrMultiplyDefined);
    assert_eq!(err.line_no, 5);
    assert_eq!(err.names, vec!["x"]);
    let err = fail(vec![("A", class("Object", vec![attr(4, "x", "Nowhere", Expression::NoExpr)], vec![]))]);
    assert_eq!(err.kind, ErrorKind::AttrTypeUndefined);
    assert_eq!(err.names, vec!["Nowhere", "x"]);
    assert_eq!(err.message(), "prog.cl : 4 - Class Nowhere of attribute x is undefined.");
}

#[test]
fn too_many_attributes() {
    let attrs: Vec<Attr> =
        (0..32766).map(|i| attr(1, &format!("a{}", i), "Int", Expression::NoExpr)).collect();
    let err = fail(vec![("A", class("Object", attrs, vec![]))]);
    assert_eq!(err.kind, ErrorKind::TooManyAttributes);
    assert_eq!(err.names, vec!["a32765"]);
    let attrs: Vec<Attr> =
        (0..32765).map(|i| attr(1, &format!("a{}", i), "Int", Expression::NoExpr)).collect();
    let passed = pass(vec![("A", class("Object", attrs, vec![]))]).unwrap();
    assert_eq!(*offsets(&passed, "A").last().unwrap(), 32767);
}

#[test]
fn too_many_methods() {
    let names: Vec<String> = (0..32766).map(|i| format!("m{}", i)).collect();
    let methods: Vec<(&str, Method)> =
        names.iter().map(|n| (n.as_str(), method(1, vec![], "Int", num(1)))).collect();
    let err = fail(vec![("A", class("Object", vec![], methods))]);
    assert_eq!(err.kind, ErrorKind::TooManyMethods);
    assert_eq!(err.names, vec!["m32765"]);
}

#[test]
fn method_faults() {
    let one = |m: Method| fail(vec![("A", class("Object", vec![], vec![("m", m)]))]);
    let err = one(method(3, vec![("x", "SELF_TYPE")], "Int", num(1)));
    assert_eq!(err.kind, ErrorKind::FormalSelfType);
    assert_eq!(err.names, vec!["x"]);
    assert_eq!(err.line_no, 3);
    let err = one(method(3, vec![("self", "Int")], "Int", num(1)));
    assert_eq!(err.kind, ErrorKind::FormalNamedSelf);
    let err = one(method(3, vec![("x", "Nowhere")], "Int", num(1)));
    assert_eq!(err.kind, ErrorKind::FormalTypeUndefined);
    assert_eq!(err.names, vec!["Nowhere", "x"]);
    let err = one(method(3, vec![("x", "Int"), ("y", "Int"), ("x", "Bool")], "Int", num(1)));
    assert_eq!(err.kind, ErrorKind::FormalMultiplyDefined);
    assert_eq!(err.names, vec!["x"]);
    let err = one(method(3, vec![], "Nowhere", num(1)));
    assert_eq!(err.kind, ErrorKind::ReturnTypeUndefined);
    assert_eq!(err.names, vec!["Nowhere", "m"]);
    let err = one(method(3, vec![("x", "_prim_slot")], "Int", num(1)));
    assert_eq!(err.kind, ErrorKind::FormalTypeUndefined);
}

#[test]
fn override_faults() {
    let base = || ("A", class("Object", vec![], vec![("m", method(2, vec![("x", "Int"), ("y", "A")], "Int", num(1)))]));
    let err = fail(vec![base(), ("B", class("A", vec![], vec![("m", method(8, vec![("x", "Int")], "Int", num(1)))]))]);
    assert_eq!(err.kind, ErrorKind::OverrideFormalCount);
    assert_eq!(err.names, vec!["m", "B"]);
    assert_eq!(
        err.message(),
        "prog.cl : 8 - Incompatible number of formal parameters in redefined method m of class B."
    );
    let err = fail(vec![
        base(),
        ("B", class("A", vec![], vec![("m", method(8, vec![("x", "Int"), ("y", "B")], "Int", num(1)))])),
    ]);
    assert_eq!(err.kind, ErrorKind::OverrideFormalType);
    assert_eq!(err.names, vec!["m", "B", "A", "B"]);
    assert_eq!(err.line_no, 8);
    assert_eq!(
        err.message(),
        "prog.cl : 8 - In redefined method m of class B, parameter type B is different from original type A."
    );
    let err = fail(vec![
        base(),
        ("B", class("A", vec![], vec![])),
        ("C", class("B", vec![], vec![("m", method(9, vec![("x", "Int"), ("y", "A")], "Object", num(1)))])),
    ]);
    assert_eq!(err.kind, ErrorKind::OverrideReturnType);
    assert_eq!(err.names, vec!["m", "Object", "Int", "C"]);
    let err = fail(vec![("A", class("Object", vec![], vec![("copy", method(2, vec![], "A", num(1)))]))]);
    assert_eq!(err.kind, ErrorKind::OverrideReturnType);
    assert_eq!(err.names, vec!["copy", "A", "SELF_TYPE", "A"]);
}

#[test]
fn first_violation_in_walk_order_is_reported() {
    let err = fail(vec![
        ("B", class("A", vec![attr(1, "self", "Int", Expression::NoExpr)], vec![])),
        ("A", class("Object", vec![attr(2, "x", "Nowhere", Expression::NoExpr)], vec![])),
    ]);
    assert_eq!(err.kind, ErrorKind::AttrTypeUndefined);
    let err = fail(vec![(
        "A",
        class(
            "Object",
            vec![attr(2, "x", "Int", Expression::New { line_no: 2, type_id: tid("Nowhere") })],
            vec![("m", method(3, vec![("self", "Int")], "Int", num(1)))],
        ),
    )]);
    assert_eq!(err.kind, ErrorKind::NewUndefined);
}

#[test]
fn constants_are_collected_once_in_order() {
    let body = Expression::Block {
        line_no: 1,
        body: vec![num(7), text("hello"), num(7), text("hi"), text("hello"), num(5), text("")],
    };
    let passed = pass(vec![
        ("A", class("Object", vec![attr(1, "x", "Int", num(42))], vec![("m", method(2, vec![], "Object", body))])),
        ("B", class("A", vec![attr(1, "y", "String", text("hi"))], vec![])),
    ])
    .unwrap();
    assert_eq!(passed.ints, vec![0, 42, 7, 5, 2]);
    assert_eq!(passed.strs, vec!["", "hello", "hi"]);
    let a = passed.classes.get("A").unwrap();
    match &a.methods.get("m").unwrap().expr {
        Expression::Block { body, .. } => {
            let ids: Vec<Option<u32>> = body
                .iter()
                .map(|e| match e {
                    Expression::StringConst { val_id, .. } => Some(*val_id),
                    _ => None,
                })
                .collect();
            assert_eq!(ids, vec![None, Some(1), None, Some(2), Some(1), None, Some(0)]);
        },
        _ => panic!("the body is no block"),
    }
    match &passed.classes.get("B").unwrap().attrs[0].init {
        Expression::StringConst { val_id, val, .. } => {
            assert_eq!(*val_id, 2);
            assert_eq!(val, "hi");
        },
        _ => panic!("the initializer is no string"),
    }
}

#[test]
fn string_lengths_count_bytes() {
    let passed = pass(with_body(text("h\u{e9}llo"))).unwrap();
    assert_eq!(passed.ints, vec![0, 6]);
}

#[test]
fn expression_pass_outside_a_table_walk() {
    let table = build_inheritiance_tree(initialize_classes()).unwrap();
    let mut ints = IntSet::new();
    let mut strs = NameSet::new();
    strs.insert("seen".to_string());
    let expr = Expression::Cond {
        line_no: 1,
        pred: Box::new(text("seen")),
        then_expr: Box::new(text("new")),
        else_expr: Box::new(num(4)),
        static_type: tid("_no_type"),
    };
    let out = first_pass_expr(expr, &table, &tid("Int"), &(2..3), "f.cl", &mut ints, &mut strs)
        .unwrap();
    assert_eq!(ints.to_vec(), vec![3, 4]);
    assert_eq!(strs.len(), 2);
    match out {
        Expression::Cond { pred, then_expr, .. } => {
            assert!(matches!(*pred, Expression::StringConst { val_id: 0, .. }));
            assert!(matches!(*then_expr, Expression::StringConst { val_id: 1, .. }));
        },
        _ => panic!("the shape has changed"),
    }
}

fn branch(line_no: i16, name: &str, type_decl: &str) -> Branch {
    Branch { line_no, name: oid(name), type_decl: tid(type_decl), expr: num(1), family: 0..0 }
}

fn case(branches: Vec<Branch>) -> Expression {
    Expression::TypeCase {
        line_no: 1,
        expr: Box::new(num(1)),
        branches,
        static_type: tid("_no_type"),
    }
}

fn branches_of(passed: &Passed) -> Vec<(String, u32, u32)> {
    match &passed.classes.get("A").unwrap().methods.get("m").unwrap().expr {
        Expression::TypeCase { branches, .. } => branches
            .iter()
            .map(|b| (b.type_decl.as_str().to_string(), b.family.start, b.family.end))
            .collect(),
        _ => panic!("the body is no type-case"),
    }
}

#[test]
fn branches_stand_with_the_most_derived_class_first() {
    let passed = pass(with_body(case(vec![branch(2, "o", "Object"), branch(3, "i", "IO")])))
        .unwrap();
    assert_eq!(
        branches_of(&passed),
        vec![("IO".to_string(), 1, 2), ("Object".to_string(), 0, 6)]
    );
    let passed = pass(with_body(case(vec![
        branch(2, "a", "Int"),
        branch(3, "b", "A"),
        branch(4, "c", "Object"),
        branch(5, "d", "String"),
    ])))
    .unwrap();
    let order: Vec<String> = branches_of(&passed).into_iter().map(|b| b.0).collect();
    assert_eq!(order, vec!["A", "String", "Int", "Object"]);
    assert_eq!(branches_of(&passed)[0], ("A".to_string(), 5, 6));
}

#[test]
fn sorting_branches_keeps_every_branch() {
    let mut branches: Vec<Branch> = Vec::new();
    for (i, start) in [3u32, 9, 1, 9, 0, 4].into_iter().enumerate() {
        let mut b = branch(i as i16, "x", "Object");
        b.family = start..start + 1;
        branches.push(b);
    }
    let sorted = sort_branches(branches);
    let starts: Vec<u32> = sorted.iter().map(|b| b.family.start).collect();
    assert_eq!(starts, vec![9, 9, 4, 3, 1, 0]);
    let mut lines: Vec<i16> = sorted.iter().map(|b| b.line_no).collect();
    lines.sort();
    assert_eq!(lines, vec![0, 1, 2, 3, 4, 5]);
    assert!(sort_branches(Vec::new()).is_empty());
}

#[test]
fn branch_faults() {
    let err = fail(with_body(case(vec![branch(2, "o", "Object"), branch(3, "i", "Object")])));
    assert_eq!(err.kind, ErrorKind::DuplicateBranch);
    assert_eq!(err.line_no, 3);
    assert_eq!(err.names, vec!["Object"]);
    let err = fail(with_body(case(vec![branch(2, "self", "Object")])));
    assert_eq!(err.kind, ErrorKind::CaseBindsSelf);
    assert_eq!(err.line_no, 2);
    let err = fail(with_body(case(vec![branch(2, "x", "Nowhere")])));
    assert_eq!(err.kind, ErrorKind::BranchTypeUndefined);
    assert_eq!(err.names, vec!["Nowhere"]);
    assert_eq!(err.message(), "prog.cl : 2 : Class Nowhere of case branch is undefined.");
    let err = fail(with_body(case(vec![branch(2, "x", "SELF_TYPE")])));
    assert_eq!(err.kind, ErrorKind::BranchTypeUndefined);
}

#[test]
fn expression_faults() {
    let err = fail(with_body(Expression::Assign { line_no: 6, name: oid("self"), expr: Box::new(num(1)) }));
    assert_eq!(err.kind, ErrorKind::AssignToSelf);
    assert_eq!(err.line_no, 6);
    let dispatch = |t: &str| Expression::Dispatch {
        line_no: 7,
        expr: Box::new(num(1)),
        type_id: Some(tid(t)),
        name: oid("copy"),
        args: Vec::new(),
        static_type: tid("_no_type"),
    };
    let err = fail(with_body(dispatch("SELF_TYPE")));
    assert_eq!(err.kind, ErrorKind::StaticDispatchSelfType);
    let err = fail(with_body(dispatch("Nowhere")));
    assert_eq!(err.kind, ErrorKind::StaticDispatchUndefined);
    assert_eq!(err.names, vec!["Nowhere"]);
    assert!(pass(with_body(dispatch("A"))).is_ok());
    let binding = |name: &str, t: &str| Expression::Let {
        line_no: 8,
        identifier: oid(name),
        type_decl: tid(t),
        init: Box::new(Expression::NoExpr),
        body: Box::new(num(1)),
    };
    let err = fail(with_body(binding("self", "Int")));
    assert_eq!(err.kind, ErrorKind::LetBindsSelf);
    let err = fail(with_body(binding("x", "Nowhere")));
    assert_eq!(err.kind, ErrorKind::LetTypeUndefined);
    assert_eq!(err.names, vec!["Nowhere", "x"]);
    assert!(pass(with_body(binding("x", "SELF_TYPE"))).is_ok());
    let err = fail(with_body(Expression::New { line_no: 9, type_id: tid("Nowhere") }));
    assert_eq!(err.kind, ErrorKind::NewUndefined);
    assert_eq!(err.line_no, 9);
    assert!(pass(with_body(Expression::New { line_no: 9, type_id: tid("SELF_TYPE") })).is_ok());
}

#[test]
fn declarations_survive_the_first_pass() {
    let passed = pass(vec![(
        "A",
        class(
            "Object",
            vec![attr(3, "x", "Int", num(1))],
            vec![("m", method(4, vec![("p", "Int")], "SELF_TYPE", num(2)))],
        ),
    )])
    .unwrap();
    let a = passed.classes.get("A").unwrap();
    assert_eq!(a.family, 5..6);
    assert_eq!(a.parent_name.as_ref().unwrap().as_str(), "Object");
    assert_eq!(a.attrs[0].name.as_str(), "x");
    assert_eq!(a.attrs[0].type_decl.as_str(), "Int");
    assert_eq!(a.attrs[0].line_no, 3);
    let m = a.methods.get("m").unwrap();
    assert_eq!(m.line_no, 4);
    assert_eq!(m.formals[0].name.as_str(), "p");
    assert_eq!(m.return_type.as_str(), "SELF_TYPE");
    assert!(matches!(m.expr, Expression::IntConst { val: 2, .. }));
    assert_eq!(passed.classes.get("Object").unwrap().child_names.len(), 5);
}
