use coolc::ast::{
    ArithOpType, Attr, Branch, Class, CompType, Expression, Formal, Method, ObjectID, TypeID,
};
use coolc::builtins::initialize_classes;
use coolc::error::{ErrorKind, SemantError};
use coolc::name_table::NameMap;
use coolc::scoped_collections::ScopedIndexMap;
use coolc::semant::build_inheritiance_tree::build_inheritiance_tree;
use coolc::semant::first_pass::layout::Slot;
use coolc::semant::second_pass::second_pass_expr::second_pass_expr;
use coolc::semant::verify_main::verify_main;
use coolc::semant::{semant, signatures, strings_of, tree_maps_of};
use std::ops::Range;

fn tid(name: &str) -> TypeID {
    TypeID::new(name.to_string())
}

fn oid(name: &str) -> ObjectID {
    ObjectID::new(name.to_string())
}

fn unknown() -> TypeID {
    TypeID::new_no_type()
}

fn number(val: u32) -> Expression {
    Expression::IntConst { line_no: 1, val }
}

fn truth(val: bool) -> Expression {
    Expression::BoolConst { line_no: 1, val }
}

fn string(val: &str) -> Expression {
    Expression::StringConst { line_no: 1, val: val.to_string(), val_id: 0 }
}

fn create(type_id: &str) -> Expression {
    Expression::New { line_no: 1, type_id: tid(type_id) }
}

fn var(name: &str) -> Expression {
    Expression::Object { line_no: 1, name: oid(name), static_type: unknown() }
}

fn call(receiver: Expression, name: &str, args: Vec<Expression>) -> Expression {
    Expression::Dispatch {
        line_no: 20,
        expr: Box::new(receiver),
        type_id: None,
        name: oid(name),
        args,
        static_type: unknown(),
    }
}

fn static_call(receiver: Expression, class: &str, name: &str, args: Vec<Expression>) -> Expression {
    Expression::Dispatch {
        line_no: 21,
        expr: Box::new(receiver),
        type_id: Some(tid(class)),
        name: oid(name),
        args,
        static_type: unknown(),
    }
}

fn cond(pred: Expression, then_expr: Expression, else_expr: Expression) -> Expression {
    Expression::Cond {
        line_no: 22,
        pred: Box::new(pred),
        then_expr: Box::new(then_expr),
        else_expr: Box::new(else_expr),
        static_type: unknown(),
    }
}

fn binding(name: &str, type_decl: &str, init: Expression, body: Expression) -> Expression {
    Expression::Let {
        line_no: 23,
        identifier: oid(name),
        type_decl: tid(type_decl),
        init: Box::new(init),
        body: Box::new(body),
    }
}

fn assign(name: &str, expr: Expression) -> Expression {
    Expression::Assign { line_no: 24, name: oid(name), expr: Box::new(expr) }
}

fn case(scrutinee: Expression, branches: Vec<(&str, &str, Expression)>) -> Expression {
    Expression::TypeCase {
        line_no: 25,
        expr: Box::new(scrutinee),
        branches: branches
            .into_iter()
            .map(|(n, t, e)| Branch {
                line_no: 26,
                name: oid(n),
                type_decl: tid(t),
                expr: e,
                family: 0..0,
            })
            .collect(),
        static_type: unknown(),
    }
}

fn attr(line_no: i16, name: &str, type_decl: &str, init: Expression) -> Attr {
    Attr { line_no, name: oid(name), type_decl: tid(type_decl), init, self_offset: 0 }
}

fn method(line_no: i16, formals: Vec<(&str, &str)>, return_type: &str, expr: Expression) -> Method {
    Method {
        line_no,
        formals: formals
            .into_iter()
            .map(|(n, t)| Formal { line_no, name: oid(n), type_decl: tid(t) })
            .collect(),
        return_type: tid(return_type),
        expr,
    }
}

fn class(parent: &str, attrs: Vec<Attr>, methods: Vec<(&str, Method)>) -> Class {
    let mut map: NameMap<Method> = NameMap::new();
    for (name, m) in methods {
        map.insert(name.to_string(), m);
    }
    Class {
        file_name: "prog.cl".to_string(),
        file_no: 1,
        basic: false,
        line_no: 1,
        parent_name: Some(tid(parent)),
        attrs,
        methods: map,
        family: 0..0,
        child_names: Vec::new(),
        method_name_to_pos: NameMap::new(),
        dispatch_table: Vec::new(),
    }
}

fn table(classes: Vec<(&str, Class)>) -> NameMap<Class> {
    let mut table = initialize_classes();
    for (name, c) in classes {
        table.insert(name.to_string(), c);
    }
    table
}

/// A program whose class `Main` has, beside `main`, the attribute
/// `count : Int`, the method `pick(x : Int, y : Main) : Main`, and a
/// sibling class `Other`.
fn around(body: Expression, return_type: &str) -> NameMap<Class> {
    table(vec![
        (
            "Main",
            class(
                "IO",
                vec![attr(2, "count", "Int", Expression::NoExpr)],
                vec![
                    ("main", method(3, vec![], "Object", number(0))),
                    ("pick", method(4, vec![("x", "Int"), ("y", "Main")], "Main", create("Main"))),
                    ("probe", method(5, vec![("p", "String")], return_type, body)),
                ],
            ),
        ),
        ("Other", class("Object", vec![], vec![])),
        ("Sub", class("Main", vec![], vec![])),
    ])
}

fn type_of(body: Expression) -> String {
    let (classes, _, _) = semant(around(body, "Object")).unwrap();
    classes.get("Main").unwrap().methods.get("probe").unwrap().expr.static_type().as_str().to_string()
}

fn refuse(body: Expression) -> SemantError {
    match semant(around(body, "Object")) {
        Ok(_) => panic!("the analysis accepts the program"),
        Err(e) => e,
    }
}

#[test]
fn new_object_has_its_class_as_type() {
    assert_eq!(type_of(create("Main")), "Main");
    assert_eq!(type_of(create("SELF_TYPE")), "SELF_TYPE");
    let err = match semant(around(create("Main"), "SELF_TYPE")) {
        Ok(_) => panic!("a class conforms to the placeholder"),
        Err(e) => e,
    };
    assert_eq!(err.kind, ErrorKind::ReturnNonConforming);
    assert_eq!(err.names, vec!["Main", "probe", "SELF_TYPE"]);
    assert_eq!(err.line_no, 5);
    assert!(semant(around(create("SELF_TYPE"), "SELF_TYPE")).is_ok());
    assert!(semant(around(var("self"), "SELF_TYPE")).is_ok());
    assert!(semant(around(var("self"), "IO")).is_ok());
}

#[test]
fn main_returning_the_placeholder_with_a_new_main_as_body() {
    let program = table(vec![(
        "Main",
        class("Object", vec![], vec![("main", method(3, vec![], "SELF_TYPE", create("Main")))]),
    )]);
    let err = match semant(program) {
        Ok(_) => panic!("a class conforms to the placeholder"),
        Err(e) => e,
    };
    assert_eq!(err.kind, ErrorKind::ReturnNonConforming);
    assert_eq!(err.names[0], "Main");
    assert_eq!(err.names, vec!["Main", "main", "SELF_TYPE"]);
    let program = table(vec![(
        "Main",
        class("Object", vec![], vec![("main", method(3, vec![], "Main", create("Main")))]),
    )]);
    let (classes, _, _) = semant(program).unwrap();
    let body = &classes.get("Main").unwrap().methods.get("main").unwrap().expr;
    assert_eq!(body.static_type().as_str(), "Main");
    assert!(!body.static_type().is_self_type());
}

#[test]
fn covariant_return_takes_the_type_of_the_receiver() {
    assert_eq!(type_of(call(create("Main"), "copy", vec![])), "Main");
    assert_eq!(type_of(call(create("Other"), "copy", vec![])), "Other");
    assert_eq!(type_of(call(var("self"), "copy", vec![])), "SELF_TYPE");
    assert_eq!(type_of(call(create("Sub"), "out_int", vec![number(1)])), "Sub");
    assert_eq!(type_of(static_call(create("Sub"), "IO", "out_int", vec![number(1)])), "Sub");
    assert_eq!(type_of(call(create("Sub"), "pick", vec![number(1), create("Sub")])), "Main");
    assert_eq!(type_of(call(string("s"), "length", vec![])), "Int");
}

#[test]
fn attribute_initializer_must_conform() {
    let err = match semant(table(vec![
        ("Main", class("Object", vec![], vec![("main", method(1, vec![], "Object", number(0)))])),
        ("A", class("Object", vec![attr(7, "x", "Int", string("hello"))], vec![])),
    ])) {
        Ok(_) => panic!("a string initializes an integer"),
        Err(e) => e,
    };
    assert_eq!(err.kind, ErrorKind::AttrInitNonConforming);
    assert_eq!(err.file_name, "prog.cl");
    assert_eq!(err.line_no, 7);
    assert_eq!(err.names, vec!["String", "Int", "x"]);
    assert_eq!(
        err.message(),
        "prog.cl : 7 - Type String of assigned expression does not conform to declared type Int of identifier x."
    );
}

#[test]
fn attribute_initializers_that_conform() {
    let result = semant(table(vec![
        (
            "Main",
            class(
                "Object",
                vec![
                    attr(1, "a", "Object", number(1)),
                    attr(2, "b", "Int", Expression::NoExpr),
                    attr(3, "c", "SELF_TYPE", var("self")),
                    attr(4, "d", "Main", create("Sub")),
                    attr(5, "e", "Int", var("later")),
                    attr(6, "later", "Int", var("b")),
                ],
                vec![("main", method(1, vec![], "Object", number(0)))],
            ),
        ),
        ("Sub", class("Main", vec![attr(1, "f", "Int", var("b"))], vec![])),
    ]));
    let (classes, _, _) = result.unwrap();
    let main = classes.get("Main").unwrap();
    assert_eq!(main.attrs[2].init.static_type().as_str(), "SELF_TYPE");
    assert_eq!(main.attrs[4].init.static_type().as_str(), "Int");
    assert_eq!(classes.get("Sub").unwrap().attrs[0].init.static_type().as_str(), "Int");
}

#[test]
fn identifiers_in_sight() {
    assert_eq!(type_of(var("count")), "Int");
    assert_eq!(type_of(var("p")), "String");
    assert_eq!(type_of(var("self")), "SELF_TYPE");
    assert_eq!(type_of(binding("count", "Bool", truth(true), var("count"))), "Bool");
    assert_eq!(
        type_of(Expression::Block {
            line_no: 1,
            body: vec![binding("p", "Int", number(1), var("p")), var("p")],
        }),
        "String"
    );
    let err = refuse(var("nowhere"));
    assert_eq!(err.kind, ErrorKind::UndeclaredIdentifier);
    assert_eq!(err.names, vec!["nowhere"]);
    let err = refuse(Expression::Block {
        line_no: 1,
        body: vec![binding("t", "Int", number(1), var("t")), var("t")],
    });
    assert_eq!(err.kind, ErrorKind::UndeclaredIdentifier);
    let err = refuse(var("x"));
    assert_eq!(err.kind, ErrorKind::UndeclaredIdentifier);
}

#[test]
fn inherited_attributes_are_in_sight() {
    let result = semant(table(vec![
        (
            "Main",
            class("Object", vec![attr(1, "a", "Int", Expression::NoExpr)], vec![("main", method(1, vec![], "Object", number(0)))]),
        ),
        ("Sub", class("Main", vec![attr(1, "b", "String", Expression::NoExpr)], vec![])),
        (
            "Leaf",
            class("Sub", vec![], vec![("sum", method(1, vec![], "Int", var("a"))), ("word", method(2, vec![], "String", var("b")))]),
        ),
        ("Side", class("Main", vec![], vec![("b", method(3, vec![], "Int", var("a")))])),
    ]));
    assert!(result.is_ok());
    let err = semant(table(vec![
        ("Main", class("Object", vec![], vec![("main", method(1, vec![], "Object", number(0)))])),
        ("Sub", class("Main", vec![attr(1, "b", "String", Expression::NoExpr)], vec![])),
        ("Side", class("Main", vec![], vec![("m", method(9, vec![], "Object", var("b")))])),
    ]));
    match err {
        Ok(_) => panic!("an attribute of a sibling is in sight"),
        Err(e) => assert_eq!(e.kind, ErrorKind::UndeclaredIdentifier),
    }
}

#[test]
fn assignment_rules() {
    assert_eq!(type_of(assign("count", number(1))), "Int");
    assert_eq!(type_of(binding("o", "Object", Expression::NoExpr, assign("o", string("s")))), "String");
    let err = refuse(assign("count", string("s")));
    assert_eq!(err.kind, ErrorKind::AssignNonConforming);
    assert_eq!(err.names, vec!["String", "Int", "count"]);
    assert_eq!(err.line_no, 24);
    let err = refuse(assign("nowhere", number(1)));
    assert_eq!(err.kind, ErrorKind::AssignUndeclared);
    assert_eq!(err.names, vec!["nowhere"]);
}

#[test]
fn dispatch_rules() {
    assert_eq!(type_of(call(var("self"), "pick", vec![number(1), var("self")])), "Main");
    let err = refuse(call(var("self"), "nowhere", vec![]));
    assert_eq!(err.kind, ErrorKind::DispatchUndefined);
    assert_eq!(err.names, vec!["nowhere"]);
    assert_eq!(err.line_no, 20);
    let err = refuse(call(create("Other"), "pick", vec![number(1), create("Main")]));
    assert_eq!(err.kind, ErrorKind::DispatchUndefined);
    let err = refuse(call(var("self"), "pick", vec![number(1)]));
    assert_eq!(err.kind, ErrorKind::DispatchArity);
    assert_eq!(err.names, vec!["pick"]);
    let err = refuse(call(var("self"), "pick", vec![string("s"), create("Other")]));
    assert_eq!(err.kind, ErrorKind::ArgumentNonConforming);
    assert_eq!(err.names, vec!["pick", "String", "Int"]);
    let err = refuse(call(var("self"), "pick", vec![number(1), create("Other")]));
    assert_eq!(err.kind, ErrorKind::ArgumentNonConforming);
    assert_eq!(err.names, vec!["pick", "Other", "Main"]);
    let err = refuse(call(var("self"), "pick", vec![var("nowhere")]));
    assert_eq!(err.kind, ErrorKind::UndeclaredIdentifier);
    let err = refuse(static_call(create("Other"), "Main", "pick", vec![number(1), var("self")]));
    assert_eq!(err.kind, ErrorKind::StaticDispatchNonConforming);
    assert_eq!(err.names, vec!["Other", "Main"]);
    assert_eq!(err.line_no, 21);
    assert_eq!(type_of(static_call(var("self"), "Object", "copy", vec![])), "SELF_TYPE");
    let err = refuse(static_call(var("self"), "Object", "pick", vec![number(1), var("self")]));
    assert_eq!(err.kind, ErrorKind::DispatchUndefined);
}

#[test]
fn conditional_and_loop_rules() {
    assert_eq!(type_of(cond(truth(true), create("Sub"), create("Main"))), "Main");
    assert_eq!(type_of(cond(truth(true), create("Sub"), create("Other"))), "Object");
    assert_eq!(type_of(cond(truth(true), number(1), number(2))), "Int");
    assert_eq!(type_of(cond(truth(true), var("self"), var("self"))), "SELF_TYPE");
    assert_eq!(type_of(cond(truth(true), var("self"), create("Sub"))), "Main");
    let err = refuse(cond(number(1), number(1), number(2)));
    assert_eq!(err.kind, ErrorKind::IfPredicateNotBool);
    assert_eq!(err.line_no, 22);
    let looping = |pred: Expression| Expression::Loop {
        line_no: 30,
        pred: Box::new(pred),
        body: Box::new(number(1)),
    };
    assert_eq!(type_of(looping(truth(false))), "Object");
    let err = refuse(looping(number(0)));
    assert_eq!(err.kind, ErrorKind::LoopPredicateNotBool);
    assert_eq!(err.line_no, 30);
}

#[test]
fn type_case_rules() {
    assert_eq!(
        type_of(case(number(1), vec![("o", "Object", number(1)), ("i", "IO", number(2))])),
        "Int"
    );
    assert_eq!(
        type_of(case(
            number(1),
            vec![("a", "Sub", create("Sub")), ("b", "Other", create("Main")), ("c", "Int", var("c"))]
        )),
        "Object"
    );
    assert_eq!(
        type_of(case(var("self"), vec![("a", "Sub", var("a")), ("b", "Main", var("b"))])),
        "Main"
    );
    assert_eq!(type_of(case(number(1), vec![("p", "Int", var("p"))])), "Int");
    let err = refuse(case(number(1), vec![("a", "Sub", var("b"))]));
    assert_eq!(err.kind, ErrorKind::UndeclaredIdentifier);
}

#[test]
fn let_rules() {
    assert_eq!(type_of(binding("x", "Main", create("Sub"), var("x"))), "Main");
    assert_eq!(type_of(binding("x", "SELF_TYPE", var("self"), var("x"))), "SELF_TYPE");
    let err = refuse(binding("x", "Sub", create("Main"), var("x")));
    assert_eq!(err.kind, ErrorKind::LetInitNonConforming);
    assert_eq!(err.names, vec!["Main", "x", "Sub"]);
    assert_eq!(err.line_no, 23);
    let err = refuse(binding("x", "Int", var("x"), number(1)));
    assert_eq!(err.kind, ErrorKind::UndeclaredIdentifier);
}

#[test]
fn arithmetic_and_comparison_rules() {
    let arith = |l: Expression, r: Expression| Expression::ArithOp {
        line_no: 31,
        expr_lhs: Box::new(l),
        expr_rhs: Box::new(r),
        arith_op_type: ArithOpType::Div,
    };
    let comp = |l: Expression, r: Expression| Expression::Comp {
        line_no: 32,
        expr_lhs: Box::new(l),
        expr_rhs: Box::new(r),
        comp_type: CompType::LEq,
    };
    assert_eq!(type_of(arith(number(1), var("count"))), "Int");
    assert_eq!(type_of(comp(number(1), var("count"))), "Bool");
    let err = refuse(arith(string("s"), number(1)));
    assert_eq!(err.kind, ErrorKind::ArithNonInt);
    assert_eq!(err.names, vec!["String", "/", "Int"]);
    let err = refuse(arith(number(1), truth(true)));
    assert_eq!(err.kind, ErrorKind::ArithNonInt);
    assert_eq!(err.names, vec!["Int", "/", "Bool"]);
    assert_eq!(err.message(), "prog.cl : 31 - non-Int arguments: Int / Bool");
    let err = refuse(comp(number(1), create("Main")));
    assert_eq!(err.kind, ErrorKind::CompNonInt);
    assert_eq!(err.names, vec!["Int", "<=", "Main"]);
    let neg = |e: Expression| Expression::Neg { line_no: 33, expr: Box::new(e) };
    assert_eq!(type_of(neg(number(1))), "Int");
    let err = refuse(neg(truth(true)));
    assert_eq!(err.kind, ErrorKind::NegNonInt);
    assert_eq!(err.names, vec!["Bool"]);
    let not = |e: Expression| Expression::Not { line_no: 34, expr: Box::new(e) };
    assert_eq!(type_of(not(truth(true))), "Bool");
    let err = refuse(not(number(1)));
    assert_eq!(err.kind, ErrorKind::NotNonBool);
    assert_eq!(err.names, vec!["Int"]);
    assert_eq!(type_of(Expression::IsVoid { line_no: 1, expr: Box::new(create("Main")) }), "Bool");
}

#[test]
fn equality_rules() {
    let eq = |l: Expression, r: Expression| Expression::Eq {
        line_no: 35,
        expr_lhs: Box::new(l),
        expr_rhs: Box::new(r),
    };
    assert_eq!(type_of(eq(number(1), number(2))), "Bool");
    assert_eq!(type_of(eq(string("a"), string("b"))), "Bool");
    assert_eq!(type_of(eq(truth(true), truth(false))), "Bool");
    assert_eq!(type_of(eq(create("Main"), create("Other"))), "Bool");
    assert_eq!(type_of(eq(var("self"), create("Object"))), "Bool");
    for (l, r) in [
        (number(1), string("a")),
        (string("a"), number(1)),
        (truth(true), number(1)),
        (number(1), create("Main")),
        (create("Object"), string("s")),
        (var("self"), truth(true)),
    ] {
        let err = refuse(eq(l, r));
        assert_eq!(err.kind, ErrorKind::IllegalBasicComparison);
        assert_eq!(err.line_no, 35);
    }
}

#[test]
fn block_has_the_type_of_its_last_expression() {
    assert_eq!(
        type_of(Expression::Block { line_no: 1, body: vec![number(1), string("s"), create("Other")] }),
        "Other"
    );
}

#[test]
fn method_body_must_conform_to_the_return_type() {
    assert!(semant(around(create("Sub"), "Main")).is_ok());
    assert!(semant(around(create("Sub"), "IO")).is_ok());
    let err = match semant(around(create("Main"), "Sub")) {
        Ok(_) => panic!("a class conforms to its child"),
        Err(e) => e,
    };
    assert_eq!(err.kind, ErrorKind::ReturnNonConforming);
    assert_eq!(err.names, vec!["Main", "probe", "Sub"]);
    assert_eq!(
        err.message(),
        "prog.cl : 5 - Inferred return type Main of method probe does not conform to declared return type Sub."
    );
}

#[test]
fn entry_point_rules() {
    let err = match semant(table(vec![("A", class("Object", vec![], vec![]))])) {
        Ok(_) => panic!("a program without Main"),
        Err(e) => e,
    };
    assert_eq!(err.kind, ErrorKind::MainClassMissing);
    assert_eq!(err.message(), "Class Main is not defined.");
    let mut main = class("Object", vec![], vec![("other", method(4, vec![], "Object", number(0)))]);
    main.line_no = 3;
    let err = match semant(table(vec![("Main", main)])) {
        Ok(_) => panic!("a Main without main"),
        Err(e) => e,
    };
    assert_eq!(err.kind, ErrorKind::MainMethodMissing);
    assert_eq!(err.line_no, 3);
    assert_eq!(err.message(), "prog.cl : 3 - No 'main' method in class Main.");
    let main = class("Object", vec![], vec![("main", method(4, vec![("x", "Int")], "Object", number(0)))]);
    let built = build_inheritiance_tree(table(vec![("Main", main)])).unwrap();
    let err = verify_main(&built).unwrap_err();
    assert_eq!(err.kind, ErrorKind::MainMethodHasArguments);
    assert_eq!(err.line_no, 4);
    let main = class("Object", vec![], vec![("main", method(4, vec![], "Object", number(0)))]);
    assert!(verify_main(&table(vec![("Main", main)])).is_ok());
}

#[test]
fn graph_faults_come_before_the_entry_point() {
    let err = match semant(table(vec![("A", class("Int", vec![], vec![]))])) {
        Ok(_) => panic!("a child of Int"),
        Err(e) => e,
    };
    assert_eq!(err.kind, ErrorKind::IllegalParent);
}

#[test]
fn analysis_returns_classes_and_pools() {
    let body = Expression::Block {
        line_no: 1,
        body: vec![call(var("self"), "out_string", vec![string("hi")]), number(12), string("")],
    };
    let (classes, ints, strs) = semant(table(vec![(
        "Main",
        class("IO", vec![attr(1, "n", "Int", number(5))], vec![("main", method(2, vec![], "Object", body))]),
    )]))
    .unwrap();
    assert_eq!(ints.to_vec(), vec![0, 5, 2, 12]);
    assert_eq!(strs, vec!["", "hi"]);
    let main = classes.get("Main").unwrap();
    assert_eq!(main.family, 2..3);
    assert_eq!(main.attrs[0].self_offset, 3);
    assert_eq!(main.dispatch_table.len(), 8);
    assert_eq!(main.dispatch_table[7].0.as_str(), "Main");
    assert_eq!(main.dispatch_table[7].1.as_str(), "main");
    assert_eq!(main.method_name_to_pos.get("out_int"), Some(&4));
    match &main.methods.get("main").unwrap().expr {
        Expression::Block { body, .. } => {
            assert_eq!(body[0].static_type().as_str(), "SELF_TYPE");
            match &body[0] {
                Expression::Dispatch { args, .. } => {
                    assert!(matches!(args[0], Expression::StringConst { val_id: 1, .. }));
                },
                _ => panic!("the first expression is no dispatch"),
            }
        },
        _ => panic!("the body is no block"),
    }
    assert_eq!(classes.get("Object").unwrap().family, 0..6);
}

#[test]
fn expression_typing_outside_a_table_walk() {
    let built = build_inheritiance_tree(table(vec![("A", class("Object", vec![], vec![]))])).unwrap();
    let (parents, families): (NameMap<TypeID>, NameMap<Range<u32>>) = tree_maps_of(&built);
    let mut slots: Vec<NameMap<Slot>> = Vec::new();
    for _ in 0..built.len() {
        slots.push(NameMap::new());
    }
    let sigs = signatures(&built, slots);
    assert_eq!(sigs.len(), 6);
    assert_eq!(sigs.key(5), "A");
    let mut env: ScopedIndexMap<TypeID> = ScopedIndexMap::new();
    env.bind("x".to_string(), tid("A"));
    let typed = second_pass_expr(
        cond(truth(true), var("x"), create("Int")),
        &tid("A"),
        "f.cl",
        &mut env,
        &sigs,
        &parents,
        &families,
    )
    .unwrap();
    assert_eq!(typed.static_type().as_str(), "Object");
    assert_eq!(env.get("x").unwrap().as_str(), "A");
    let err = second_pass_expr(
        call(var("x"), "copy", vec![]),
        &tid("A"),
        "f.cl",
        &mut env,
        &sigs,
        &parents,
        &families,
    )
    .unwrap_err();
    assert_eq!(err.kind, ErrorKind::DispatchUndefined);
    assert_eq!(err.file_name, "f.cl");
}

fn typed_alone(expr: Expression) -> Result<Expression, SemantError> {
    let built = build_inheritiance_tree(table(vec![("A", class("Object", vec![], vec![]))])).unwrap();
    let (parents, families): (NameMap<TypeID>, NameMap<Range<u32>>) = tree_maps_of(&built);
    let mut slots: Vec<NameMap<Slot>> = Vec::new();
    for _ in 0..built.len() {
        slots.push(NameMap::new());
    }
    let sigs = signatures(&built, slots);
    let mut env: ScopedIndexMap<TypeID> = ScopedIndexMap::new();
    env.bind("x".to_string(), tid("A"));
    second_pass_expr(expr, &tid("A"), "f.cl", &mut env, &sigs, &parents, &families)
}

#[test]
fn typing_puts_the_most_derived_branch_first() {
    let branches = vec![
        Branch { line_no: 26, name: oid("o"), type_decl: tid("Object"), expr: number(1), family: 0..5 },
        Branch { line_no: 27, name: oid("i"), type_decl: tid("IO"), expr: number(2), family: 1..2 },
        Branch { line_no: 28, name: oid("s"), type_decl: tid("String"), expr: number(3), family: 4..5 },
    ];
    let expr = Expression::TypeCase {
        line_no: 25,
        expr: Box::new(number(1)),
        branches,
        static_type: unknown(),
    };
    let typed = typed_alone(expr).unwrap();
    assert_eq!(typed.static_type().as_str(), "Int");
    match typed {
        Expression::TypeCase { branches, .. } => {
            let order: Vec<(&str, u32)> =
                branches.iter().map(|b| (b.type_decl.as_str(), b.family.start)).collect();
            assert_eq!(order, vec![("String", 4), ("IO", 1), ("Object", 0)]);
            assert_eq!(branches[0].line_no, 28);
            assert_eq!(branches[1].expr.static_type().as_str(), "Int");
        },
        _ => panic!("no type-case"),
    }
}

#[test]
fn typing_alone_refuses_bad_bindings() {
    let err = typed_alone(binding("self", "Int", number(1), number(2))).unwrap_err();
    assert_eq!(err.kind, ErrorKind::LetBindsSelf);
    assert_eq!(err.line_no, 23);
    let err = typed_alone(binding("y", "Nowhere", number(1), number(2))).unwrap_err();
    assert_eq!(err.kind, ErrorKind::LetTypeUndefined);
    assert_eq!(err.names, vec!["Nowhere", "y"]);
    assert!(typed_alone(binding("y", "SELF_TYPE", var("self"), number(2))).is_ok());
    assert!(typed_alone(binding("y", "A", var("x"), number(2))).is_ok());
    let err = typed_alone(assign("self", var("x"))).unwrap_err();
    assert_eq!(err.kind, ErrorKind::AssignToSelf);
    assert_eq!(err.line_no, 24);
    let err = typed_alone(case(number(1), vec![("self", "Int", number(1))])).unwrap_err();
    assert_eq!(err.kind, ErrorKind::CaseBindsSelf);
    assert_eq!(err.line_no, 26);
    let err = typed_alone(case(
        number(1),
        vec![("a", "Int", number(1)), ("b", "Bool", number(2)), ("c", "Int", number(3))],
    ))
    .unwrap_err();
    assert_eq!(err.kind, ErrorKind::DuplicateBranch);
    assert_eq!(err.names, vec!["Int"]);
    let err = typed_alone(case(number(1), vec![("a", "Int", number(1)), ("a", "Int", var("zz"))]))
        .unwrap_err();
    assert_eq!(err.kind, ErrorKind::DuplicateBranch);
}

#[test]
fn typing_alone_refuses_bad_qualifiers() {
    let err = typed_alone(static_call(var("self"), "SELF_TYPE", "copy", vec![])).unwrap_err();
    assert_eq!(err.kind, ErrorKind::StaticDispatchSelfType);
    assert_eq!(err.line_no, 21);
    let err = typed_alone(static_call(var("x"), "Nowhere", "copy", vec![])).unwrap_err();
    assert_eq!(err.kind, ErrorKind::StaticDispatchUndefined);
    assert_eq!(err.names, vec!["Nowhere"]);
    let err = typed_alone(static_call(var("x"), "Int", "copy", vec![])).unwrap_err();
    assert_eq!(err.kind, ErrorKind::StaticDispatchNonConforming);
    assert_eq!(err.names, vec!["A", "Int"]);
}

#[test]
fn type_errors_come_before_the_entry_point() {
    let broken = class(
        "Object",
        vec![],
        vec![("m", method(4, vec![], "Int", truth(true)))],
    );
    let err = match semant(table(vec![("A", broken)])) {
        Ok(_) => panic!("a method that returns the wrong type"),
        Err(e) => e,
    };
    assert_eq!(err.kind, ErrorKind::ReturnNonConforming);
    let unlaid = class("Object", vec![attr(3, "self", "Int", number(1))], vec![]);
    let err = match semant(table(vec![("A", unlaid)])) {
        Ok(_) => panic!("an attribute named self"),
        Err(e) => e,
    };
    assert_eq!(err.kind, ErrorKind::AttrNamedSelf);
}

#[test]
fn strings_of_a_set_in_order() {
    let mut set = coolc::name_table::NameSet::new();
    set.insert("b".to_string());
    set.insert("a".to_string());
    assert_eq!(strings_of(&set), vec!["b", "a"]);
}
