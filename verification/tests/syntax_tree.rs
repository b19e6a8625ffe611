use coolc::ast::{
    ArithOpType, Attr, Branch, Class, CompType, Expression, Formal, Method, ObjectID, TypeID,
};
use coolc::name_table::NameMap;

fn int_const(line_no: i16, val: u32) -> Expression {
    Expression::IntConst { line_no, val }
}

#[test]
fn reserved_type_names() {
    assert_eq!(TypeID::new_object().as_str(), "Object");
    assert_eq!(TypeID::root_class_name().as_str(), "Object");
    assert_eq!(TypeID::new_io().as_str(), "IO");
    assert_eq!(TypeID::new_int().as_str(), "Int");
    assert_eq!(TypeID::new_bool().as_str(), "Bool");
    assert_eq!(TypeID::new_string().as_str(), "String");
    assert_eq!(TypeID::new_main().as_str(), "Main");
    assert_eq!(TypeID::new_self_type().as_str(), "SELF_TYPE");
    assert_eq!(TypeID::new_no_type().as_str(), "_no_type");
    assert_eq!(TypeID::new("Foo".to_string()).as_str(), "Foo");
}

#[test]
fn type_name_predicates() {
    assert!(TypeID::new_self_type().is_self_type());
    assert!(!TypeID::new_object().is_self_type());
    assert!(TypeID::new_no_type().is_no_type());
    assert!(!TypeID::new_int().is_no_type());
    assert!(TypeID::new_int().is_int());
    assert!(!TypeID::new_bool().is_int());
    assert!(TypeID::new_bool().is_bool());
    assert!(!TypeID::new_string().is_bool());
    assert!(TypeID::new_string().is_string());
    assert!(!TypeID::new_int().is_string());
    assert!(TypeID::new_no_type().is_system_type());
    assert!(TypeID::new("_prim_slot".to_string()).is_system_type());
    assert!(!TypeID::new_object().is_system_type());
    assert!(!TypeID::new(String::new()).is_system_type());
    assert!(TypeID::new_int().same(&TypeID::new("Int".to_string())));
    assert!(!TypeID::new_int().same(&TypeID::new_io()));
}

#[test]
fn type_name_length_counts_bytes() {
    assert_eq!(TypeID::new_object().len(), 6);
    assert_eq!(TypeID::new_self_type().len(), 9);
    assert_eq!(TypeID::new(String::new()).len(), 0);
}

#[test]
fn object_names() {
    assert_eq!(ObjectID::new_self().as_str(), "self");
    assert_eq!(ObjectID::new_main().as_str(), "main");
    assert!(ObjectID::new_self().is_self());
    assert!(!ObjectID::new_main().is_self());
    assert!(!ObjectID::new("selfish".to_string()).is_self());
    let copy = ObjectID::new("x".to_string()).clone();
    assert_eq!(copy.as_str(), "x");
    assert_eq!(TypeID::new_io().clone().as_str(), "IO");
}

#[test]
fn operator_symbols() {
    assert_eq!(ArithOpType::Add.symbol(), "+");
    assert_eq!(ArithOpType::Sub.symbol(), "-");
    assert_eq!(ArithOpType::Mul.symbol(), "*");
    assert_eq!(ArithOpType::Div.symbol(), "/");
    assert_eq!(CompType::LT.symbol(), "<");
    assert_eq!(CompType::LEq.symbol(), "<=");
}

#[test]
fn expression_line_numbers() {
    assert_eq!(int_const(7, 1).line_no(), 7);
    let neg = Expression::Neg { line_no: 9, expr: Box::new(int_const(8, 1)) };
    assert_eq!(neg.line_no(), 9);
    let object = Expression::Object {
        line_no: 3,
        name: ObjectID::new("x".to_string()),
        static_type: TypeID::new_no_type(),
    };
    assert_eq!(object.line_no(), 3);
}

#[test]
fn static_types_fixed_by_the_kind_of_expression() {
    assert_eq!(int_const(1, 5).static_type().as_str(), "Int");
    assert_eq!(Expression::BoolConst { line_no: 1, val: true }.static_type().as_str(), "Bool");
    assert_eq!(
        Expression::StringConst { line_no: 1, val: "s".to_string(), val_id: 0 }
            .static_type()
            .as_str(),
        "String"
    );
    assert_eq!(Expression::NoExpr.static_type().as_str(), "_no_type");
    assert_eq!(
        Expression::New { line_no: 1, type_id: TypeID::new("A".to_string()) }.static_type().as_str(),
        "A"
    );
    let arith = Expression::ArithOp {
        line_no: 1,
        expr_lhs: Box::new(int_const(1, 1)),
        expr_rhs: Box::new(int_const(1, 2)),
        arith_op_type: ArithOpType::Mul,
    };
    assert_eq!(arith.static_type().as_str(), "Int");
    let comp = Expression::Comp {
        line_no: 1,
        expr_lhs: Box::new(int_const(1, 1)),
        expr_rhs: Box::new(int_const(1, 2)),
        comp_type: CompType::LT,
    };
    assert_eq!(comp.static_type().as_str(), "Bool");
    let eq = Expression::Eq {
        line_no: 1,
        expr_lhs: Box::new(int_const(1, 1)),
        expr_rhs: Box::new(int_const(1, 2)),
    };
    assert_eq!(eq.static_type().as_str(), "Bool");
    let not = Expression::Not {
        line_no: 1,
        expr: Box::new(Expression::BoolConst { line_no: 1, val: false }),
    };
    assert_eq!(not.static_type().as_str(), "Bool");
    let is_void = Expression::IsVoid { line_no: 1, expr: Box::new(int_const(1, 1)) };
    assert_eq!(is_void.static_type().as_str(), "Bool");
    let neg = Expression::Neg { line_no: 1, expr: Box::new(int_const(1, 1)) };
    assert_eq!(neg.static_type().as_str(), "Int");
    let looping = Expression::Loop {
        line_no: 1,
        pred: Box::new(Expression::BoolConst { line_no: 1, val: true }),
        body: Box::new(int_const(1, 1)),
    };
    assert_eq!(looping.static_type().as_str(), "Object");
}

#[test]
fn static_types_passed_on_from_a_part() {
    let assign = Expression::Assign {
        line_no: 1,
        name: ObjectID::new("x".to_string()),
        expr: Box::new(Expression::BoolConst { line_no: 1, val: true }),
    };
    assert_eq!(assign.static_type().as_str(), "Bool");
    let block = Expression::Block {
        line_no: 1,
        body: vec![int_const(1, 1), Expression::BoolConst { line_no: 2, val: true }],
    };
    assert_eq!(block.static_type().as_str(), "Bool");
    let binding = Expression::Let {
        line_no: 1,
        identifier: ObjectID::new("x".to_string()),
        type_decl: TypeID::new_int(),
        init: Box::new(Expression::NoExpr),
        body: Box::new(Expression::StringConst { line_no: 1, val: String::new(), val_id: 0 }),
    };
    assert_eq!(binding.static_type().as_str(), "String");
}

#[test]
fn static_types_recorded_in_the_node() {
    let cond = Expression::Cond {
        line_no: 1,
        pred: Box::new(Expression::BoolConst { line_no: 1, val: true }),
        then_expr: Box::new(int_const(1, 1)),
        else_expr: Box::new(int_const(1, 2)),
        static_type: TypeID::new("A".to_string()),
    };
    assert_eq!(cond.static_type().as_str(), "A");
    let dispatch = Expression::Dispatch {
        line_no: 1,
        expr: Box::new(Expression::NoExpr),
        type_id: None,
        name: ObjectID::new("m".to_string()),
        args: Vec::new(),
        static_type: TypeID::new("B".to_string()),
    };
    assert_eq!(dispatch.static_type().as_str(), "B");
    let branch = Branch {
        line_no: 2,
        name: ObjectID::new("b".to_string()),
        type_decl: TypeID::new_object(),
        expr: int_const(2, 0),
        family: 0..0,
    };
    assert_eq!(branch.static_type().as_str(), "Int");
    let case = Expression::TypeCase {
        line_no: 1,
        expr: Box::new(int_const(1, 1)),
        branches: vec![branch],
        static_type: TypeID::new("C".to_string()),
    };
    assert_eq!(case.static_type().as_str(), "C");
}

#[test]
fn signature_copy_leaves_the_body_out() {
    let method = Method {
        line_no: 12,
        formals: vec![
            Formal {
                line_no: 12,
                name: ObjectID::new("a".to_string()),
                type_decl: TypeID::new_int(),
            },
            Formal {
                line_no: 13,
                name: ObjectID::new("b".to_string()),
                type_decl: TypeID::new_string(),
            },
        ],
        return_type: TypeID::new_bool(),
        expr: int_const(14, 3),
    };
    let sig = method.get_sig();
    assert_eq!(sig.line_no, 12);
    assert_eq!(sig.return_type.as_str(), "Bool");
    assert_eq!(sig.formals.len(), 2);
    assert_eq!(sig.formals[0].name.as_str(), "a");
    assert_eq!(sig.formals[0].type_decl.as_str(), "Int");
    assert_eq!(sig.formals[1].line_no, 13);
    assert_eq!(sig.formals[1].name.as_str(), "b");
    assert_eq!(sig.formals[1].type_decl.as_str(), "String");
    assert!(matches!(sig.expr, Expression::NoExpr));
    assert!(matches!(method.expr, Expression::IntConst { val: 3, .. }));
}

#[test]
fn class_tag_is_start_of_family() {
    let class = Class {
        file_name: "f.cl".to_string(),
        file_no: 1,
        basic: false,
        line_no: 1,
        parent_name: Some(TypeID::new_object()),
        attrs: vec![Attr {
            line_no: 2,
            name: ObjectID::new("x".to_string()),
            type_decl: TypeID::new_int(),
            init: Expression::NoExpr,
            self_offset: 0,
        }],
        methods: NameMap::new(),
        family: 4..9,
        child_names: Vec::new(),
        method_name_to_pos: NameMap::new(),
        dispatch_table: Vec::new(),
    };
    assert_eq!(class.tag(), 4);
}
