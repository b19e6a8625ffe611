use coolc::ast::{Class, TypeID};
use coolc::builtins::initialize_classes;
use coolc::error::ErrorKind;
use coolc::name_table::NameMap;
use coolc::semant::build_inheritiance_tree::build_inheritiance_tree;
use coolc::semant::conformance::{conforms, least_upper_bound};
use coolc::semant::tree_maps_of;
use std::ops::Range;

fn tid(name: &str) -> TypeID {
    TypeID::new(name.to_string())
}

fn empty_class(parent: &str, line_no: i16) -> Class {
    Class {
        file_name: "prog.cl".to_string(),
        file_no: 1,
        basic: false,
        line_no,
        parent_name: Some(tid(parent)),
        attrs: Vec::new(),
        methods: NameMap::new(),
        family: 0..0,
        child_names: Vec::new(),
        method_name_to_pos: NameMap::new(),
        dispatch_table: Vec::new(),
    }
}

fn program(classes: Vec<(&str, &str)>) -> NameMap<Class> {
    let mut table = initialize_classes();
    let mut line_no: i16 = 1;
    for (name, parent) in classes {
        table.insert(name.to_string(), empty_class(parent, line_no));
        line_no += 1;
    }
    table
}

fn family_of(table: &NameMap<Class>, name: &str) -> Range<u32> {
    table.get(name).unwrap().family.clone()
}

fn child_names(table: &NameMap<Class>, name: &str) -> Vec<String> {
    table.get(name).unwrap().child_names.iter().map(|c| c.as_str().to_string()).collect()
}

fn built(classes: Vec<(&str, &str)>) -> (NameMap<TypeID>, NameMap<Range<u32>>) {
    let table = build_inheritiance_tree(program(classes)).unwrap();
    tree_maps_of(&table)
}

#[test]
fn runtime_classes_have_their_names_and_parents() {
    let table = initialize_classes();
    assert_eq!(table.len(), 5);
    assert_eq!(table.key(0), "Object");
    assert_eq!(table.key(1), "IO");
    assert_eq!(table.key(2), "Int");
    assert_eq!(table.key(3), "Bool");
    assert_eq!(table.key(4), "String");
    assert!(table.get("Object").unwrap().parent_name.is_none());
    assert_eq!(table.get("IO").unwrap().parent_name.as_ref().unwrap().as_str(), "Object");
    assert_eq!(table.get("Object").unwrap().methods.len(), 3);
    assert_eq!(*table.get("Object").unwrap().methods.key(1), ["type", "name"].join("_"));
    assert_eq!(table.get("IO").unwrap().methods.len(), 4);
    assert_eq!(table.get("String").unwrap().methods.len(), 3);
    assert_eq!(table.get("String").unwrap().attrs.len(), 2);
    assert_eq!(table.get("Int").unwrap().attrs[0].name.as_str(), "_val");
    assert!(table.get("Bool").unwrap().basic);
}

#[test]
fn runtime_classes_have_their_signatures() {
    let table = initialize_classes();
    let sig = |class: &str, method: &str| -> (Vec<(String, String)>, String) {
        let m = table.get(class).unwrap().methods.get(method).unwrap();
        (
            m.formals
                .iter()
                .map(|f| (f.name.as_str().to_string(), f.type_decl.as_str().to_string()))
                .collect(),
            m.return_type.as_str().to_string(),
        )
    };
    let pair = |a: &str, b: &str| (a.to_string(), b.to_string());
    assert_eq!(sig("Object", "abort"), (vec![], "Object".to_string()));
    assert_eq!(sig("Object", "copy"), (vec![], "SELF_TYPE".to_string()));
    assert_eq!(sig("IO", "out_string"), (vec![pair("arg", "String")], "SELF_TYPE".to_string()));
    assert_eq!(sig("IO", "out_int"), (vec![pair("arg", "Int")], "SELF_TYPE".to_string()));
    assert_eq!(sig("IO", "in_string"), (vec![], "String".to_string()));
    assert_eq!(sig("IO", "in_int"), (vec![], "Int".to_string()));
    assert_eq!(sig("String", "length"), (vec![], "Int".to_string()));
    assert_eq!(sig("String", "concat"), (vec![pair("arg", "String")], "String".to_string()));
    assert_eq!(
        sig("String", "substr"),
        (vec![pair("arg1", "Int"), pair("arg2", "Int")], "String".to_string())
    );
    let string = table.get("String").unwrap();
    assert_eq!(string.attrs[0].name.as_str(), "_val");
    assert_eq!(string.attrs[0].type_decl.as_str(), "Int");
    assert_eq!(string.attrs[1].name.as_str(), "_str_field");
    assert_eq!(string.attrs[1].type_decl.as_str(), "_prim_slot");
    assert_eq!(table.get("Bool").unwrap().attrs[0].type_decl.as_str(), "_prim_slot");
    assert!(table.get("Int").unwrap().methods.len() == 0);
}

#[test]
fn tags_follow_the_depth_first_walk() {
    let table = build_inheritiance_tree(program(vec![
        ("A", "Object"),
        ("B", "A"),
        ("C", "IO"),
        ("D", "A"),
        ("E", "B"),
    ]))
    .unwrap();
    assert_eq!(family_of(&table, "Object"), 0..10);
    assert_eq!(family_of(&table, "IO"), 1..3);
    assert_eq!(family_of(&table, "C"), 2..3);
    assert_eq!(family_of(&table, "Int"), 3..4);
    assert_eq!(family_of(&table, "Bool"), 4..5);
    assert_eq!(family_of(&table, "String"), 5..6);
    assert_eq!(family_of(&table, "A"), 6..10);
    assert_eq!(family_of(&table, "B"), 7..9);
    assert_eq!(family_of(&table, "E"), 8..9);
    assert_eq!(family_of(&table, "D"), 9..10);
    assert_eq!(table.get("A").unwrap().tag(), 6);
}

#[test]
fn family_holds_exactly_the_descendants() {
    let names = vec![("A", "Object"), ("B", "A"), ("C", "IO"), ("D", "A"), ("E", "B")];
    let table = build_inheritiance_tree(program(names)).unwrap();
    let descends = |d: &str, c: &str| -> bool {
        let mut at = d.to_string();
        loop {
            if at == c {
                return true;
            }
            match &table.get(&at).unwrap().parent_name {
                Some(p) => at = p.as_str().to_string(),
                None => return false,
            }
        }
    };
    for i in 0..table.len() {
        for j in 0..table.len() {
            let c = table.value(i);
            let d = table.value(j);
            let inside = c.family.contains(&d.tag());
            assert_eq!(inside, descends(table.key(j), table.key(i)));
        }
    }
}

#[test]
fn children_are_named_in_table_order() {
    let table = build_inheritiance_tree(program(vec![("B", "A"), ("A", "Object"), ("C", "A")]))
        .unwrap();
    assert_eq!(child_names(&table, "Object"), vec!["IO", "Int", "Bool", "String", "A"]);
    assert_eq!(child_names(&table, "A"), vec!["B", "C"]);
    assert!(child_names(&table, "B").is_empty());
    assert_eq!(table.key(5), "B");
    assert_eq!(family_of(&table, "A"), 5..8);
    assert_eq!(family_of(&table, "B"), 6..7);
    assert_eq!(family_of(&table, "C"), 7..8);
}

#[test]
fn stale_child_names_are_replaced() {
    let mut table = program(vec![("A", "Object")]);
    table.value_mut(5).child_names.push(tid("Ghost"));
    let table = build_inheritiance_tree(table).unwrap();
    assert!(child_names(&table, "A").is_empty());
}

#[test]
fn inheriting_a_basic_value_class_is_illegal() {
    for parent in ["Bool", "String", "Int", "SELF_TYPE"] {
        let err = build_inheritiance_tree(program(vec![("A", "Object"), ("B", parent)]))
            .unwrap_err();
        assert_eq!(err.kind, ErrorKind::IllegalParent);
        assert_eq!(err.file_name, "prog.cl");
        assert_eq!(err.line_no, 2);
        assert_eq!(err.names, vec!["B".to_string(), parent.to_string()]);
    }
}

#[test]
fn a_class_named_self_type_is_refused() {
    let err = build_inheritiance_tree(program(vec![("SELF_TYPE", "Object")])).unwrap_err();
    assert_eq!(err.kind, ErrorKind::RedefinedSelfType);
    assert_eq!(err.line_no, 1);
    assert!(err.names.is_empty());
}

#[test]
fn illegal_parent_comes_before_undefined_parent() {
    let err = build_inheritiance_tree(program(vec![("A", "Nowhere"), ("B", "Int")]))
        .unwrap_err();
    assert_eq!(err.kind, ErrorKind::IllegalParent);
    assert_eq!(err.names[0], "B");
}

#[test]
fn undefined_parent_is_refused() {
    let err = build_inheritiance_tree(program(vec![("A", "Object"), ("B", "Nowhere")]))
        .unwrap_err();
    assert_eq!(err.kind, ErrorKind::UndefinedParent);
    assert_eq!(err.line_no, 2);
    assert_eq!(err.names, vec!["B".to_string(), "Nowhere".to_string()]);
}

#[test]
fn self_inheritance_is_a_cycle() {
    let err = build_inheritiance_tree(program(vec![("A", "Object"), ("B", "B")])).unwrap_err();
    assert_eq!(err.kind, ErrorKind::InheritanceCycle);
    assert_eq!(err.line_no, 2);
    assert_eq!(err.names, vec!["B".to_string()]);
}

#[test]
fn mutual_inheritance_is_a_cycle_at_the_first_class() {
    let err = build_inheritiance_tree(program(vec![
        ("A", "Object"),
        ("B", "D"),
        ("C", "B"),
        ("D", "C"),
        ("E", "D"),
    ]))
    .unwrap_err();
    assert_eq!(err.kind, ErrorKind::InheritanceCycle);
    assert_eq!(err.names, vec!["B".to_string()]);
    assert_eq!(
        err.message(),
        "prog.cl : 2 - Class B, or an ancestor of B, is involved in an inheritance cycle."
    );
}

#[test]
fn declarations_survive_the_tree_building() {
    let table = build_inheritiance_tree(program(vec![("A", "Object")])).unwrap();
    let a = table.get("A").unwrap();
    assert_eq!(a.file_name, "prog.cl");
    assert_eq!(a.file_no, 1);
    assert_eq!(a.line_no, 1);
    assert!(!a.basic);
    assert_eq!(a.parent_name.as_ref().unwrap().as_str(), "Object");
    assert_eq!(table.get("String").unwrap().attrs.len(), 2);
    assert_eq!(table.get("IO").unwrap().methods.len(), 4);
}

#[test]
fn tree_maps_hold_families_and_parents() {
    let (parent_names, families) = built(vec![("A", "Object"), ("B", "A")]);
    assert_eq!(families.len(), 7);
    assert_eq!(families.key(6), "B");
    assert_eq!(families.get("A"), Some(&(5..7)));
    assert_eq!(families.get("B"), Some(&(6..7)));
    assert_eq!(parent_names.len(), 6);
    assert!(parent_names.get("Object").is_none());
    assert_eq!(parent_names.get("B").unwrap().as_str(), "A");
    assert_eq!(parent_names.get("Int").unwrap().as_str(), "Object");
}

#[test]
fn conformance_follows_descent() {
    let (_, families) = built(vec![("A", "Object"), ("B", "A"), ("C", "A")]);
    let cur = tid("A");
    assert!(conforms(&tid("B"), &tid("A"), &cur, &families));
    assert!(conforms(&tid("B"), &tid("Object"), &cur, &families));
    assert!(!conforms(&tid("A"), &tid("B"), &cur, &families));
    assert!(!conforms(&tid("B"), &tid("C"), &cur, &families));
    assert!(!conforms(&tid("Int"), &tid("A"), &cur, &families));
    assert!(conforms(&tid("Int"), &tid("Object"), &cur, &families));
}

#[test]
fn conformance_is_reflexive_on_every_class() {
    let (_, families) = built(vec![("A", "Object"), ("B", "A")]);
    for i in 0..families.len() {
        let t = tid(families.key(i));
        assert!(conforms(&t, &t, &tid("B"), &families));
    }
    assert!(conforms(&tid("SELF_TYPE"), &tid("SELF_TYPE"), &tid("B"), &families));
    assert!(conforms(&tid("_no_type"), &tid("_no_type"), &tid("B"), &families));
}

#[test]
fn conformance_is_transitive_on_every_class() {
    let (_, families) = built(vec![("A", "Object"), ("B", "A"), ("C", "B"), ("D", "A")]);
    let names: Vec<String> = (0..families.len()).map(|i| families.key(i).clone()).collect();
    let cur = tid("C");
    for a in &names {
        for b in &names {
            for c in &names {
                if conforms(&tid(a), &tid(b), &cur, &families)
                    && conforms(&tid(b), &tid(c), &cur, &families)
                {
                    assert!(conforms(&tid(a), &tid(c), &cur, &families));
                }
            }
        }
    }
}

#[test]
fn conformance_of_the_placeholders() {
    let (_, families) = built(vec![("A", "Object"), ("B", "A")]);
    let cur = tid("B");
    assert!(conforms(&tid("_no_type"), &tid("Int"), &cur, &families));
    assert!(conforms(&tid("_no_type"), &tid("SELF_TYPE"), &cur, &families));
    assert!(conforms(&tid("_no_type"), &tid("Nowhere"), &cur, &families));
    assert!(!conforms(&tid("B"), &tid("SELF_TYPE"), &cur, &families));
    assert!(!conforms(&tid("Object"), &tid("SELF_TYPE"), &cur, &families));
    assert!(conforms(&tid("SELF_TYPE"), &tid("B"), &cur, &families));
    assert!(conforms(&tid("SELF_TYPE"), &tid("A"), &cur, &families));
    assert!(!conforms(&tid("SELF_TYPE"), &tid("Int"), &cur, &families));
    assert!(!conforms(&tid("SELF_TYPE"), &tid("B"), &tid("A"), &families));
}

#[test]
fn unknown_classes_conform_to_nothing() {
    let (_, families) = built(vec![("A", "Object")]);
    let cur = tid("A");
    assert!(!conforms(&tid("Nowhere"), &tid("Object"), &cur, &families));
    assert!(!conforms(&tid("A"), &tid("Nowhere"), &cur, &families));
    assert!(!conforms(&tid("Int"), &tid("_no_type"), &cur, &families));
}

#[test]
fn join_is_the_least_common_ancestor() {
    let (parents, families) =
        built(vec![("A", "Object"), ("B", "A"), ("C", "A"), ("D", "B"), ("E", "C")]);
    let cur = tid("A");
    let lub = |a: &str, b: &str| -> String {
        least_upper_bound(&tid(a), &tid(b), &cur, &parents, &families).as_str().to_string()
    };
    assert_eq!(lub("B", "A"), "A");
    assert_eq!(lub("A", "B"), "A");
    assert_eq!(lub("D", "E"), "A");
    assert_eq!(lub("D", "B"), "B");
    assert_eq!(lub("D", "C"), "A");
    assert_eq!(lub("D", "Int"), "Object");
    assert_eq!(lub("Int", "String"), "Object");
    assert_eq!(lub("Object", "E"), "Object");
}

#[test]
fn join_is_idempotent_and_commutative() {
    let (parents, families) =
        built(vec![("A", "Object"), ("B", "A"), ("C", "A"), ("D", "B"), ("E", "C")]);
    let cur = tid("D");
    let mut names: Vec<String> = (0..families.len()).map(|i| families.key(i).clone()).collect();
    names.push("SELF_TYPE".to_string());
    for a in &names {
        let same = least_upper_bound(&tid(a), &tid(a), &cur, &parents, &families);
        assert_eq!(same.as_str(), a);
        for b in &names {
            let ab = least_upper_bound(&tid(a), &tid(b), &cur, &parents, &families);
            let ba = least_upper_bound(&tid(b), &tid(a), &cur, &parents, &families);
            assert_eq!(ab.as_str(), ba.as_str());
        }
    }
}

#[test]
fn join_with_the_placeholders() {
    let (parents, families) = built(vec![("A", "Object"), ("B", "A"), ("C", "A")]);
    let cur = tid("B");
    let lub = |a: &str, b: &str| -> String {
        least_upper_bound(&tid(a), &tid(b), &cur, &parents, &families).as_str().to_string()
    };
    assert_eq!(lub("SELF_TYPE", "SELF_TYPE"), "SELF_TYPE");
    assert_eq!(lub("SELF_TYPE", "C"), "A");
    assert_eq!(lub("C", "SELF_TYPE"), "A");
    assert_eq!(lub("SELF_TYPE", "A"), "A");
    assert_eq!(lub("_no_type", "C"), "C");
    assert_eq!(lub("C", "_no_type"), "C");
    assert_eq!(lub("Nowhere", "C"), "Object");
    assert_eq!(lub("C", "Nowhere"), "Object");
}
