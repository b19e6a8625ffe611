use coolc::name_table::{IntSet, NameMap, NameSet};
use coolc::scoped_collections::{ScopedIndexMap, ScopedIndexSet};

#[test]
fn name_set_keeps_first_insertion_order() {
    let mut set = NameSet::new();
    assert_eq!(set.len(), 0);
    assert!(set.insert("b".to_string()));
    assert!(set.insert("a".to_string()));
    assert!(!set.insert("b".to_string()));
    assert!(set.insert("c".to_string()));
    assert_eq!(set.len(), 3);
    assert_eq!(set.get(0), "b");
    assert_eq!(set.get(1), "a");
    assert_eq!(set.get(2), "c");
}

#[test]
fn name_set_finds_positions() {
    let mut set = NameSet::new();
    set.insert("x".to_string());
    set.insert("y".to_string());
    assert_eq!(set.index_of("x"), Some(0));
    assert_eq!(set.index_of("y"), Some(1));
    assert_eq!(set.index_of("z"), None);
    assert!(set.contains("y"));
    assert!(!set.contains(""));
}

#[test]
fn name_set_copy_is_independent() {
    let mut set = NameSet::new();
    set.insert("one".to_string());
    set.insert("two".to_string());
    let mut copy = set.copy();
    assert_eq!(copy.len(), 2);
    assert_eq!(copy.get(0), "one");
    assert_eq!(copy.get(1), "two");
    copy.insert("three".to_string());
    assert_eq!(copy.len(), 3);
    assert_eq!(set.len(), 2);
}

#[test]
fn name_map_insert_appends_new_names() {
    let mut map: NameMap<u32> = NameMap::new();
    assert_eq!(map.insert("a".to_string(), 10), 0);
    assert_eq!(map.insert("b".to_string(), 20), 1);
    assert_eq!(map.len(), 2);
    assert_eq!(map.key(0), "a");
    assert_eq!(map.key(1), "b");
    assert_eq!(*map.value(0), 10);
    assert_eq!(*map.value(1), 20);
    assert_eq!(map.get("b"), Some(&20));
    assert_eq!(map.get("c"), None);
    assert!(map.contains_key("a"));
    assert!(!map.contains_key("c"));
}

#[test]
fn name_map_insert_replaces_in_place() {
    let mut map: NameMap<u32> = NameMap::new();
    map.insert("a".to_string(), 1);
    map.insert("b".to_string(), 2);
    assert_eq!(map.insert("a".to_string(), 3), 0);
    assert_eq!(map.len(), 2);
    assert_eq!(map.key(0), "a");
    assert_eq!(*map.value(0), 3);
    assert_eq!(map.index_of("b"), Some(1));
    *map.value_mut(1) = 9;
    assert_eq!(map.get("b"), Some(&9));
}

#[test]
fn name_map_parts_round_trip() {
    let mut map: NameMap<u32> = NameMap::new();
    map.insert("k".to_string(), 5);
    map.insert("l".to_string(), 6);
    let (names, values) = map.into_parts();
    assert_eq!(names.len(), 2);
    assert_eq!(values, vec![5, 6]);
    let again = NameMap::from_parts(names, vec![7u32, 8u32]);
    assert_eq!(again.get("k"), Some(&7));
    assert_eq!(again.get("l"), Some(&8));
}

#[test]
fn int_set_holds_each_integer_once() {
    let mut set = IntSet::new();
    assert!(set.insert(7));
    assert!(set.insert(0));
    assert!(!set.insert(7));
    assert!(set.insert(3));
    assert_eq!(set.to_vec(), vec![7, 0, 3]);
}

#[test]
fn scoped_set_distinguishes_top_scope() {
    let mut set = ScopedIndexSet::new();
    set.enter_scope();
    set.insert("outer".to_string());
    set.enter_scope();
    set.insert("inner".to_string());
    assert!(set.contains("outer"));
    assert!(set.contains("inner"));
    assert!(set.contains_top_scope("inner"));
    assert!(!set.contains_top_scope("outer"));
    assert!(!set.contains("other"));
    set.exit_scope();
    assert!(!set.contains("inner"));
    assert!(set.contains_top_scope("outer"));
}

#[test]
fn scoped_map_innermost_frame_wins() {
    let mut map: ScopedIndexMap<u32> = ScopedIndexMap::new();
    map.enter_scope();
    map.insert("x".to_string(), 1);
    map.insert("y".to_string(), 2);
    map.enter_scope();
    map.insert("x".to_string(), 10);
    assert_eq!(map.get("x"), Some(&10));
    assert_eq!(map.get("y"), Some(&2));
    assert_eq!(map.get("z"), None);
    map.exit_scope();
    assert_eq!(map.get("x"), Some(&1));
    map.bind("z".to_string(), 3);
    assert_eq!(map.get("z"), Some(&3));
    map.exit_scope();
    assert_eq!(map.get("z"), None);
    map.exit_scope();
    assert_eq!(map.get("x"), None);
    map.exit_scope();
    assert_eq!(map.get("x"), None);
}

#[test]
fn scoped_map_takes_a_ready_frame() {
    let mut frame: NameMap<u32> = NameMap::new();
    frame.insert("a".to_string(), 4);
    let mut map: ScopedIndexMap<u32> = ScopedIndexMap::new();
    map.enter_scope_with(frame);
    assert_eq!(map.get("a"), Some(&4));
}

#[test]
fn scoped_map_flattens_to_what_is_in_sight() {
    let mut map: ScopedIndexMap<u32> = ScopedIndexMap::new();
    map.enter_scope();
    map.insert(String::from("x"), 1);
    map.insert(String::from("y"), 2);
    map.enter_scope();
    map.insert(String::from("x"), 3);
    map.insert(String::from("z"), 4);
    let flat = map.to_index_map();
    assert_eq!(flat.len(), 3);
    assert_eq!(flat.key(0), "x");
    assert_eq!(flat.key(1), "y");
    assert_eq!(flat.key(2), "z");
    assert_eq!(flat.get("x"), Some(&3));
    assert_eq!(flat.get("y"), Some(&2));
    assert_eq!(flat.get("z"), Some(&4));
    assert_eq!(flat.get("w"), None);
    map.exit_scope();
    let outer = map.to_index_map();
    assert_eq!(outer.len(), 2);
    assert_eq!(outer.get("x"), Some(&1));
    assert_eq!(outer.get("z"), None);
}
