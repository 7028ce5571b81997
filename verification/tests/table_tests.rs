use nodewatch::table::Table;

#[test]
fn insert_keeps_insertion_order() {
    let mut t: Table<u32> = Table::new();
    t.insert("a".to_string(), 1);
    t.insert("b".to_string(), 2);
    t.insert("c".to_string(), 3);
    assert_eq!(t.len(), 3);
    assert_eq!(t.pair_at(0), &("a".to_string(), 1));
    assert_eq!(t.pair_at(1), &("b".to_string(), 2));
    assert_eq!(t.pair_at(2), &("c".to_string(), 3));
}

#[test]
fn upsert_replaces_value_in_place() {
    let mut t: Table<u32> = Table::new();
    t.insert("a".to_string(), 1);
    t.insert("b".to_string(), 2);
    t.insert("a".to_string(), 10);
    assert_eq!(t.len(), 2);
    // The replaced entry keeps its position, only the value changes.
    assert_eq!(t.pair_at(0), &("a".to_string(), 10));
    assert_eq!(t.pair_at(1), &("b".to_string(), 2));
}

#[test]
fn get_finds_what_insert_stored() {
    let mut t: Table<u32> = Table::new();
    t.insert("a".to_string(), 1);
    assert_eq!(t.get(&"a".to_string()), Some(&1));
    assert_eq!(t.get(&"b".to_string()), None);
    assert!(t.contains_key(&"a".to_string()));
    assert!(!t.contains_key(&"b".to_string()));
}

#[test]
fn remove_closes_the_gap() {
    let mut t: Table<u32> = Table::new();
    t.insert("a".to_string(), 1);
    t.insert("b".to_string(), 2);
    t.insert("c".to_string(), 3);
    assert_eq!(t.remove(&"b".to_string()), Some(2));
    assert_eq!(t.len(), 2);
    assert_eq!(t.pair_at(0), &("a".to_string(), 1));
    assert_eq!(t.pair_at(1), &("c".to_string(), 3));
    // Removing it again finds nothing and changes nothing.
    assert_eq!(t.remove(&"b".to_string()), None);
    assert_eq!(t.len(), 2);
}
