use mqtt_broker_admin::entity::{copy_bytes, copy_entities, AdminEntity, EntityKind};
use mqtt_broker_admin::idmap::IdMap;
use mqtt_broker_admin::page::{paginate, Pagination};
use mqtt_broker_admin::table::KeyedTable;
use mqtt_broker_admin::tables::EntityTables;

fn entity(key: &str, value: &[u8]) -> AdminEntity {
    AdminEntity::new(String::from(key), value.to_vec())
}

fn keys(items: &[AdminEntity]) -> Vec<String> {
    items.iter().map(|e| e.key.clone()).collect()
}

#[test]
fn keyed_table_starts_empty() {
    let t = KeyedTable::new();
    assert_eq!(t.len(), 0);
    assert!(t.get(&String::from("a")).is_none());
    assert!(!t.contains_key(&String::from("a")));
    assert!(t.to_vec().is_empty());
}

#[test]
fn keyed_table_put_appends_new_keys_in_order() {
    let mut t = KeyedTable::new();
    t.put(entity("b", &[2]));
    t.put(entity("a", &[1]));
    t.put(entity("c", &[3]));
    assert_eq!(t.len(), 3);
    assert_eq!(keys(&t.to_vec()), vec!["b", "a", "c"]);
    assert_eq!(t.get(&String::from("a")), Some(&entity("a", &[1])));
}

#[test]
fn keyed_table_put_replaces_in_place() {
    let mut t = KeyedTable::new();
    t.put(entity("b", &[2]));
    t.put(entity("a", &[1]));
    t.put(entity("b", &[9, 9]));
    assert_eq!(t.len(), 2);
    assert_eq!(t.to_vec(), vec![entity("b", &[9, 9]), entity("a", &[1])]);
}

#[test]
fn keyed_table_remove_keeps_the_order_of_the_rest() {
    let mut t = KeyedTable::new();
    t.put(entity("a", &[1]));
    t.put(entity("b", &[2]));
    t.put(entity("c", &[3]));
    assert!(t.remove(&String::from("b")));
    assert!(!t.remove(&String::from("b")));
    assert_eq!(keys(&t.to_vec()), vec!["a", "c"]);
    assert!(!t.contains_key(&String::from("b")));
    assert!(t.contains_key(&String::from("c")));
}

#[test]
fn keyed_table_remove_of_missing_key_changes_nothing() {
    let mut t = KeyedTable::new();
    t.put(entity("a", &[1]));
    assert!(!t.remove(&String::from("z")));
    assert_eq!(t.to_vec(), vec![entity("a", &[1])]);
}

#[test]
fn id_map_insert_get_remove() {
    let mut m: IdMap<&'static str> = IdMap::new();
    assert_eq!(m.len(), 0);
    m.insert(5, "five");
    m.insert(3, "three");
    m.insert(5, "cinq");
    assert_eq!(m.len(), 2);
    assert_eq!(m.get(5), Some(&"cinq"));
    assert_eq!(m.get(3), Some(&"three"));
    assert_eq!(m.get(4), None);
    assert_eq!(m.entry(0), (5, &"cinq"));
    assert_eq!(m.entry(1), (3, &"three"));
    assert!(m.contains_key(3));
    assert!(m.remove(5));
    assert!(!m.remove(5));
    assert_eq!(m.len(), 1);
    assert_eq!(m.entry(0), (3, &"three"));
    assert!(!m.contains_key(5));
}

#[test]
fn entity_tables_keep_kinds_apart() {
    let mut t = EntityTables::new();
    t.put(EntityKind::User, entity("x", &[1]));
    t.put(EntityKind::Acl, entity("x", &[2]));
    assert_eq!(t.get(EntityKind::User, &String::from("x")), Some(entity("x", &[1])));
    assert_eq!(t.get(EntityKind::Acl, &String::from("x")), Some(entity("x", &[2])));
    assert_eq!(t.get(EntityKind::Schema, &String::from("x")), None);
    assert!(t.remove(EntityKind::User, &String::from("x")));
    assert!(!t.remove(EntityKind::User, &String::from("x")));
    assert_eq!(t.of(EntityKind::User).len(), 0);
    assert_eq!(t.of(EntityKind::Acl).len(), 1);
}

#[test]
fn copies_equal_what_they_copy() {
    assert_eq!(copy_bytes(&vec![1, 2, 3]), vec![1, 2, 3]);
    assert_eq!(copy_bytes(&vec![]), Vec::<u8>::new());
    let items = vec![entity("a", &[1]), entity("b", &[])];
    assert_eq!(copy_entities(&items), items);
    assert_eq!(entity("k", &[7]).clone(), entity("k", &[7]));
}

fn five() -> Vec<AdminEntity> {
    vec![
        entity("a", &[0]),
        entity("b", &[1]),
        entity("c", &[2]),
        entity("d", &[3]),
        entity("e", &[4]),
    ]
}

#[test]
fn paginate_without_options_returns_everything() {
    let (page, total) = paginate(&five(), None);
    assert_eq!(page, five());
    assert_eq!(total, 5);
}

#[test]
fn paginate_takes_limit_entries_from_offset() {
    let (page, total) = paginate(&five(), Some(Pagination { offset: 1, limit: 2 }));
    assert_eq!(keys(&page), vec!["b", "c"]);
    assert_eq!(total, 5);
}

#[test]
fn paginate_stops_at_the_end() {
    let (page, total) = paginate(&five(), Some(Pagination { offset: 3, limit: 10 }));
    assert_eq!(keys(&page), vec!["d", "e"]);
    assert_eq!(total, 5);
}

#[test]
fn paginate_offset_at_or_beyond_the_end_is_empty() {
    let (page, total) = paginate(&five(), Some(Pagination { offset: 5, limit: 2 }));
    assert!(page.is_empty());
    assert_eq!(total, 5);
    let (page, total) = paginate(&five(), Some(Pagination { offset: 99, limit: 2 }));
    assert!(page.is_empty());
    assert_eq!(total, 5);
}

#[test]
fn paginate_limit_zero_is_empty() {
    let (page, total) = paginate(&five(), Some(Pagination { offset: 0, limit: 0 }));
    assert!(page.is_empty());
    assert_eq!(total, 5);
}

#[test]
fn paginate_largest_offset_and_limit() {
    let (page, total) =
        paginate(&five(), Some(Pagination { offset: u32::MAX, limit: u32::MAX }));
    assert!(page.is_empty());
    assert_eq!(total, 5);
    let (page, _) = paginate(&five(), Some(Pagination { offset: 0, limit: u32::MAX }));
    assert_eq!(page, five());
}

#[test]
fn paginate_of_nothing() {
    let (page, total) = paginate(&Vec::new(), Some(Pagination { offset: 0, limit: 3 }));
    assert!(page.is_empty());
    assert_eq!(total, 0);
}
