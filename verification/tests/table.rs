use xds_client::resource::ResourceKey;
use xds_client::table::Table;

fn key(type_url: &str, name: &str) -> ResourceKey {
    ResourceKey { name: name.to_string(), type_url: type_url.to_string() }
}

#[test]
fn insert_replaces() {
    let mut t: Table<String, u32> = Table::new();
    assert_eq!(t.insert("a".to_string(), 1), None);
    assert_eq!(t.insert("a".to_string(), 2), Some(1));
    assert_eq!(t.get(&"a".to_string()), Some(&2));
    assert_eq!(t.entries().len(), 1);
}

#[test]
fn remove_takes_one_key_out() {
    let mut t: Table<String, u32> = Table::new();
    t.insert("a".to_string(), 1);
    t.insert("b".to_string(), 2);
    t.insert("c".to_string(), 3);
    assert_eq!(t.remove(&"b".to_string()), Some(2));
    assert_eq!(t.remove(&"b".to_string()), None);
    assert_eq!(t.get(&"b".to_string()), None);
    assert_eq!(t.into_entries(), vec![("a".to_string(), 1), ("c".to_string(), 3)]);
}

#[test]
fn resource_keys_differ_in_type_and_in_name() {
    let mut t: Table<ResourceKey, u32> = Table::new();
    t.insert(key("t", "a"), 1);
    t.insert(key("u", "a"), 2);
    t.insert(key("t", "b"), 3);
    assert_eq!(t.get(&key("t", "a")), Some(&1));
    assert_eq!(t.get(&key("u", "a")), Some(&2));
    assert_eq!(t.get(&key("t", "b")), Some(&3));
    assert_eq!(t.get(&key("u", "b")), None);
}
