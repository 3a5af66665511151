use devcontainer::string_map::{StringMap, TextMap};

fn map_of(pairs: &[(&str, &str)]) -> TextMap {
    let mut map: TextMap = StringMap::new();
    for (key, value) in pairs {
        map.insert(key.to_string(), value.to_string());
    }
    map
}

fn entries_of(map: &TextMap) -> Vec<(String, String)> {
    let mut entries = Vec::new();
    let mut i = 0;
    while i < map.len() {
        entries.push((map.key_at(i).clone(), map.value_at(i).clone()));
        i += 1;
    }
    entries
}

#[test]
fn a_new_map_is_empty() {
    let map: TextMap = StringMap::new();
    assert_eq!(map.len(), 0);
    assert_eq!(map.get("a"), None);
}

#[test]
fn entries_keep_the_order_of_their_keys() {
    let map = map_of(&[("b", "1"), ("a", "2"), ("c", "3")]);
    assert_eq!(
        entries_of(&map),
        vec![
            ("b".to_string(), "1".to_string()),
            ("a".to_string(), "2".to_string()),
            ("c".to_string(), "3".to_string()),
        ]
    );
    assert_eq!(map.get("a"), Some(&"2".to_string()));
    assert_eq!(map.get("d"), None);
}

#[test]
fn a_key_set_again_keeps_its_place() {
    let map = map_of(&[("b", "1"), ("a", "2"), ("b", "9")]);
    assert_eq!(map.len(), 2);
    assert_eq!(
        entries_of(&map),
        vec![
            ("b".to_string(), "9".to_string()),
            ("a".to_string(), "2".to_string()),
        ]
    );
}

#[test]
fn extending_lays_one_map_over_another() {
    let mut base = map_of(&[("A", "1"), ("B", "2")]);
    let extra = map_of(&[("B", "x"), ("C", "y")]);
    base.extend(&extra);
    assert_eq!(
        entries_of(&base),
        vec![
            ("A".to_string(), "1".to_string()),
            ("B".to_string(), "x".to_string()),
            ("C".to_string(), "y".to_string()),
        ]
    );
    assert_eq!(extra.len(), 2);
}

#[test]
fn a_copy_holds_the_same_entries() {
    let map = map_of(&[("b", "1"), ("a", "2")]);
    let copy = map.clone();
    assert_eq!(entries_of(&copy), entries_of(&map));
}

#[test]
fn values_of_any_type_are_held() {
    let mut map: StringMap<u16> = StringMap::new();
    map.insert("http".to_string(), 80);
    map.insert("https".to_string(), 443);
    map.insert("http".to_string(), 8080);
    assert_eq!(map.len(), 2);
    assert_eq!(map.key_at(0), "http");
    assert_eq!(*map.value_at(0), 8080);
    assert_eq!(map.get("https"), Some(&443));
}
