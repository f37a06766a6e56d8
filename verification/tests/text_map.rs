use design_patterns::text_map::TextMap;

fn pair(key: &str, value: &str) -> (String, String) {
    (key.to_string(), value.to_string())
}

#[test]
fn text_map_keeps_each_key_once() {
    let mut map = TextMap::new();
    assert_eq!(map.len(), 0);
    assert!(!map.contains_key("a"));
    assert_eq!(map.get("a"), None);
    map.insert("a", "1");
    map.insert("b", "2");
    map.insert("c", "3");
    assert_eq!(map.entries(), &vec![pair("a", "1"), pair("b", "2"), pair("c", "3")]);
    map.insert("b", "20");
    assert_eq!(map.len(), 3);
    assert_eq!(map.entries(), &vec![pair("a", "1"), pair("b", "20"), pair("c", "3")]);
    map.insert("a", "10");
    map.insert("c", "30");
    assert_eq!(map.entries(), &vec![pair("a", "10"), pair("b", "20"), pair("c", "30")]);
    assert_eq!(map.get("b"), Some(&"20".to_string()));
    assert!(map.contains_key("c"));
    assert!(!map.contains_key("d"));
    assert!(!map.contains_key(""));
}

#[test]
fn text_map_copy_is_independent() {
    let mut map = TextMap::new();
    map.insert("", "empty key");
    map.insert("k", "");
    let copy = map.copy();
    map.insert("k", "changed");
    assert_eq!(copy.entries(), &vec![pair("", "empty key"), pair("k", "")]);
    assert_eq!(map.get("k"), Some(&"changed".to_string()));
    assert_eq!(copy.get(""), Some(&"empty key".to_string()));
}
