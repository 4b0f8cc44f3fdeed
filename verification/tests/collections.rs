use faff_plugin_matrix_rust::collections::{TextMap, TextSet};

#[test]
fn a_key_has_the_last_value_it_was_given() {
    let mut map = TextMap::new();
    assert!(map.get("a").is_none());
    map.insert("a", "1".to_string());
    map.insert("b", "2".to_string());
    map.insert("a", "3".to_string());
    assert_eq!(map.get("a").unwrap(), "3");
    assert_eq!(map.get("b").unwrap(), "2");
    assert!(map.get("c").is_none());
    let copy = map.clone();
    map.insert("b", "4".to_string());
    assert_eq!(copy.get("b").unwrap(), "2");
    assert_eq!(map.get("b").unwrap(), "4");
}

#[test]
fn a_set_holds_what_the_list_held() {
    let list = vec!["x".to_string(), "y".to_string(), "x".to_string()];
    let set = TextSet::from_list(&list);
    assert!(set.contains("x"));
    assert!(set.contains("y"));
    assert!(!set.contains("z"));
    assert!(!set.contains(""));
    assert!(set.clone().contains("x"));
}
