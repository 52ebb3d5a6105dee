use music_metadata::registry::TagRegistry;

#[test]
fn lookup_ignores_case_and_keeps_order() {
    let mut registry: TagRegistry<String> = TagRegistry::new();
    registry.insert("TIT2", "A".to_string());
    registry.insert("tit2", "B".to_string());
    let expected = vec!["A".to_string(), "B".to_string()];
    assert_eq!(registry.get("TIT2"), Some(&expected));
    assert_eq!(registry.get("tit2"), Some(&expected));
    assert_eq!(registry.get("Tit2"), Some(&expected));
    assert_eq!(registry.len(), 1);
    assert_eq!(registry.key_at(0), "TIT2");
}

#[test]
fn first_occurrence_fixes_the_place_of_a_key() {
    let mut registry: TagRegistry<u32> = TagRegistry::new();
    registry.insert("b", 1);
    registry.insert("a", 2);
    registry.insert("B", 3);
    registry.insert("A", 4);
    assert_eq!(registry.len(), 2);
    assert_eq!(registry.key_at(0), "B");
    assert_eq!(registry.key_at(1), "A");
    assert_eq!(registry.list_at(0), &vec![1, 3]);
    assert_eq!(registry.list_at(1), &vec![2, 4]);
    assert_eq!(registry.position(&"B".to_string()), Some(0));
    assert_eq!(registry.position(&"b".to_string()), None);
}

#[test]
fn absent_key_and_clear() {
    let mut registry: TagRegistry<u32> = TagRegistry::new();
    assert_eq!(registry.get("TIT2"), None);
    registry.insert("TIT2", 7);
    assert_eq!(registry.get("TALB"), None);
    assert_eq!(registry.get("tit2"), Some(&vec![7]));
    registry.clear();
    assert_eq!(registry.get("TIT2"), None);
    assert_eq!(registry.len(), 0);
}

#[test]
fn keys_are_compared_in_upper_case_beyond_ascii() {
    let mut registry: TagRegistry<u32> = TagRegistry::new();
    registry.insert("t\u{E9}l", 1);
    registry.insert("T\u{C9}L", 2);
    assert_eq!(registry.get("T\u{E9}L"), Some(&vec![1, 2]));
    assert_eq!(registry.key_at(0), "T\u{C9}L");
}
