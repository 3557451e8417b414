use posthog_rs::dict::Dict;

#[test]
fn dict_starts_empty() {
    let dict: Dict<bool> = Dict::new();
    assert!(dict.entries().is_empty());
    assert_eq!(dict.get("a"), None);
}

#[test]
fn dict_insert_then_get() {
    let mut dict: Dict<bool> = Dict::new();
    dict.insert("a".to_string(), true);
    dict.insert("b".to_string(), false);
    assert_eq!(dict.get("a"), Some(&true));
    assert_eq!(dict.get("b"), Some(&false));
    assert_eq!(dict.get("c"), None);
}

#[test]
fn dict_insert_replaces_value_of_known_key() {
    let mut dict: Dict<u8> = Dict::new();
    dict.insert("a".to_string(), 1);
    dict.insert("b".to_string(), 2);
    dict.insert("a".to_string(), 3);
    assert_eq!(dict.get("a"), Some(&3));
    assert_eq!(dict.get("b"), Some(&2));
    assert_eq!(dict.entries().len(), 2);
}
