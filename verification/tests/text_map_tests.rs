use oviec::text_map::{text_before, upsert_entry, TextMap};

#[test]
fn insert_keeps_keys_sorted_and_replaces() {
    let mut m = TextMap::new();
    m.insert("pear".to_string(), "1".to_string());
    m.insert("apple".to_string(), "2".to_string());
    m.insert("fig".to_string(), "3".to_string());
    m.insert("apple".to_string(), "4".to_string());
    assert_eq!(m.len(), 3);
    assert!(m.is_sorted());
    let keys: Vec<&str> = m.entries().iter().map(|(k, _)| k.as_str()).collect();
    assert_eq!(keys, vec!["apple", "fig", "pear"]);
    assert_eq!(m.get("apple").map(|s| s.as_str()), Some("4"));
    assert_eq!(m.get("kiwi"), None);
    let d = m.duplicate();
    assert_eq!(d.entries(), m.entries());
}

#[test]
fn text_order() {
    assert!(text_before("ab", "b"));
    assert!(text_before("a", "ab"));
    assert!(!text_before("ab", "ab"));
    assert!(!text_before("b", "ab"));
    assert!(text_before("", "a"));
    assert!(text_before("Z", "a"));
}

#[test]
fn upsert_on_sorted_entries() {
    let mut entries = vec![("a".to_string(), "1".to_string()), ("c".to_string(), "3".to_string())];
    upsert_entry(&mut entries, "b".to_string(), "2".to_string());
    upsert_entry(&mut entries, "c".to_string(), "9".to_string());
    assert_eq!(
        entries,
        vec![
            ("a".to_string(), "1".to_string()),
            ("b".to_string(), "2".to_string()),
            ("c".to_string(), "9".to_string())
        ]
    );
}

#[test]
fn insertion_order_does_not_matter() {
    let mut a = TextMap::new();
    a.insert("PATH".to_string(), "/bin".to_string());
    a.insert("HOME".to_string(), "/root".to_string());
    a.insert("LANG".to_string(), "C".to_string());
    let mut b = TextMap::new();
    b.insert("LANG".to_string(), "C".to_string());
    b.insert("PATH".to_string(), "/bin".to_string());
    b.insert("HOME".to_string(), "/root".to_string());
    assert_eq!(a.entries(), b.entries());
}
