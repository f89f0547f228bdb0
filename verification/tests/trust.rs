use lan_discovery::text::same_text;
use lan_discovery::trust::TrustStore;

#[test]
fn text_comparison() {
    assert!(same_text("", ""));
    assert!(same_text("abc", "abc"));
    assert!(!same_text("abc", "abd"));
    assert!(!same_text("abc", "ab"));
    assert!(!same_text("ab", "abc"));
    assert!(same_text("héllo", "héllo"));
    assert!(!same_text("héllo", "hèllo"));
}

#[test]
fn store_starts_empty() {
    let store = TrustStore::new();
    assert_eq!(store.len(), 0);
    assert!(store.get("peer.local").is_none());
    assert!(store.entries().is_empty());
}

#[test]
fn insert_then_get() {
    let mut store = TrustStore::new();
    store.insert("a.local", "fp-a");
    store.insert("b.local", "fp-b");
    assert_eq!(store.get("a.local"), Some(&"fp-a".to_string()));
    assert_eq!(store.get("b.local"), Some(&"fp-b".to_string()));
    assert_eq!(store.get("c.local"), None);
    assert_eq!(store.len(), 2);
}

#[test]
fn insert_replaces() {
    let mut store = TrustStore::new();
    store.insert("a.local", "fp-a");
    store.insert("b.local", "fp-b");
    store.insert("a.local", "fp-a2");
    assert_eq!(store.get("a.local"), Some(&"fp-a2".to_string()));
    assert_eq!(store.get("b.local"), Some(&"fp-b".to_string()));
    assert_eq!(store.len(), 2);
    let entries = store.entries();
    assert_eq!(entries.len(), 2);
    assert_eq!(entries[0].server_identity, "a.local");
    assert_eq!(entries[0].fingerprint, "fp-a2");
}

#[test]
fn insert_all_approves_every_domain() {
    let mut store = TrustStore::new();
    store.insert("keep.local", "fp-keep");
    store.insert("a.local", "fp-old");
    store.insert_all(&vec!["a.local".to_string(), "b.local".to_string()], "fp-new");
    assert_eq!(store.get("a.local"), Some(&"fp-new".to_string()));
    assert_eq!(store.get("b.local"), Some(&"fp-new".to_string()));
    assert_eq!(store.get("keep.local"), Some(&"fp-keep".to_string()));
    assert_eq!(store.len(), 3);
}

#[test]
fn copy_of_a_store_is_its_own() {
    let mut store = TrustStore::new();
    store.insert("a.local", "fp-a");
    let mut copy = store.clone();
    copy.insert("a.local", "fp-other");
    copy.insert("b.local", "fp-b");
    assert_eq!(store.get("a.local"), Some(&"fp-a".to_string()));
    assert_eq!(store.get("b.local"), None);
    assert_eq!(copy.get("a.local"), Some(&"fp-other".to_string()));
    assert_eq!(copy.len(), 2);
}
