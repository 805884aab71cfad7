use std::path::PathBuf;

use api_server::store::{CtxStore, Store};

fn fresh() -> Store {
    Store::new(PathBuf::from("/tmp/store.json"))
}

#[test]
fn new_store_is_empty() {
    let s = fresh();
    assert_eq!(s.get("current-library-id"), None);
    assert_eq!(s.path(), &PathBuf::from("/tmp/store.json"));
}

#[test]
fn get_after_insert() {
    let mut s = fresh();
    assert!(s.insert("a", "1").is_ok());
    assert!(s.insert("b", "2").is_ok());
    assert_eq!(s.get("a"), Some("1".to_string()));
    assert_eq!(s.get("b"), Some("2".to_string()));
    assert!(s.insert("a", "3").is_ok());
    assert_eq!(s.get("a"), Some("3".to_string()));
    assert_eq!(s.get("b"), Some("2".to_string()));
}

#[test]
fn get_after_delete() {
    let mut s = fresh();
    s.insert("a", "1").unwrap();
    s.insert("b", "2").unwrap();
    assert!(s.delete("a").is_ok());
    assert_eq!(s.get("a"), None);
    assert_eq!(s.get("b"), Some("2".to_string()));
    assert!(s.delete("missing").is_ok());
    assert_eq!(s.get("b"), Some("2".to_string()));
}

#[test]
fn load_reads_object() {
    let mut s = fresh();
    s.insert("old", "x").unwrap();
    assert!(s.load(br#"{"current-library-id":"lib-1","current-qdrant-pid":"4242"}"#).is_ok());
    assert_eq!(s.get("current-library-id"), Some("lib-1".to_string()));
    assert_eq!(s.get("current-qdrant-pid"), Some("4242".to_string()));
    assert_eq!(s.get("old"), None);
}

#[test]
fn load_refuses_other_bytes() {
    let mut s = fresh();
    s.insert("keep", "me").unwrap();
    let e = s.load(b"not json").unwrap_err();
    let expected = serde_json::from_slice::<std::collections::HashMap<String, String>>(b"not json")
        .unwrap_err()
        .to_string();
    assert_eq!(e.0, format!("Failed to read file: {}", expected));
    assert_eq!(s.get("keep"), Some("me".to_string()));
    assert!(s.load(br#"{"a": 1}"#).is_err());
    assert!(s.load(br#"["a"]"#).is_err());
    assert_eq!(s.get("keep"), Some("me".to_string()));
}

#[test]
fn save_writes_object_of_entries() {
    let mut s = fresh();
    s.insert("a", "1").unwrap();
    s.insert("b", "two").unwrap();
    s.insert("a", "3").unwrap();
    let bytes = s.save();
    let parsed: std::collections::HashMap<String, String> = serde_json::from_slice(&bytes).unwrap();
    assert_eq!(parsed.len(), 2);
    assert_eq!(parsed.get("a"), Some(&"3".to_string()));
    assert_eq!(parsed.get("b"), Some(&"two".to_string()));
}

#[test]
fn save_then_load_round_trip() {
    let mut s = fresh();
    s.insert("x", "é ü \"quoted\"").unwrap();
    s.insert("y", "").unwrap();
    let bytes = s.save();
    let mut t = Store::new(PathBuf::from("/elsewhere"));
    t.insert("z", "gone").unwrap();
    t.load(&bytes).unwrap();
    assert_eq!(t.get("x"), Some("é ü \"quoted\"".to_string()));
    assert_eq!(t.get("y"), Some(String::new()));
    assert_eq!(t.get("z"), None);
}

#[test]
fn empty_store_saves_empty_object() {
    let s = fresh();
    assert_eq!(s.save(), b"{}".to_vec());
}
