use kv::kv::KV;
use kv::store::{del_key, get_key, get_store, set_key, KVStore, OpType};
use std::str::FromStr;

fn value_of(map: &KV, k: &str) -> Option<String> {
    get_key(k, map)
}

#[test]
fn get_after_set_returns_value() {
    let mut m = KV::new();
    set_key("k", "v", &mut m);
    assert_eq!(value_of(&m, "k"), Some("v".to_string()));
}

#[test]
fn set_overwrites_previous_value() {
    let mut m = KV::new();
    set_key("k", "old", &mut m);
    set_key("other", "x", &mut m);
    set_key("k", "new", &mut m);
    assert_eq!(value_of(&m, "k"), Some("new".to_string()));
    assert_eq!(value_of(&m, "other"), Some("x".to_string()));
    assert_eq!(m.pairs().len(), 2);
}

#[test]
fn get_missing_key_is_none() {
    let m = KV::new();
    assert_eq!(value_of(&m, "nope"), None);
}

#[test]
fn del_present_key_returns_value_and_removes_it() {
    let mut m = KV::new();
    set_key("a", "1", &mut m);
    set_key("b", "2", &mut m);
    assert_eq!(del_key("a", &mut m), Some("1".to_string()));
    assert_eq!(value_of(&m, "a"), None);
    assert_eq!(value_of(&m, "b"), Some("2".to_string()));
}

#[test]
fn del_absent_key_returns_none() {
    let mut m = KV::new();
    set_key("b", "2", &mut m);
    assert_eq!(del_key("a", &mut m), None);
    assert_eq!(value_of(&m, "a"), None);
    assert_eq!(m.pairs().len(), 1);
}

#[test]
fn empty_key_and_value_are_ordinary() {
    let mut m = KV::new();
    set_key("", "", &mut m);
    assert_eq!(value_of(&m, ""), Some(String::new()));
}

#[test]
fn pairs_lists_each_key_once() {
    let mut m = KV::new();
    set_key("x", "1", &mut m);
    set_key("y", "2", &mut m);
    set_key("x", "3", &mut m);
    let mut p = m.pairs();
    p.sort();
    assert_eq!(
        p,
        vec![("x".to_string(), "3".to_string()), ("y".to_string(), "2".to_string())]
    );
}

#[test]
fn missing_file_gives_empty_store() {
    let s = get_store(None);
    assert!(s.kvs.pairs().is_empty());
    assert!(s.cmds.pairs().is_empty());
    assert!(s.hooks.is_empty());
}

#[test]
fn loaded_store_is_kept() {
    let mut loaded = KVStore::new();
    set_key("k", "v", &mut loaded.kvs);
    let s = get_store(Some(loaded));
    assert_eq!(get_key("k", &s.kvs), Some("v".to_string()));
}

#[test]
fn op_names_parse() {
    assert_eq!(OpType::from_name("get"), Some(OpType::Get));
    assert_eq!(OpType::from_name("set"), Some(OpType::Put));
    assert_eq!(OpType::from_name("del"), Some(OpType::Del));
    assert_eq!(OpType::from_name("Get"), None);
    assert_eq!(OpType::from_name(""), None);
    assert_eq!(OpType::from_str("set"), Ok(OpType::Put));
    assert_eq!(OpType::from_str("put"), Err("No match found!"));
}
