use kvserver::storage::Storage;
use std::sync::{Arc, Mutex};

#[test]
fn test_storage_set_get() {
    let mut storage = Storage::new();
    storage.set("key1".to_string(), "value1".to_string());
    assert_eq!(storage.get("key1"), Some("value1".to_string()));
}

#[test]
fn test_storage_get_non_existent() {
    let storage = Storage::new();
    assert_eq!(storage.get("non_existent_key"), None);
}

#[test]
fn test_storage_overwrite() {
    let mut storage = Storage::new();
    storage.set("key1".to_string(), "value1".to_string());
    storage.set("key1".to_string(), "new_value".to_string());
    assert_eq!(storage.get("key1"), Some("new_value".to_string()));
}

#[test]
fn test_storage_thread_safety() {
    let storage = Arc::new(Mutex::new(Storage::new()));
    let storage_clone = Arc::clone(&storage);
    let runtime = tokio::runtime::Runtime::new().unwrap();
    runtime.block_on(async move {
        let handle = tokio::task::spawn_blocking(move || {
            storage_clone.lock().unwrap().set("thread_key".to_string(), "thread_value".to_string());
        });
        handle.await.unwrap();
    });
    assert_eq!(storage.lock().unwrap().get("thread_key"), Some("thread_value".to_string()));
}

#[test]
fn racing_sets_leave_one_of_the_values() {
    let storage = Arc::new(Mutex::new(Storage::new()));
    let a = Arc::clone(&storage);
    let b = Arc::clone(&storage);
    let runtime = tokio::runtime::Runtime::new().unwrap();
    runtime.block_on(async move {
        let first = tokio::task::spawn_blocking(move || {
            for _ in 0..200 {
                a.lock().unwrap().set("k".to_string(), "a".to_string());
            }
        });
        let second = tokio::task::spawn_blocking(move || {
            for _ in 0..200 {
                b.lock().unwrap().set("k".to_string(), "b".to_string());
            }
        });
        first.await.unwrap();
        second.await.unwrap();
    });
    let v = storage.lock().unwrap().get("k").unwrap();
    assert!(v == "a" || v == "b");
}

#[test]
fn repeated_set_is_like_one_set() {
    let mut once = Storage::new();
    once.set("k".to_string(), "v".to_string());
    let mut twice = Storage::new();
    twice.set("k".to_string(), "v".to_string());
    twice.set("k".to_string(), "v".to_string());
    assert_eq!(once.get("k"), twice.get("k"));
    assert_eq!(twice.get("k"), Some("v".to_string()));
}

#[test]
fn get_after_set_survives_other_keys() {
    let mut storage = Storage::new();
    storage.set("k".to_string(), "v".to_string());
    storage.set("other".to_string(), "x".to_string());
    storage.set("third".to_string(), "y".to_string());
    assert_eq!(storage.get("k"), Some("v".to_string()));
}

#[test]
fn empty_value_is_distinct_from_absent() {
    let mut storage = Storage::new();
    assert_eq!(storage.get("k"), None);
    storage.set("k".to_string(), "".to_string());
    assert_eq!(storage.get("k"), Some(String::new()));
    storage.set("k".to_string(), "w".to_string());
    assert_eq!(storage.get("k"), Some("w".to_string()));
}
