use pica_core::crud::Store;
use pica_core::errors::ErrorKind;

fn fields(pairs: &[(&str, &str)]) -> Vec<(String, String)> {
    pairs
        .iter()
        .map(|(k, v)| (k.to_string(), v.to_string()))
        .collect()
}

#[test]
fn created_records_read_back_the_same() {
    let mut store = Store::new();
    store
        .create("task::1", fields(&[("endpoint", "https://example.invalid")]), 10)
        .unwrap();
    let record = store.get("task::1").unwrap();
    assert_eq!(record.fields.len(), 1);
    assert_eq!(record.fields[0].0.as_str(), "endpoint");
    assert_eq!(record.fields[0].1.as_str(), "https://example.invalid");
    assert_eq!(record.metadata.created_at, 10);
    assert!(record.metadata.active);
}

#[test]
fn creating_twice_conflicts() {
    let mut store = Store::new();
    store.create("task::1", fields(&[]), 10).unwrap();
    let err = store.create("task::1", fields(&[]), 11).unwrap_err();
    assert_eq!(err.kind, ErrorKind::Conflict);
    assert_eq!(err.status_code(), 409);
}

#[test]
fn patch_is_a_merge() {
    let mut store = Store::new();
    store
        .create("c::1", fields(&[("name", "old"), ("group", "g")]), 10)
        .unwrap();
    store
        .update("c::1", &fields(&[("name", "new"), ("extra", "x")]), 20)
        .unwrap();
    let record = store.get("c::1").unwrap();
    // Every updated field took the new value; untouched fields stayed.
    let lookup = |key: &str| {
        record
            .fields
            .iter()
            .rev()
            .find(|(k, _)| k == key)
            .map(|(_, v)| v.clone())
            .unwrap()
    };
    assert_eq!(lookup("name").as_str(), "new");
    assert_eq!(lookup("group").as_str(), "g");
    assert_eq!(lookup("extra").as_str(), "x");
    assert!(record.metadata.updated);
    assert_eq!(record.metadata.updated_at, 20);
}

#[test]
fn delete_is_logical_and_hides_the_record() {
    let mut store = Store::new();
    store.create("c::1", fields(&[]), 10).unwrap();
    store.delete("c::1", 20).unwrap();
    // A read after the delete finds nothing.
    assert!(store.get("c::1").is_none());
    // A second delete finds nothing either.
    let err = store.delete("c::1", 30).unwrap_err();
    assert_eq!(err.kind, ErrorKind::NotFound);
    // The record still occupies its place in the store.
    assert_eq!(store.len(), 1);
}

#[test]
fn list_clamps_the_page_size() {
    let mut store = Store::new();
    let mut i = 0;
    while i < 150 {
        let id = format!("rec::{:03}", i);
        store.create(id.as_str(), fields(&[]), 10).unwrap();
        i += 1;
    }
    // A limit over the cap is clamped to 100.
    let page = store.list_ids(1000, 0);
    assert_eq!(page.len(), 100);
    // Paging skips live records.
    let second = store.list_ids(1000, 100);
    assert_eq!(second.len(), 50);
    assert_eq!(second[0].as_str(), "rec::100");
    // Deleted records drop out of pages.
    store.delete("rec::000", 20).unwrap();
    let page = store.list_ids(10, 0);
    assert_eq!(page.len(), 10);
    assert_eq!(page[0].as_str(), "rec::001");
}
