use kvstore::open;
use kvstore::JSONBackend;
use kvstore::JSONStorage;
use kvstore::MemResource;
use kvstore::MemStorage;

type MemBackend = JSONBackend<MemResource>;

#[test]
fn it_opens_a_database() {
    let result = open::<MemBackend>("./test.db");
    assert_eq!(result.is_ok(), true);
}

#[test]
fn it_sets_deletes_and_gets_values() {
    let mut db = open::<MemBackend>("./test.db").unwrap();

    let set_result = db.set("xixi", "haha");

    assert_eq!(set_result.is_ok(), true);

    let get_result = db.get("xixi");

    assert_eq!(get_result, Some("haha"));

    let _ = db.del("xixi");

    assert_eq!(db.get("xixi"), None);
}

#[test]
fn it_persists_data() {
    let mut store = JSONStorage::new();

    let _ = store.set("xixi", "haha");
    let _ = store.set("somethingBig", "BBBBBBiiiiiigggggggggg");
    let _ = store.set("hehe", "heihei");

    let content = store.to_bytes();
    drop(store);

    let store = JSONStorage::from_bytes(&content);

    assert_eq!(store.get("xixi"), Some("haha"));
    assert_eq!(store.get("somethingBig"), Some("BBBBBBiiiiiigggggggggg"));
    assert_eq!(store.get("hehe"), Some("heihei"));
}

#[test]
fn empty_content_yields_empty_mapping() {
    let store = JSONStorage::from_bytes(b"");
    assert_eq!(store.get("xixi"), None);
    assert_eq!(store.to_bytes(), b"{}");
}

#[test]
fn malformed_content_yields_empty_mapping() {
    let store = JSONStorage::from_bytes(b"this is not json {");
    assert_eq!(store.get("xixi"), None);
    assert_eq!(store.to_bytes(), b"{}");
}

#[test]
fn wrong_shape_yields_empty_mapping() {
    let store = JSONStorage::from_bytes(b"[1, 2, 3]");
    assert_eq!(store.to_bytes(), b"{}");
}

#[test]
fn set_overwrites_a_value() {
    let mut store = JSONStorage::new();
    let _ = store.set("key", "first");
    let _ = store.set("key", "second");
    assert_eq!(store.get("key"), Some("second"));
}

#[test]
fn del_of_absent_key_succeeds_and_changes_nothing() {
    let mut store = JSONStorage::new();
    let _ = store.set("kept", "value");
    let before = store.to_bytes();

    let result = store.del("absent");

    assert_eq!(result.is_ok(), true);
    assert_eq!(store.get("kept"), Some("value"));
    assert_eq!(store.to_bytes(), before);
}

#[test]
fn serialization_is_deterministic() {
    let mut store = JSONStorage::new();
    let _ = store.set("b", "2");
    let _ = store.set("a", "1");

    let first = store.to_bytes();
    let second = store.to_bytes();

    assert_eq!(first, second);
    assert_eq!(first, b"{\"a\":\"1\",\"b\":\"2\"}");
}

#[test]
fn serialized_content_is_exactly_the_mapping() {
    let mut store = JSONStorage::new();
    let _ = store.set("xixi", "haha");
    assert_eq!(store.to_bytes(), b"{\"xixi\":\"haha\"}");
}

#[test]
fn loading_reads_the_members_back() {
    let store = JSONStorage::from_bytes(b"{\"a\":\"b\"}");
    assert_eq!(store.get("a"), Some("b"));
    assert_eq!(store.get("b"), None);
}

#[test]
fn shrunk_content_replaces_the_longer_one_entirely() {
    let mut store = JSONStorage::new();
    let _ = store.set("one", "1");
    let _ = store.set("two", "2");
    let _ = store.set("three", "3");
    let long = store.to_bytes();

    let _ = store.del("two");
    let _ = store.del("three");
    let short = store.to_bytes();

    assert!(short.len() < long.len());

    let reloaded = JSONStorage::from_bytes(&short);
    assert_eq!(reloaded.get("one"), Some("1"));
    assert_eq!(reloaded.get("two"), None);
    assert_eq!(reloaded.get("three"), None);
}

#[test]
fn non_ascii_entries_round_trip() {
    let mut store = JSONStorage::new();
    let _ = store.set("clé", "wert 😀");
    let content = store.to_bytes();

    let reloaded = JSONStorage::from_bytes(&content);
    assert_eq!(reloaded.get("clé"), Some("wert 😀"));
}

#[test]
fn flush_of_a_memory_backend_succeeds_and_keeps_the_mapping() {
    let mut db = open::<MemStorage>("anywhere").unwrap();
    let _ = db.set("k", "v");

    let flushed = db.flush();

    assert_eq!(flushed.is_ok(), true);
    assert_eq!(db.get("k"), Some("v"));
}

#[test]
fn json_backend_over_a_memory_resource_works() {
    let mut db = open::<MemBackend>("./test.db").unwrap();
    assert_eq!(db.get("xixi"), None);

    let _ = db.set("xixi", "haha");
    assert_eq!(db.get("xixi"), Some("haha"));

    let flushed = db.flush();
    assert_eq!(flushed.is_ok(), true);
    assert_eq!(db.get("xixi"), Some("haha"));

    let _ = db.del("xixi");
    assert_eq!(db.get("xixi"), None);
}
