use riverview_admin::store::{StoreValue, TtlStore};

#[test]
fn put_get_expire_delete() {
    let mut s = TtlStore::new();
    assert_eq!(s.get("k", 0), None);
    s.put("k".to_string(), StoreValue::Marker(true), 10, 100);
    assert_eq!(s.get("k", 100), Some(StoreValue::Marker(true)));
    assert_eq!(s.get("k", 109), Some(StoreValue::Marker(true)));
    assert_eq!(s.get("k", 110), None);
    assert_eq!(s.get("other", 100), None);
    s.delete("k");
    assert_eq!(s.get("k", 100), None);
    s.delete("never-there");
}

#[test]
fn put_replaces_value_and_expiry() {
    let mut s = TtlStore::new();
    s.put("k".to_string(), StoreValue::Marker(true), 10, 100);
    s.put("k".to_string(), StoreValue::Marker(false), 100, 100);
    assert_eq!(s.get("k", 150), Some(StoreValue::Marker(false)));
    s.put("j".to_string(), StoreValue::Marker(true), 5, 100);
    s.delete("k");
    assert_eq!(s.get("k", 101), None);
    assert_eq!(s.get("j", 101), Some(StoreValue::Marker(true)));
}
