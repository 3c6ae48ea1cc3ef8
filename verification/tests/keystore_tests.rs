use mls_session::keystore::KeyStore;

#[test]
fn store_then_load_round_trips() {
    let mut store = KeyStore::new();
    store.store("svc", "alpha", "one").unwrap();
    assert_eq!(store.load("svc", "alpha").unwrap(), Some("one".to_string()));
    assert_eq!(store.load("svc", "beta").unwrap(), None);
    assert_eq!(store.load("other", "alpha").unwrap(), None);
}

#[test]
fn store_replaces_the_previous_value() {
    let mut store = KeyStore::new();
    store.store("svc", "alpha", "one").unwrap();
    store.store("svc", "alpha", "two").unwrap();
    assert_eq!(store.load("svc", "alpha").unwrap(), Some("two".to_string()));
}

#[test]
fn delete_is_idempotent_and_scoped() {
    let mut store = KeyStore::new();
    store.store("svc", "alpha", "one").unwrap();
    store.store("svc", "beta", "two").unwrap();
    store.delete("svc", "alpha").unwrap();
    assert_eq!(store.load("svc", "alpha").unwrap(), None);
    assert_eq!(store.load("svc", "beta").unwrap(), Some("two".to_string()));
    store.delete("svc", "alpha").unwrap();
    assert_eq!(store.load("svc", "alpha").unwrap(), None);
}

#[test]
fn keychain_calls_use_the_fixed_service() {
    let mut store = KeyStore::new();
    store.keychain_store("identity".to_string(), "hunter".to_string()).unwrap();
    assert_eq!(
        store.keychain_load("identity".to_string()).unwrap(),
        Some("hunter".to_string())
    );
    assert_eq!(store.load("dev.cairn.desktop", "identity").unwrap(), Some("hunter".to_string()));
    store.keychain_delete("identity".to_string()).unwrap();
    assert_eq!(store.keychain_load("identity".to_string()).unwrap(), None);
    store.keychain_delete("identity".to_string()).unwrap();
}
