use germina::node::tls::TlsIdentityStore;

#[test]
fn identity_is_made_once_and_reused() {
    let mut store = TlsIdentityStore::new();
    let (cert, key) = store.identity().unwrap();
    assert!(!cert.is_empty());
    assert!(!key.is_empty());
    let (cert2, key2) = store.identity().unwrap();
    assert_eq!(cert, cert2);
    assert_eq!(key, key2);
}

#[test]
fn separate_stores_make_separate_keys() {
    let (_, key_a) = TlsIdentityStore::new().identity().unwrap();
    let (_, key_b) = TlsIdentityStore::new().identity().unwrap();
    assert_ne!(key_a, key_b);
}

#[test]
fn identity_is_made_for_localhost() {
    assert_eq!(germina::node::tls::identity_subject_names(), vec!["localhost".to_string()]);
}
