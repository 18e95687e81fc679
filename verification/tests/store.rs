use account_core::store::{CredentialStore, StoredAccountRecord};

fn record(secret: &str) -> StoredAccountRecord {
    StoredAccountRecord { secret: secret.to_string() }
}

#[test]
fn get_absent_is_none() {
    let store = CredentialStore::new();
    assert!(store.get(&"u@x.com".to_string()).is_none());
    assert!(!store.contains(&"u@x.com".to_string()));
}

#[test]
fn put_then_get() {
    let mut store = CredentialStore::new();
    store.put("u@x.com".to_string(), record("tok-1"));
    let got = store.get(&"u@x.com".to_string()).unwrap();
    assert_eq!(got.secret, "tok-1");
    assert!(store.contains(&"u@x.com".to_string()));
}

#[test]
fn put_overwrites() {
    let mut store = CredentialStore::new();
    store.put("u@x.com".to_string(), record("tok-1"));
    store.put("u@x.com".to_string(), record("tok-2"));
    let got = store.get(&"u@x.com".to_string()).unwrap();
    assert_eq!(got.secret, "tok-2");
}

#[test]
fn put_keeps_other_identities() {
    let mut store = CredentialStore::new();
    store.put("a@x.com".to_string(), record("tok-a"));
    store.put("b@x.com".to_string(), record("tok-b"));
    assert_eq!(store.get(&"a@x.com".to_string()).unwrap().secret, "tok-a");
    assert_eq!(store.get(&"b@x.com".to_string()).unwrap().secret, "tok-b");
}

#[test]
fn delete_removes() {
    let mut store = CredentialStore::new();
    store.put("u@x.com".to_string(), record("tok-1"));
    store.delete(&"u@x.com".to_string());
    assert!(store.get(&"u@x.com".to_string()).is_none());
}

#[test]
fn delete_absent_is_a_noop() {
    let mut store = CredentialStore::new();
    store.put("a@x.com".to_string(), record("tok-a"));
    store.delete(&"missing@x.com".to_string());
    assert_eq!(store.get(&"a@x.com".to_string()).unwrap().secret, "tok-a");
}

#[test]
fn cloned_record_keeps_secret() {
    let rec = record("tok-9");
    let copy = rec.clone();
    assert_eq!(copy.secret, "tok-9");
}
