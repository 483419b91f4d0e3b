use angry_hub::keychain::{tokens_from_stored, MemoryStore, SecretStore, Stored};

#[test]
fn the_memory_store_keeps_one_secret() {
    let mut store = MemoryStore::new();
    assert_eq!(store.load(), None);
    store.save("secret").unwrap();
    assert_eq!(store.load().as_deref(), Some("secret"));
    store.save("other").unwrap();
    assert_eq!(store.load().as_deref(), Some("other"));
    store.delete();
    assert_eq!(store.load(), None);
}

#[test]
fn a_stored_record_gives_tokens_back() {
    let tokens = tokens_from_stored(Some(Stored {
        access_token: "a".into(),
        refresh_token: Some("r".into()),
    }))
    .unwrap();
    assert_eq!(tokens.access_token, "a");
    assert_eq!(tokens.refresh_token.as_deref(), Some("r"));
}

#[test]
fn empty_tokens_do_not_count() {
    assert!(tokens_from_stored(Some(Stored { access_token: String::new(), refresh_token: None })).is_none());
    let tokens = tokens_from_stored(Some(Stored {
        access_token: "a".into(),
        refresh_token: Some(String::new()),
    }))
    .unwrap();
    assert_eq!(tokens.refresh_token, None);
    assert!(tokens_from_stored(None).is_none());
}
