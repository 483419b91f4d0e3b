use angry_hub::auth::store::{decode_secret, Persisted, TokenStore};

#[test]
fn a_refresh_token_is_what_gets_persisted() {
    let mut store = TokenStore::new();
    let plan = store.save_tokens("access".into(), Some("refresh".into()));
    assert_eq!(plan.refresh_token.as_deref(), Some("refresh"));
    assert_eq!(plan.access_token, None);
    assert_eq!(store.access_token().as_deref(), Some("access"));
    store.remember(plan);
    assert_eq!(store.refresh_token(&None).as_deref(), Some("refresh"));
    assert!(store.has_credentials(&None));
}

#[test]
fn without_a_refresh_token_the_access_token_is_persisted() {
    let mut store = TokenStore::new();
    let plan = store.save_tokens("access".into(), None);
    assert_eq!(plan.access_token.as_deref(), Some("access"));
    assert_eq!(plan.refresh_token, None);

    // A refresh token already stored does not change that: the new access
    // token is what the next launch restores.
    store.remember(Persisted::refresh("stored".into()));
    let plan = store.save_tokens("access-2".into(), Some(String::new()));
    assert_eq!(plan.access_token.as_deref(), Some("access-2"));
    assert_eq!(plan.refresh_token, None);
    assert_eq!(store.access_token().as_deref(), Some("access-2"));
}

#[test]
fn the_keychain_entry_wins_over_the_copy_in_memory() {
    let mut store = TokenStore::new();
    store.remember(Persisted::refresh("memory".into()));
    let keychain = Some(Persisted::refresh("keychain".into()));
    assert_eq!(store.refresh_token(&keychain).as_deref(), Some("keychain"));
    assert_eq!(store.refresh_token(&None).as_deref(), Some("memory"));
}

#[test]
fn clearing_forgets_everything() {
    let mut store = TokenStore::new();
    store.save_tokens("a".into(), Some("r".into()));
    store.remember(Persisted::refresh("r".into()));
    store.clear();
    assert!(!store.has_credentials(&None));
    assert_eq!(store.access_token(), None);
}

#[test]
fn a_stored_access_token_is_adopted_when_none_is_held() {
    let mut store = TokenStore::new();
    store.adopt(&Some(Persisted::access_only("kept".into())));
    assert_eq!(store.access_token().as_deref(), Some("kept"));
    store.adopt(&Some(Persisted::access_only("other".into())));
    assert_eq!(store.access_token().as_deref(), Some("kept"));
}

#[test]
fn an_old_secret_is_a_bare_refresh_token() {
    let decoded = decode_secret("  legacy-token \n", None).unwrap();
    assert_eq!(decoded.refresh_token.as_deref(), Some("legacy-token"));
    assert!(decode_secret("   ", None).is_none());
    let empty = Persisted { refresh_token: Some(String::new()), access_token: None };
    assert!(decode_secret("", Some(empty)).is_none());
    let parsed = Persisted { refresh_token: None, access_token: Some("a".into()) };
    assert_eq!(decode_secret("{...}", Some(parsed)).unwrap().access_token.as_deref(), Some("a"));
}
