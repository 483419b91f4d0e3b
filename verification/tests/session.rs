use angry_hub::session::{Session, Tokens};

fn tokens() -> Tokens {
    Tokens {
        access_token: "access".into(),
        refresh_token: Some("refresh".into()),
    }
}

#[test]
fn stores_both_tokens() {
    let mut session = Session::new();
    session.store(tokens());

    assert_eq!(session.access_token(), Some("access"));
    assert_eq!(session.refresh_token(), Some("refresh"));
}

#[test]
fn refresh_replaces_both_tokens() {
    let mut session = Session::new();
    session.store(tokens());
    session.store(Tokens {
        access_token: "access-2".into(),
        refresh_token: Some("refresh-2".into()),
    });

    assert_eq!(session.access_token(), Some("access-2"));
    assert_eq!(session.refresh_token(), Some("refresh-2"));
}

#[test]
fn clear_removes_both_tokens() {
    let mut session = Session::new();
    session.store(tokens());
    session.clear();

    assert_eq!(session.access_token(), None);
    assert_eq!(session.refresh_token(), None);
}

#[test]
fn a_refresh_without_a_refresh_token_keeps_the_stored_one() {
    let mut session = Session::new();
    session.store(tokens());
    session.store(Tokens {
        access_token: "access-2".into(),
        refresh_token: None,
    });
    assert_eq!(session.access_token(), Some("access-2"));
    assert_eq!(session.refresh_token(), Some("refresh"));
    session.store(Tokens {
        access_token: "access-3".into(),
        refresh_token: Some(String::new()),
    });
    assert_eq!(session.refresh_token(), Some("refresh"));
}
