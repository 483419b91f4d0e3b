use angry_hub::code_host::github::{fresh_or_cached, should_cache, snapshot};
use angry_hub::code_host::{is_oauth_app_restricted_message, DataSourceError};

#[test]
fn a_new_error_does_not_end_the_session() {
    let e = DataSourceError::new("boom");
    assert_eq!(e.message, "boom");
    assert!(!e.is_session_ended());
    assert_eq!(e.to_string(), "boom");
}

#[test]
fn the_session_ended_error_is_marked() {
    let e = DataSourceError::session_ended();
    assert_eq!(e.message, "session ended");
    assert!(e.is_session_ended());
}

#[test]
fn oauth_restrictions_are_recognised() {
    assert!(is_oauth_app_restricted_message(
        "Although you appear to have the correct authorization credentials, the `acme` organization has enabled OAuth App access restrictions"
    ));
    assert!(!is_oauth_app_restricted_message("Not Found"));
    assert!(DataSourceError::new("x OAuth App access restrictions y").is_oauth_app_restricted());
}

#[test]
fn a_failed_fetch_falls_back_to_a_cached_copy() {
    let fetched: Result<Vec<u32>, DataSourceError> = Err(DataSourceError::new("offline"));
    assert_eq!(fresh_or_cached(fetched, Some(vec![1, 2])).unwrap(), vec![1, 2]);
}

#[test]
fn an_empty_cache_does_not_hide_the_failure() {
    let fetched: Result<Vec<u32>, DataSourceError> = Err(DataSourceError::new("offline"));
    assert_eq!(fresh_or_cached(fetched, Some(vec![])).unwrap_err().message, "offline");
    let fetched: Result<Vec<u32>, DataSourceError> = Err(DataSourceError::new("offline"));
    assert!(fresh_or_cached(fetched, None).is_err());
}

#[test]
fn an_ended_session_is_never_hidden_by_the_cache() {
    let fetched: Result<Vec<u32>, DataSourceError> = Err(DataSourceError::session_ended());
    let r = fresh_or_cached(fetched, Some(vec![1]));
    assert!(r.unwrap_err().is_session_ended());
}

#[test]
fn a_fresh_fetch_wins_and_is_cached() {
    let fetched: Result<Vec<u32>, DataSourceError> = Ok(vec![3]);
    assert!(should_cache(&fetched));
    assert_eq!(fresh_or_cached(fetched, Some(vec![1])).unwrap(), vec![3]);
    assert_eq!(snapshot(Some(vec![5u32])), Some(vec![5]));
    assert_eq!(snapshot::<u32>(Some(vec![])), None);
}

#[test]
fn the_message_is_readable_as_text() {
    let e = DataSourceError::new("boom");
    assert_eq!(e.message_str(), "boom");
    assert_eq!(e.message_str(), e.message);
}
