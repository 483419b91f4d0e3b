//! GitHub as the code host. The requests themselves are made by the app; what
//! is decided here is what the answers mean, and when a cached copy stands in
//! for a failed fetch.

pub mod api;

use vstd::prelude::*;

use crate::code_host::DataSourceError;

verus! {

/// The cached copy worth showing: one that holds anything.
pub open spec fn usable<T>(cached: Option<Vec<T>>) -> bool {
    cached is Some && cached->0@.len() > 0
}

/// What the cache offers before a fetch ends: its copy, unless empty.
pub fn snapshot<T>(cached: Option<Vec<T>>) -> (r: Option<Vec<T>>)
    ensures
        usable(cached) ==> r == cached,
        !usable(cached) ==> r is None,
{
    match cached {
        Some(items) => if items.len() > 0 {
            Some(items)
        } else {
            None
        },
        None => None,
    }
}

/// What a refresh yields: what was fetched; after a failure that did not end
/// the session, the cached copy when it holds anything; else the failure.
pub fn fresh_or_cached<T>(fetched: Result<Vec<T>, DataSourceError>, cached: Option<Vec<T>>) -> (r:
    Result<Vec<T>, DataSourceError>)
    ensures
        fetched is Ok ==> r == fetched,
        fetched is Err && fetched->Err_0.ended() ==> r == fetched,
        fetched is Err && !fetched->Err_0.ended() && usable(cached) ==> r == Ok::<Vec<T>, DataSourceError>(cached->0),
        fetched is Err && !fetched->Err_0.ended() && !usable(cached) ==> r == fetched,
{
    match fetched {
        Ok(items) => Ok(items),
        Err(error) => {
            if error.is_session_ended() {
                Err(error)
            } else {
                match snapshot(cached) {
                    Some(items) => Ok(items),
                    None => Err(error),
                }
            }
        },
    }
}

/// Whether the fetched copy should be written to the cache: only a success.
pub fn should_cache<T>(fetched: &Result<Vec<T>, DataSourceError>) -> (b: bool)
    ensures
        b == fetched is Ok,
{
    fetched.is_ok()
}

} // verus!
