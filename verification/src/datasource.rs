//! A plain code host interface: errors that carry a message only, and a
//! store for a single token.

use vstd::prelude::*;

use crate::code_host::oauth_restricted;
use crate::model::{ActivityItem, DeviceCode, PullRequest};
use crate::text::{owned, str_contains};

verus! {

pub type DataSourceResult<T> = Result<T, DataSourceError>;

/// A failed request to the code host, with a message for the user.
#[derive(Debug)]
pub struct DataSourceError {
    pub message: String,
}

impl Clone for DataSourceError {
    fn clone(&self) -> (r: Self)
        ensures
            r == *self,
    {
        DataSourceError { message: self.message.clone() }
    }
}

impl DataSourceError {
    pub fn new(message: &str) -> (e: Self)
        ensures
            e.message@ == message@,
    {
        DataSourceError { message: owned(message) }
    }

    /// Whether GitHub refused because of OAuth App access restrictions.
    pub fn is_oauth_app_restricted(&self) -> (b: bool)
        ensures
            b == oauth_restricted(self.message@),
    {
        is_oauth_app_restricted_message(self.message.as_str())
    }

    /// The text shown for the failure: its message.
    pub fn to_string(&self) -> (s: String)
        ensures
            s@ == self.message@,
    {
        self.message.clone()
    }
}

/// Whether `message` is GitHub's answer for OAuth App access restrictions.
pub fn is_oauth_app_restricted_message(message: &str) -> (b: bool)
    ensures
        b == oauth_restricted(message@),
{
    str_contains(message, "OAuth App access restrictions")
}

/// A finished login.
#[derive(Debug, Clone, Copy)]
pub struct AuthSuccess;

/// A code host the app can sign in to and read pull requests from.
pub trait CodeHost {
    fn has_saved_session(&self) -> bool;

    fn start_login(&self) -> DataSourceResult<DeviceCode>;

    fn await_login(&self, code: &DeviceCode) -> DataSourceResult<AuthSuccess>;

    fn my_pull_requests(&self) -> DataSourceResult<Vec<PullRequest>>;

    fn close_pull_request(&self, id: &str) -> DataSourceResult<()>;

    fn oauth_app_restricted_from_repo(&self, name_with_owner: &str) -> DataSourceResult<bool>;

    fn my_pr_activity(&self) -> DataSourceResult<Vec<ActivityItem>>;

    fn logout(&self);
}

/// Where a single access token is kept.
pub trait AuthStore {
    fn load_token(&self) -> Option<String>;

    fn save_token(&self, token: &str);

    fn clear(&self);
}

} // verus!
