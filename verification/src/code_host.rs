//! What the app asks of a code host (GitHub today): login, the user's pull
//! requests and the activity on them, with one error type for all of it.

pub mod github;

use vstd::prelude::*;

use crate::model::DeviceCode;
use crate::models::{ActivityItem, PullRequest};
use crate::text::{owned, seq_contains, str_contains};

verus! {

pub type DataSourceResult<T> = Result<T, DataSourceError>;

/// A failed request to the code host. A failure that ended the session
/// (the tokens were refused and could not be refreshed) is marked.
#[derive(Debug)]
pub struct DataSourceError {
    pub message: String,
    session_ended: bool,
}

/// The phrase GitHub puts in its answers when an organization's OAuth App
/// access restrictions keep this app out.
pub open spec fn oauth_restricted(message: Seq<char>) -> bool {
    seq_contains(message, "OAuth App access restrictions"@)
}

impl Clone for DataSourceError {
    fn clone(&self) -> (r: Self)
        ensures
            r == *self,
    {
        DataSourceError { message: self.message.clone(), session_ended: self.session_ended }
    }
}

impl DataSourceError {
    /// Whether this failure ended the session.
    pub closed spec fn ended(&self) -> bool {
        self.session_ended
    }

    /// The failure's message.
    pub closed spec fn message_view(&self) -> Seq<char> {
        self.message@
    }

    /// The public `message` field, tied to `message_view` for verified
    /// callers.
    pub fn message_str(&self) -> (m: &str)
        ensures
            m@ == self.message_view(),
    {
        self.message.as_str()
    }

    /// A failure with the given message; it does not end the session.
    pub fn new(message: &str) -> (e: Self)
        ensures
            e.message_view() == message@,
            !e.ended(),
    {
        DataSourceError { message: owned(message), session_ended: false }
    }

    /// `new` for a message that is already owned.
    pub fn from_message(message: String) -> (e: Self)
        ensures
            e.message_view() == message@,
            !e.ended(),
    {
        DataSourceError { message, session_ended: false }
    }

    /// The failure that ends the session.
    pub fn session_ended() -> (e: Self)
        ensures
            e.message_view() == "session ended"@,
            e.ended(),
    {
        DataSourceError { message: owned("session ended"), session_ended: true }
    }

    pub fn is_session_ended(&self) -> (b: bool)
        ensures
            b == self.ended(),
    {
        self.session_ended
    }

    /// Whether GitHub refused because of OAuth App access restrictions.
    pub fn is_oauth_app_restricted(&self) -> (b: bool)
        ensures
            b == oauth_restricted(self.message_view()),
    {
        is_oauth_app_restricted_message(self.message.as_str())
    }

    /// The text shown for the failure: its message.
    pub fn to_string(&self) -> (s: String)
        ensures
            s@ == self.message_view(),
    {
        self.message.clone()
    }
}

/// Whether `message` is GitHub's answer for OAuth App access restrictions.
pub fn is_oauth_app_restricted_message(message: &str) -> (b: bool)
    ensures
        b == oauth_restricted(message@),
{
    str_contains(message, "OAuth App access restrictions")
}

/// A finished login.
#[derive(Debug, Clone, Copy)]
pub struct AuthSuccess;

/// A code host the app can sign in to and read pull requests from.
pub trait CodeHost {
    fn has_saved_session(&self) -> bool;

    fn start_login(&self) -> DataSourceResult<DeviceCode>;

    fn await_login(&self, code: &DeviceCode) -> DataSourceResult<AuthSuccess>;

    /// The pull requests shown before the first fetch ends; none by default.
    fn pull_request_snapshot(&self) -> (r: Option<Vec<PullRequest>>)
        default_ensures
            r is None,
    {
        None
    }

    fn my_pull_requests(&self) -> DataSourceResult<Vec<PullRequest>>;

    fn close_pull_request(&self, id: &str) -> DataSourceResult<()>;

    fn set_pull_request_draft(&self, id: &str, draft: bool) -> DataSourceResult<()>;

    fn oauth_app_restricted_from_repo(&self, name_with_owner: &str) -> DataSourceResult<bool>;

    /// The activity shown before the first fetch ends; none by default.
    fn activity_snapshot(&self) -> (r: Option<Vec<ActivityItem>>)
        default_ensures
            r is None,
    {
        None
    }

    fn my_pr_activity(&self) -> DataSourceResult<Vec<ActivityItem>>;

    fn logout(&self);
}

} // verus!
