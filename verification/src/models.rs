//! The values the app shows: pull requests, their states and the activity on
//! them.

pub mod activity_item;
pub mod activity_kind;
pub mod ci_status;
pub mod pr_status;
pub mod pull_request;

pub use activity_item::{ActivityItem, ActivityView, views};
pub use activity_kind::ActivityKind;
pub use ci_status::CiStatus;
pub use pr_status::PrStatus;
pub use pull_request::PullRequest;
