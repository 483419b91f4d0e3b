//! The parts of the user interface whose state and decisions can be stated
//! apart from drawing: builders of the shared controls and the notification
//! list.

pub mod pr_item;
pub mod shared;
