//! Controls shared by the app's screens.

pub mod notification;
pub mod button;
pub mod tab;
pub mod context_menu;
pub mod select;
pub mod segmented;
