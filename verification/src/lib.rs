//! Angry Hub: the verified core of a desktop client for one's own GitHub
//! pull requests.

pub mod auth;
pub mod session;
pub mod text;
pub mod route;
pub mod router;
pub mod pulls;
pub mod github;
pub mod sync;
pub mod color;
pub mod models;
pub mod model;
pub mod code_host;
pub mod keychain;
pub mod datasource;
pub mod toast;
pub mod ui;
pub mod button;
pub mod tab;
pub mod icon;
pub mod dropdown;
pub mod context_menu;
pub mod select;
pub mod pr_item;
pub mod pr_status;
pub mod layout;
pub mod routes;
pub mod prefs;
pub mod log;
pub mod updater;
pub mod app_menus;
pub mod frame;
pub mod tooltip;
pub mod paths;
