//! The layouts around the app's pages.

pub mod main;
