//! Button colors.

pub mod danger;
pub mod primary;
