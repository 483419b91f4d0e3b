//! The combined state of a pull request's checks.

use vstd::prelude::*;

use crate::color::status::{closed_at, draft_at, failure, none, open_at, pending, pending_at, success};
use crate::color::{Theme, is_dark_spec};

verus! {

#[derive(Debug, Clone, Copy, PartialEq, Eq, Structural)]
pub enum CiStatus {
    Success,
    Failure,
    Pending,
    NoChecks,
}

impl CiStatus {
    /// The state's color, as 0xRRGGBB, on a light or a dark theme.
    pub open spec fn color_at(self, dark: bool) -> u32 {
        match self {
            CiStatus::Success => open_at(dark),
            CiStatus::Failure => closed_at(dark),
            CiStatus::Pending => pending_at(dark),
            CiStatus::NoChecks => draft_at(dark),
        }
    }

    pub fn color(&self, theme: Option<Theme>) -> (c: u32)
        ensures
            c == self.color_at(is_dark_spec(theme)),
    {
        match self {
            CiStatus::Success => success(theme),
            CiStatus::Failure => failure(theme),
            CiStatus::Pending => pending(theme),
            CiStatus::NoChecks => none(theme),
        }
    }
}

} // verus!
