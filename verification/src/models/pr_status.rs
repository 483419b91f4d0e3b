//! The state of a pull request.

use vstd::prelude::*;

use crate::color::status::{closed, closed_at, draft, draft_at, merged, merged_at, open, open_at};
use crate::color::{Theme, is_dark_spec};

verus! {

#[derive(Debug, Clone, PartialEq, Eq, Structural)]
pub enum PrStatus {
    Open,
    Draft,
    Closed,
    Merged,
}

impl PrStatus {
    /// The word shown for the state.
    pub open spec fn label_spec(self) -> Seq<char> {
        match self {
            PrStatus::Open => "Open"@,
            PrStatus::Draft => "Draft"@,
            PrStatus::Closed => "Closed"@,
            PrStatus::Merged => "Merged"@,
        }
    }

    /// The state's color, as 0xRRGGBB, on a light or a dark theme.
    pub open spec fn color_at(self, dark: bool) -> u32 {
        match self {
            PrStatus::Open => open_at(dark),
            PrStatus::Draft => draft_at(dark),
            PrStatus::Closed => closed_at(dark),
            PrStatus::Merged => merged_at(dark),
        }
    }

    pub fn label(&self) -> (s: &'static str)
        ensures
            s@ == self.label_spec(),
    {
        match self {
            PrStatus::Open => "Open",
            PrStatus::Draft => "Draft",
            PrStatus::Closed => "Closed",
            PrStatus::Merged => "Merged",
        }
    }

    pub fn color(&self, theme: Option<Theme>) -> (c: u32)
        ensures
            c == self.color_at(is_dark_spec(theme)),
    {
        match self {
            PrStatus::Open => open(theme),
            PrStatus::Draft => draft(theme),
            PrStatus::Closed => closed(theme),
            PrStatus::Merged => merged(theme),
        }
    }
}

} // verus!
