//! What happened on a pull request.

use vstd::prelude::*;

use crate::color::status::{approved, changes_requested, closed, closed_at, comment, comment_at, merged, merged_at, open_at, reopened};
use crate::color::{Theme, is_dark_spec};

verus! {

#[derive(Debug, Clone, Copy, PartialEq, Eq, Structural)]
pub enum ActivityKind {
    Merged,
    Closed,
    Reopened,
    Comment,
    Approved,
    ChangesRequested,
}

impl ActivityKind {
    /// The verb shown after the actor's name.
    pub open spec fn label_spec(self) -> Seq<char> {
        match self {
            ActivityKind::Merged => "merged"@,
            ActivityKind::Closed => "closed"@,
            ActivityKind::Reopened => "reopened"@,
            ActivityKind::Comment => "commented"@,
            ActivityKind::Approved => "approved"@,
            ActivityKind::ChangesRequested => "requested changes"@,
        }
    }

    /// The kind's color, as 0xRRGGBB, on a light or a dark theme.
    pub open spec fn color_at(self, dark: bool) -> u32 {
        match self {
            ActivityKind::Merged => merged_at(dark),
            ActivityKind::Closed => closed_at(dark),
            ActivityKind::Reopened => open_at(dark),
            ActivityKind::Comment => comment_at(dark),
            ActivityKind::Approved => open_at(dark),
            ActivityKind::ChangesRequested => closed_at(dark),
        }
    }

    pub fn label(&self) -> (s: &'static str)
        ensures
            s@ == self.label_spec(),
    {
        match self {
            ActivityKind::Merged => "merged",
            ActivityKind::Closed => "closed",
            ActivityKind::Reopened => "reopened",
            ActivityKind::Comment => "commented",
            ActivityKind::Approved => "approved",
            ActivityKind::ChangesRequested => "requested changes",
        }
    }

    pub fn color(&self, theme: Option<Theme>) -> (c: u32)
        ensures
            c == self.color_at(is_dark_spec(theme)),
    {
        match self {
            ActivityKind::Merged => merged(theme),
            ActivityKind::Closed => closed(theme),
            ActivityKind::Reopened => reopened(theme),
            ActivityKind::Comment => comment(theme),
            ActivityKind::Approved => approved(theme),
            ActivityKind::ChangesRequested => changes_requested(theme),
        }
    }
}

} // verus!
