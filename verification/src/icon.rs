//! The icons the app draws, and the asset each one is drawn from.

use vstd::prelude::*;

verus! {

#[derive(Debug, Clone, Copy, PartialEq, Eq, Structural)]
pub enum IconName {
    ChevronDown,
    Logout,
    PullRequest,
    PrClosed,
    PrDraft,
    CiCheck,
    CiX,
    CiPending,
    NoCi,
}

impl IconName {
    /// The SVG asset of the icon; a missing CI run shares the pending glyph.
    pub open spec fn path_spec(self) -> Seq<char> {
        match self {
            IconName::ChevronDown => "icons/chevron_down.svg"@,
            IconName::Logout => "icons/logout.svg"@,
            IconName::PullRequest => "icons/pull_request.svg"@,
            IconName::PrClosed => "icons/pr_closed.svg"@,
            IconName::PrDraft => "icons/pr_draft.svg"@,
            IconName::CiCheck => "icons/check.svg"@,
            IconName::CiX => "icons/x.svg"@,
            IconName::CiPending => "icons/pending.svg"@,
            IconName::NoCi => "icons/pending.svg"@,
        }
    }

    pub fn path(self) -> (p: &'static str)
        ensures
            p@ == self.path_spec(),
    {
        match self {
            IconName::ChevronDown => "icons/chevron_down.svg",
            IconName::Logout => "icons/logout.svg",
            IconName::PullRequest => "icons/pull_request.svg",
            IconName::PrClosed => "icons/pr_closed.svg",
            IconName::PrDraft => "icons/pr_draft.svg",
            IconName::CiCheck => "icons/check.svg",
            IconName::CiX => "icons/x.svg",
            IconName::CiPending => "icons/pending.svg",
            IconName::NoCi => "icons/pending.svg",
        }
    }
}

} // verus!
