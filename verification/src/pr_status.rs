//! Status marks of a pull request row: the state icon, the state label and
//! the CI icon (none when a pull request has no checks).

use vstd::prelude::*;

use crate::icon::IconName;
use crate::model::{CiStatus, PrStatus};

verus! {

/// The icon of a pull request state.
#[derive(Debug, Clone)]
pub struct PrStatusIcon {
    pub status: PrStatus,
}

impl PrStatusIcon {
    pub fn new(status: PrStatus) -> (i: Self)
        ensures
            i.status == status,
    {
        PrStatusIcon { status }
    }

    /// A merged pull request keeps the pull request glyph; its color tells
    /// it apart.
    pub fn icon(&self) -> (n: IconName)
        ensures
            n == match self.status {
                PrStatus::Open => IconName::PullRequest,
                PrStatus::Draft => IconName::PrDraft,
                PrStatus::Merged => IconName::PullRequest,
                PrStatus::Closed => IconName::PrClosed,
            },
    {
        match self.status {
            PrStatus::Open => IconName::PullRequest,
            PrStatus::Draft => IconName::PrDraft,
            PrStatus::Merged => IconName::PullRequest,
            PrStatus::Closed => IconName::PrClosed,
        }
    }
}

/// The word for a pull request state, in its color.
#[derive(Debug, Clone)]
pub struct PrStatusLabel {
    pub status: PrStatus,
}

impl PrStatusLabel {
    pub fn new(status: PrStatus) -> (l: Self)
        ensures
            l.status == status,
    {
        PrStatusLabel { status }
    }
}

/// The icon of a CI state.
#[derive(Debug, Clone, Copy)]
pub struct CiStatusIcon {
    pub status: CiStatus,
}

impl CiStatusIcon {
    pub fn new(status: CiStatus) -> (i: Self)
        ensures
            i.status == status,
    {
        CiStatusIcon { status }
    }

    /// The glyph drawn, none without checks.
    pub fn icon(&self) -> (n: Option<IconName>)
        ensures
            n == match self.status {
                CiStatus::Success => Some(IconName::CiCheck),
                CiStatus::Failure => Some(IconName::CiX),
                CiStatus::Pending => Some(IconName::CiPending),
                CiStatus::NoChecks => None::<IconName>,
            },
    {
        match self.status {
            CiStatus::Success => Some(IconName::CiCheck),
            CiStatus::Failure => Some(IconName::CiX),
            CiStatus::Pending => Some(IconName::CiPending),
            CiStatus::NoChecks => None,
        }
    }
}

} // verus!
