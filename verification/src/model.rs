//! The app's values in fixed colors: each state has one color from the
//! light scales, whatever the theme.

use vstd::prelude::*;

use crate::color::{blue, blue_at, gray, gray_at, green, green_at, red, red_at, violet, violet_at};

verus! {

#[derive(Debug, Clone, PartialEq, Eq, Structural)]
pub enum PrStatus {
    Open,
    Draft,
    Closed,
    Merged,
}

impl PrStatus {
    pub open spec fn label_spec(self) -> Seq<char> {
        match self {
            PrStatus::Open => "Open"@,
            PrStatus::Draft => "Draft"@,
            PrStatus::Closed => "Closed"@,
            PrStatus::Merged => "Merged"@,
        }
    }

    pub open spec fn color_spec(self) -> u32 {
        match self {
            PrStatus::Open => green_at(9, false),
            PrStatus::Draft => gray_at(9, false),
            PrStatus::Closed => red_at(9, false),
            PrStatus::Merged => violet_at(11, false),
        }
    }

    pub fn label(&self) -> (s: &'static str)
        ensures
            s@ == self.label_spec(),
    {
        match self {
            PrStatus::Open => "Open",
            PrStatus::Draft => "Draft",
            PrStatus::Closed => "Closed",
            PrStatus::Merged => "Merged",
        }
    }

    pub fn color(&self) -> (c: u32)
        ensures
            c == self.color_spec(),
    {
        match self {
            PrStatus::Open => green(9, None),
            PrStatus::Draft => gray(9, None),
            PrStatus::Closed => red(9, None),
            PrStatus::Merged => violet(11, None),
        }
    }
}

#[derive(Debug, Clone, Copy, PartialEq, Eq, Structural)]
pub enum CiStatus {
    Success,
    Failure,
    Pending,
    NoChecks,
}

impl CiStatus {
    pub open spec fn color_spec(self) -> u32 {
        match self {
            CiStatus::Success => green_at(9, false),
            CiStatus::Failure => red_at(9, false),
            CiStatus::Pending => blue_at(8, false),
            CiStatus::NoChecks => gray_at(9, false),
        }
    }

    pub fn color(&self) -> (c: u32)
        ensures
            c == self.color_spec(),
    {
        match self {
            CiStatus::Success => green(9, None),
            CiStatus::Failure => red(9, None),
            CiStatus::Pending => blue(8, None),
            CiStatus::NoChecks => gray(9, None),
        }
    }
}

#[derive(Debug)]
pub struct PullRequest {
    pub id: String,
    pub title: String,
    pub repo: String,
    pub number: u32,
    pub url: String,
    pub status: PrStatus,
    pub ci: CiStatus,
    pub approvals: u32,
    pub required_approvals: u32,
    pub updated_at: String,
}

impl PullRequest {
    pub fn status(&self) -> (s: &PrStatus)
        ensures
            *s == self.status,
    {
        &self.status
    }
}

#[derive(Debug, Clone, Copy, PartialEq, Eq, Structural)]
pub enum ActivityKind {
    Merged,
    Closed,
    Reopened,
    Comment,
    Approved,
    ChangesRequested,
}

impl ActivityKind {
    pub open spec fn label_spec(self) -> Seq<char> {
        match self {
            ActivityKind::Merged => "merged"@,
            ActivityKind::Closed => "closed"@,
            ActivityKind::Reopened => "reopened"@,
            ActivityKind::Comment => "commented"@,
            ActivityKind::Approved => "approved"@,
            ActivityKind::ChangesRequested => "requested changes"@,
        }
    }

    pub open spec fn color_spec(self) -> u32 {
        match self {
            ActivityKind::Merged => violet_at(11, false),
            ActivityKind::Closed => red_at(9, false),
            ActivityKind::Reopened => green_at(9, false),
            ActivityKind::Comment => blue_at(9, false),
            ActivityKind::Approved => green_at(9, false),
            ActivityKind::ChangesRequested => red_at(9, false),
        }
    }

    pub fn label(&self) -> (s: &'static str)
        ensures
            s@ == self.label_spec(),
    {
        match self {
            ActivityKind::Merged => "merged",
            ActivityKind::Closed => "closed",
            ActivityKind::Reopened => "reopened",
            ActivityKind::Comment => "commented",
            ActivityKind::Approved => "approved",
            ActivityKind::ChangesRequested => "requested changes",
        }
    }

    pub fn color(&self) -> (c: u32)
        ensures
            c == self.color_spec(),
    {
        match self {
            ActivityKind::Merged => violet(11, None),
            ActivityKind::Closed => red(9, None),
            ActivityKind::Reopened => green(9, None),
            ActivityKind::Comment => blue(9, None),
            ActivityKind::Approved => green(9, None),
            ActivityKind::ChangesRequested => red(9, None),
        }
    }
}

#[derive(Debug)]
pub struct ActivityItem {
    pub kind: ActivityKind,
    pub actor: String,
    pub avatar_url: Option<String>,
    pub pr_title: String,
    pub repo: String,
    pub number: u32,
    pub url: String,
    pub occurred_at: String,
}

/// A device code of GitHub's device flow, as the login screen shows it.
#[derive(Debug)]
pub struct DeviceCode {
    pub device_code: String,
    pub user_code: String,
    pub verification_uri: String,
    pub poll_interval_secs: u64,
}

impl Clone for DeviceCode {
    fn clone(&self) -> (r: Self)
        ensures
            r == *self,
    {
        DeviceCode {
            device_code: self.device_code.clone(),
            user_code: self.user_code.clone(),
            verification_uri: self.verification_uri.clone(),
            poll_interval_secs: self.poll_interval_secs,
        }
    }
}

#[derive(Debug, Clone)]
pub struct User {
    pub login: String,
}

} // verus!
