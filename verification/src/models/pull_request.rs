//! One of the user's pull requests as the list shows it.

use vstd::prelude::*;

use crate::models::{CiStatus, PrStatus};

verus! {

#[derive(Debug)]
pub struct PullRequest {
    pub id: String,
    pub title: String,
    pub repo: String,
    pub number: u32,
    pub url: String,
    pub status: PrStatus,
    pub ci: CiStatus,
    pub approvals: u32,
    pub required_approvals: u32,
    pub has_conflicts: bool,
    pub branch: String,
    pub updated_at: String,
}

impl Clone for PullRequest {
    fn clone(&self) -> (r: Self)
        ensures
            r == *self,
    {
        PullRequest {
            id: self.id.clone(),
            title: self.title.clone(),
            repo: self.repo.clone(),
            number: self.number,
            url: self.url.clone(),
            status: match self.status {
                PrStatus::Open => PrStatus::Open,
                PrStatus::Draft => PrStatus::Draft,
                PrStatus::Closed => PrStatus::Closed,
                PrStatus::Merged => PrStatus::Merged,
            },
            ci: self.ci,
            approvals: self.approvals,
            required_approvals: self.required_approvals,
            has_conflicts: self.has_conflicts,
            branch: self.branch.clone(),
            updated_at: self.updated_at.clone(),
        }
    }
}

impl PullRequest {
    pub fn status(&self) -> (s: &PrStatus)
        ensures
            *s == self.status,
    {
        &self.status
    }
}

} // verus!
