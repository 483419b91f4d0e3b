//! One entry of the activity feed.

use vstd::prelude::*;

use crate::models::ActivityKind;

verus! {

#[derive(Debug)]
pub struct ActivityItem {
    pub kind: ActivityKind,
    pub actor: String,
    pub avatar_url: Option<String>,
    pub pr_title: String,
    pub repo: String,
    pub number: u32,
    pub url: String,
    pub occurred_at: String,
}

/// The value of an `ActivityItem`, strings as characters.
pub struct ActivityView {
    pub kind: ActivityKind,
    pub actor: Seq<char>,
    pub avatar_url: Option<Seq<char>>,
    pub pr_title: Seq<char>,
    pub repo: Seq<char>,
    pub number: u32,
    pub url: Seq<char>,
    pub occurred_at: Seq<char>,
}

impl View for ActivityItem {
    type V = ActivityView;

    open spec fn view(&self) -> ActivityView {
        ActivityView {
            kind: self.kind,
            actor: self.actor@,
            avatar_url: match self.avatar_url {
                Some(a) => Some(a@),
                None => None,
            },
            pr_title: self.pr_title@,
            repo: self.repo@,
            number: self.number,
            url: self.url@,
            occurred_at: self.occurred_at@,
        }
    }
}

/// The views of a list of items.
pub open spec fn views(items: Seq<ActivityItem>) -> Seq<ActivityView> {
    items.map_values(|i: ActivityItem| i@)
}

impl Clone for ActivityItem {
    fn clone(&self) -> (r: Self)
        ensures
            r == *self,
    {
        ActivityItem {
            kind: self.kind,
            actor: self.actor.clone(),
            avatar_url: match &self.avatar_url {
                Some(a) => Some(a.clone()),
                None => None,
            },
            pr_title: self.pr_title.clone(),
            repo: self.repo.clone(),
            number: self.number,
            url: self.url.clone(),
            occurred_at: self.occurred_at.clone(),
        }
    }
}

} // verus!
