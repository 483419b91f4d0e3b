//! The pull request row: status icon, title, repository and number, the
//! approvals when the base branch requires any, a conflict mark, the CI icon
//! with its tooltip, and a menu to copy the branch name or close the pull
//! request.

use vstd::prelude::*;

use crate::models::{CiStatus, PrStatus, PullRequest};
use crate::pr_item::{number_label, number_label_text, row_id, row_id_of};
use crate::text::{decimal, decimal_string, owned, trim, trimmed};
use crate::ui::shared::context_menu::ContextMenuItem;

verus! {

broadcast use vstd::string::group_string_axioms;

/// What a menu item of the row does.
#[derive(Debug, Clone, Copy, PartialEq, Eq, Structural)]
pub enum RowAction {
    CopyBranch,
    Close,
}

/// The row as configured.
pub struct PrItem<T, D, C, B> {
    pub ix: usize,
    pub open_id: String,
    pub menu_id: String,
    pub group: String,
    pub title: String,
    pub repo: String,
    pub number: String,
    pub url: String,
    pub status: PrStatus,
    pub ci: CiStatus,
    pub approvals: String,
    pub required_approvals: String,
    pub show_approvals: bool,
    pub has_conflicts: bool,
    pub conflict_tooltip_id: String,
    pub ci_tooltip_id: String,
    pub menu_open: bool,
    pub closing: bool,
    pub on_toggle_menu: Option<T>,
    pub on_dismiss_menu: Option<D>,
    pub on_close_pr: Option<C>,
    pub on_copy_branch: Option<B>,
}

/// The tooltip of a CI state.
pub open spec fn ci_tooltip_text(ci: CiStatus) -> Seq<char> {
    match ci {
        CiStatus::Success => "CI passed"@,
        CiStatus::Failure => "CI failed"@,
        CiStatus::Pending => "CI pending"@,
        CiStatus::NoChecks => "No CI"@,
    }
}

impl<T, D, C, B> PrItem<T, D, C, B> {
    /// The row of pull request `pr`, the `ix`-th of the list: its title
    /// trimmed, its approvals shown when the base branch requires any.
    pub fn new(ix: usize, pr: &PullRequest) -> (r: Self)
        ensures
            r.ix == ix,
            r.open_id@ == row_id("pr-open-"@, ix),
            r.menu_id@ == row_id("pr-menu-"@, ix),
            r.group@ == row_id("pr-row-"@, ix),
            r.title@ == trimmed(pr.title@),
            r.repo == pr.repo,
            r.number@ == number_label_text(pr.number, pr.url@),
            r.url == pr.url,
            r.status == pr.status,
            r.ci == pr.ci,
            r.approvals@ == decimal(pr.approvals as nat),
            r.required_approvals@ == decimal(pr.required_approvals as nat),
            r.show_approvals == (pr.required_approvals > 0),
            r.has_conflicts == pr.has_conflicts,
            r.conflict_tooltip_id@ == row_id("pr-conflicts-"@, ix),
            r.ci_tooltip_id@ == row_id("pr-ci-"@, ix),
            !r.menu_open,
            !r.closing,
            r.on_toggle_menu is None,
            r.on_dismiss_menu is None,
            r.on_close_pr is None,
            r.on_copy_branch is None,
    {
        PrItem {
            ix,
            open_id: row_id_of("pr-open-", ix),
            menu_id: row_id_of("pr-menu-", ix),
            group: row_id_of("pr-row-", ix),
            title: owned(trim(pr.title.as_str())),
            repo: pr.repo.clone(),
            number: number_label(pr.number, pr.url.as_str()),
            url: pr.url.clone(),
            status: match pr.status() {
                PrStatus::Open => PrStatus::Open,
                PrStatus::Draft => PrStatus::Draft,
                PrStatus::Closed => PrStatus::Closed,
                PrStatus::Merged => PrStatus::Merged,
            },
            ci: pr.ci,
            approvals: decimal_string(pr.approvals as u64),
            required_approvals: decimal_string(pr.required_approvals as u64),
            show_approvals: pr.required_approvals > 0,
            has_conflicts: pr.has_conflicts,
            conflict_tooltip_id: row_id_of("pr-conflicts-", ix),
            ci_tooltip_id: row_id_of("pr-ci-", ix),
            menu_open: false,
            closing: false,
            on_toggle_menu: None,
            on_dismiss_menu: None,
            on_close_pr: None,
            on_copy_branch: None,
        }
    }

    pub fn menu_open(self, open: bool) -> (r: Self)
        ensures
            r == (PrItem { menu_open: open, ..self }),
    {
        PrItem { menu_open: open, ..self }
    }

    /// The close action is in progress.
    pub fn closing(self, closing: bool) -> (r: Self)
        ensures
            r == (PrItem { closing, ..self }),
    {
        PrItem { closing, ..self }
    }

    pub fn on_toggle_menu(self, handler: T) -> (r: Self)
        ensures
            r == (PrItem { on_toggle_menu: Some(handler), ..self }),
    {
        PrItem { on_toggle_menu: Some(handler), ..self }
    }

    pub fn on_dismiss_menu(self, handler: D) -> (r: Self)
        ensures
            r == (PrItem { on_dismiss_menu: Some(handler), ..self }),
    {
        PrItem { on_dismiss_menu: Some(handler), ..self }
    }

    pub fn on_close_pr(self, handler: C) -> (r: Self)
        ensures
            r == (PrItem { on_close_pr: Some(handler), ..self }),
    {
        PrItem { on_close_pr: Some(handler), ..self }
    }

    pub fn on_copy_branch(self, handler: B) -> (r: Self)
        ensures
            r == (PrItem { on_copy_branch: Some(handler), ..self }),
    {
        PrItem { on_copy_branch: Some(handler), ..self }
    }

    /// The row's menu: copy the branch name; close the pull request, loading
    /// while it closes.
    pub fn menu_items(&self) -> (items: Vec<ContextMenuItem>)
        ensures
            items@.len() == 2,
            items@[0].id@ == "copy-branch"@,
            items@[0].label@ == "Copy branch name"@,
            !items@[0].loading,
            items@[1].id@ == "close"@,
            items@[1].label@ == "Close pull request"@,
            items@[1].loading == self.closing,
    {
        let mut items = Vec::new();
        items.push(ContextMenuItem::new(owned("copy-branch"), owned("Copy branch name")));
        items.push(ContextMenuItem::new(owned("close"), owned("Close pull request")).loading(self.closing));
        items
    }

    /// Whether the menu reacts to a selection: when either action has a
    /// handler.
    pub fn menu_selects(&self) -> (b: bool)
        ensures
            b == (self.on_close_pr is Some || self.on_copy_branch is Some),
    {
        self.on_close_pr.is_some() || self.on_copy_branch.is_some()
    }

    /// The tooltip of the CI icon.
    pub fn ci_tooltip(&self) -> (s: &'static str)
        ensures
            s@ == ci_tooltip_text(self.ci),
    {
        match self.ci {
            CiStatus::Success => "CI passed",
            CiStatus::Failure => "CI failed",
            CiStatus::Pending => "CI pending",
            CiStatus::NoChecks => "No CI",
        }
    }
}

/// The action a selected menu item stands for; an unknown item does nothing.
pub fn row_action(item_id: &str) -> (a: Option<RowAction>)
    ensures
        item_id@ == "copy-branch"@ ==> a == Some(RowAction::CopyBranch),
        item_id@ == "close"@ ==> a == Some(RowAction::Close),
        item_id@ != "copy-branch"@ && item_id@ != "close"@ ==> a is None,
{
    proof {
        reveal_strlit("copy-branch");
        reveal_strlit("close");
        assert("close"@.len() != "copy-branch"@.len());
    }
    let id = owned(item_id);
    if id == owned("copy-branch") {
        Some(RowAction::CopyBranch)
    } else if id == owned("close") {
        Some(RowAction::Close)
    } else {
        None
    }
}

} // verus!
