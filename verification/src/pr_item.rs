//! A compact pull request row: status icon, title, repository and number,
//! CI icon, and a menu with one action, closing the pull request.

use vstd::prelude::*;

use crate::context_menu::ContextMenuItem;
use crate::model::{CiStatus, PrStatus, PullRequest};
use crate::text::{
    after_last, chars_of, concat3, decimal, decimal_string, owned, parse_u32, parse_u32_spec, slice_chars,
};

verus! {

broadcast use vstd::string::group_string_axioms;

/// `i` is where the last `/`-separated segment of `s` starts.
pub open spec fn last_segment_start(s: Seq<char>, i: int) -> bool {
    &&& 0 <= i <= s.len()
    &&& i == 0 || s[i - 1] == '/'
    &&& forall|j: int| i <= j < s.len() ==> s[j] != '/'
}

/// The number at the end of a pull request's address, 0 when the last
/// segment is not one.
pub open spec fn url_number(url: Seq<char>) -> u32 {
    let i = choose|i: int| last_segment_start(url, i);
    match parse_u32_spec(url.skip(i)) {
        Some(n) => n,
        None => 0,
    }
}

/// The number shown for a pull request: `#` and its number, or, when GitHub
/// gave none (0), the number at the end of its address.
pub open spec fn number_label_text(number: u32, url: Seq<char>) -> Seq<char> {
    "#"@ + decimal((if number != 0 {
        number
    } else {
        url_number(url)
    }) as nat)
}

proof fn lemma_last_segment_unique(s: Seq<char>, i: int, k: int)
    requires
        last_segment_start(s, i),
        last_segment_start(s, k),
    ensures
        i == k,
{
    if i < k {
        assert(s[k - 1] == '/');
    } else if k < i {
        assert(s[i - 1] == '/');
    }
}

/// `pr_number_label` for a number and an address.
pub fn number_label(number: u32, url: &str) -> (s: String)
    ensures
        s@ == number_label_text(number, url@),
{
    let n = if number != 0 {
        number
    } else {
        let chars = chars_of(url);
        let start = after_last(&chars, '/');
        let segment = slice_chars(&chars, start, chars.len());
        proof {
            assert(last_segment_start(url@, start as int));
            let c = choose|c: int| last_segment_start(url@, c);
            lemma_last_segment_unique(url@, start as int, c);
            assert(segment@ =~= url@.skip(start as int));
        }
        match parse_u32(&segment) {
            Some(v) => v,
            None => 0,
        }
    };
    let digits = decimal_string(n as u64);
    proof {
        reveal_strlit("");
    }
    concat3("#", digits.as_str(), "")
}

fn pr_number_label(pr: &PullRequest) -> (s: String)
    ensures
        s@ == number_label_text(pr.number, pr.url@),
{
    number_label(pr.number, pr.url.as_str())
}

/// `"{prefix}{ix}"`, an element id of row `ix`.
pub open spec fn row_id(prefix: Seq<char>, ix: usize) -> Seq<char> {
    prefix + decimal(ix as nat)
}

pub fn row_id_of(prefix: &str, ix: usize) -> (s: String)
    ensures
        s@ == row_id(prefix@, ix),
{
    let d = decimal_string(ix as u64);
    proof {
        reveal_strlit("");
    }
    concat3(prefix, d.as_str(), "")
}

/// The row as configured.
pub struct PrItem<T, D, C> {
    pub ix: usize,
    pub open_id: String,
    pub menu_id: String,
    pub group: String,
    pub title: String,
    pub repo: String,
    pub number: String,
    pub url: String,
    pub status: PrStatus,
    pub ci: CiStatus,
    pub menu_open: bool,
    pub closing: bool,
    pub on_toggle_menu: Option<T>,
    pub on_dismiss_menu: Option<D>,
    pub on_close_pr: Option<C>,
}

impl<T, D, C> PrItem<T, D, C> {
    /// The row of pull request `pr`, the `ix`-th of the list.
    pub fn new(ix: usize, pr: &PullRequest) -> (r: Self)
        ensures
            r.ix == ix,
            r.open_id@ == row_id("pr-open-"@, ix),
            r.menu_id@ == row_id("pr-menu-"@, ix),
            r.group@ == row_id("pr-row-"@, ix),
            r.title == pr.title,
            r.repo == pr.repo,
            r.number@ == number_label_text(pr.number, pr.url@),
            r.url == pr.url,
            r.status == pr.status,
            r.ci == pr.ci,
            !r.menu_open,
            !r.closing,
            r.on_toggle_menu is None,
            r.on_dismiss_menu is None,
            r.on_close_pr is None,
    {
        PrItem {
            ix,
            open_id: row_id_of("pr-open-", ix),
            menu_id: row_id_of("pr-menu-", ix),
            group: row_id_of("pr-row-", ix),
            title: pr.title.clone(),
            repo: pr.repo.clone(),
            number: pr_number_label(pr),
            url: pr.url.clone(),
            status: match pr.status() {
                PrStatus::Open => PrStatus::Open,
                PrStatus::Draft => PrStatus::Draft,
                PrStatus::Closed => PrStatus::Closed,
                PrStatus::Merged => PrStatus::Merged,
            },
            ci: pr.ci,
            menu_open: false,
            closing: false,
            on_toggle_menu: None,
            on_dismiss_menu: None,
            on_close_pr: None,
        }
    }

    pub fn menu_open(self, open: bool) -> (r: Self)
        ensures
            r == (PrItem { menu_open: open, ..self }),
    {
        PrItem { menu_open: open, ..self }
    }

    /// The close action is in progress.
    pub fn closing(self, closing: bool) -> (r: Self)
        ensures
            r == (PrItem { closing, ..self }),
    {
        PrItem { closing, ..self }
    }

    pub fn on_toggle_menu(self, handler: T) -> (r: Self)
        ensures
            r == (PrItem { on_toggle_menu: Some(handler), ..self }),
    {
        PrItem { on_toggle_menu: Some(handler), ..self }
    }

    pub fn on_dismiss_menu(self, handler: D) -> (r: Self)
        ensures
            r == (PrItem { on_dismiss_menu: Some(handler), ..self }),
    {
        PrItem { on_dismiss_menu: Some(handler), ..self }
    }

    pub fn on_close_pr(self, handler: C) -> (r: Self)
        ensures
            r == (PrItem { on_close_pr: Some(handler), ..self }),
    {
        PrItem { on_close_pr: Some(handler), ..self }
    }

    /// The row's menu: closing the pull request, loading while it closes.
    pub fn menu_items(&self) -> (items: Vec<ContextMenuItem>)
        ensures
            items@.len() == 1,
            items@[0].id@ == "close"@,
            items@[0].label@ == "Close pull request"@,
            items@[0].loading == self.closing,
    {
        let mut items = Vec::new();
        items.push(ContextMenuItem::new(owned("close"), owned("Close pull request")).loading(self.closing));
        items
    }

    /// Whether the selected menu item closes the pull request.
    pub fn closes(item_id: &str) -> (b: bool)
        ensures
            b == (item_id@ == "close"@),
    {
        owned(item_id) == owned("close")
    }
}

} // verus!
