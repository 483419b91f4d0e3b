//! Fetching one's pull requests from GitHub, page by page.

use vstd::prelude::*;

use crate::github::{cursor_view, Github, GithubError, PullPage, RemotePull};
use crate::pulls::{pull_views, PullRequest, PullView};
use crate::session::opt_view;

verus! {

/// The pull requests a fetch collected; `complete` is false when the limit
/// cut the result short.
#[derive(Debug)]
pub struct FetchedPulls {
    pub pulls: Vec<PullRequest>,
    pub complete: bool,
}

/// The value of a page of search results.
pub struct PageView {
    pub pulls: Seq<PullView>,
    pub has_next_page: bool,
    pub end_cursor: Option<Seq<char>>,
}

pub open spec fn page_view(p: PullPage) -> PageView {
    PageView {
        pulls: p.pulls@.map_values(|r: RemotePull| r@),
        has_next_page: p.has_next_page,
        end_cursor: opt_view(p.end_cursor),
    }
}

/// What to do after a page: stop (with whether the result is complete) or
/// ask for the page after the cursor.
#[derive(Debug, PartialEq, Eq)]
pub enum FetchStep {
    Stop { complete: bool },
    Next(String),
}

pub enum StepView {
    Stop(bool),
    Next(Seq<char>),
}

/// One page taken into the rows collected so far: an empty page ends the
/// fetch; otherwise the page's rows are appended up to the limit; the fetch
/// is incomplete when rows were left out or a further page exists at the
/// limit; it ends when there is no further page or no cursor to it.
pub open spec fn step_spec(acc: Seq<PullView>, page: PageView, limit: nat) -> (Seq<PullView>, StepView) {
    if page.pulls.len() == 0 {
        (acc, StepView::Stop(true))
    } else {
        let room = limit - acc.len();
        let taken = if page.pulls.len() <= room {
            page.pulls
        } else {
            page.pulls.take(room)
        };
        let next = acc + taken;
        if page.pulls.len() > room || (page.has_next_page && next.len() >= limit) {
            (next, StepView::Stop(false))
        } else if !page.has_next_page {
            (next, StepView::Stop(true))
        } else {
            match page.end_cursor {
                Some(c) => (next, StepView::Next(c)),
                None => (next, StepView::Stop(true)),
            }
        }
    }
}

/// The result of a fetch that received exactly `pages`, one per request, in
/// order; `None` when these pages are not what such a fetch asks for.
pub open spec fn run_spec(acc: Seq<PullView>, pages: Seq<PageView>, limit: nat) -> Option<(Seq<PullView>, bool)>
    decreases pages.len(),
{
    if acc.len() >= limit {
        if pages.len() == 0 {
            Some((acc, true))
        } else {
            None
        }
    } else if pages.len() == 0 {
        None
    } else {
        let (next, step) = step_spec(acc, pages[0], limit);
        match step {
            StepView::Stop(complete) => if pages.len() == 1 {
                Some((next, complete))
            } else {
                None
            },
            StepView::Next(_) => run_spec(next, pages.drop_first(), limit),
        }
    }
}

/// One search request of a fetch: the cursor it passed and the answer.
pub struct SearchCall {
    pub cursor: Option<Seq<char>>,
    pub answer: Result<PullPage, GithubError>,
}

/// The result of a fetch whose requests were exactly `calls`, in order,
/// from rows `acc` with the next request owed `cursor`; `None` when these
/// are not the requests such a fetch makes. A request passes the cursor of
/// the page before (none the first time); an error answer ends the fetch
/// with that error; a page is taken by `step_spec`; the fetch asks no more
/// once it holds `limit` rows.
pub open spec fn trace_result(
    acc: Seq<PullView>,
    cursor: Option<Seq<char>>,
    calls: Seq<SearchCall>,
    limit: nat,
) -> Option<Result<(Seq<PullView>, bool), GithubError>>
    decreases calls.len(),
{
    if acc.len() >= limit {
        if calls.len() == 0 {
            Some(Ok((acc, true)))
        } else {
            None
        }
    } else if calls.len() == 0 || calls[0].cursor != cursor {
        None
    } else {
        match calls[0].answer {
            Err(e) => if calls.len() == 1 {
                Some(Err(e))
            } else {
                None
            },
            Ok(page) => {
                let (next, step) = step_spec(acc, page_view(page), limit);
                match step {
                    StepView::Stop(complete) => if calls.len() == 1 {
                        Some(Ok((next, complete)))
                    } else {
                        None
                    },
                    StepView::Next(c) => trace_result(next, Some(c), calls.drop_first(), limit),
                }
            },
        }
    }
}

/// A fetch's result, its rows as values.
pub open spec fn fetched_view(r: Result<FetchedPulls, GithubError>) -> Result<(Seq<PullView>, bool), GithubError> {
    match r {
        Ok(f) => Ok((pull_views(f.pulls@), f.complete)),
        Err(e) => Err(e),
    }
}

/// Every request of `calls` got an answer `github` may give.
pub open spec fn answered_by<G: Github>(github: G, token: Seq<char>, query: Seq<char>, calls: Seq<SearchCall>) -> bool {
    forall|k: int| 0 <= k < calls.len() ==> github.may_answer(token, query, (#[trigger] calls[k]).cursor, calls[k].answer)
}

/// Moves the fields of a search result into a row.
pub fn into_pull(pull: RemotePull) -> (p: PullRequest)
    ensures
        p@ == pull@,
{
    PullRequest {
        id: pull.id,
        number: pull.number,
        title: pull.title,
        state: pull.state,
        url: pull.url,
        repository: pull.repository,
        author: pull.author,
        updated_at: pull.updated_at,
        ci: pull.ci,
        approvals: pull.approvals,
        required_approvals: pull.required_approvals,
        has_conflicts: pull.has_conflicts,
    }
}

/// Takes one page into `pulls` and says what to do next.
pub fn take_page(pulls: &mut Vec<PullRequest>, page: PullPage, limit: usize) -> (step: FetchStep)
    requires
        old(pulls)@.len() < limit,
    ensures
        ({
            let (next, s) = step_spec(pull_views(old(pulls)@), page_view(page), limit as nat);
            &&& pull_views(final(pulls)@) == next
            &&& match (step, s) {
                (FetchStep::Stop { complete }, StepView::Stop(c)) => complete == c,
                (FetchStep::Next(cursor), StepView::Next(c)) => cursor@ == c,
                _ => false,
            }
        }),
{
    let ghost before = pull_views(pulls@);
    let ghost pv = page_view(page);
    if page.pulls.len() == 0 {
        return FetchStep::Stop { complete: true };
    }
    let room = limit - pulls.len();
    let page_len = page.pulls.len();
    let mut items = page.pulls;
    let mut k: usize = 0;
    let ghost taken = if pv.pulls.len() <= room {
        pv.pulls
    } else {
        pv.pulls.take(room as int)
    };
    let take = if page_len <= room {
        page_len
    } else {
        room
    };
    assert(taken =~= pv.pulls.take(take as int));
    let ghost all_items = items@;
    while k < take
        invariant
            k <= take <= page_len,
            items@.len() == page_len,
            all_items.len() == page_len,
            pv.pulls == all_items.map_values(|r: RemotePull| r@),
            forall|j: int| k <= j < page_len ==> items@[j] == all_items[j],
            pull_views(pulls@) == before + pv.pulls.take(k as int),
        decreases take - k,
    {
        let mut item = RemotePull {
            id: String::new(),
            number: 0,
            title: String::new(),
            state: String::new(),
            url: String::new(),
            repository: String::new(),
            author: String::new(),
            updated_at: String::new(),
            ci: String::new(),
            approvals: 0,
            required_approvals: 0,
            has_conflicts: false,
        };
        std::mem::swap(&mut item, &mut items[k]);
        assert(item == all_items[k as int]);
        let row = into_pull(item);
        let ghost prev = pulls@;
        pulls.push(row);
        proof {
            assert(pv.pulls[k as int] == all_items[k as int]@);
            assert(pv.pulls.take(k + 1) =~= pv.pulls.take(k as int).push(all_items[k as int]@));
            assert(pull_views(pulls@) =~= pull_views(prev).push(row@));
        }
        k = k + 1;
    }
    let now = pulls.len();
    if page_len > room || (page.has_next_page && now >= limit) {
        return FetchStep::Stop { complete: false };
    }
    if !page.has_next_page {
        return FetchStep::Stop { complete: true };
    }
    match page.end_cursor {
        Some(cursor) => FetchStep::Next(cursor),
        None => FetchStep::Stop { complete: true },
    }
}

/// Pages authored pull requests one request at a time until `limit` or the
/// last page. `complete` is false when the cap cut the result short. The
/// first request has no cursor; each later one passes the cursor of the page
/// before. An error from GitHub ends the fetch with that error. A limit of 0
/// asks GitHub nothing and yields a complete, empty fetch. The result is
/// `trace_result` of the requests actually made, each answered as `github`
/// may answer it.
pub fn fetch_authored<G: Github>(github: &G, token: &str, query: &str, limit: usize) -> (r: Result<
    FetchedPulls,
    GithubError,
>)
    ensures
        match r {
            Ok(f) => exists|pages: Seq<PageView>|
                run_spec(Seq::empty(), pages, limit as nat) == Some((pull_views(f.pulls@), f.complete)),
            Err(_) => true,
        },
        limit == 0 ==> r is Ok && r->Ok_0.pulls@.len() == 0 && r->Ok_0.complete,
        exists|calls: Seq<SearchCall>|
            answered_by(*github, token@, query@, calls) && #[trigger] trace_result(
                Seq::empty(),
                None,
                calls,
                limit as nat,
            ) == Some(fetched_view(r)),
{
    let mut pulls: Vec<PullRequest> = Vec::new();
    let mut cursor: Option<String> = None;
    let ghost mut pages: Seq<PageView> = Seq::empty();
    let ghost mut calls: Seq<SearchCall> = Seq::empty();
    assert(pull_views(pulls@) =~= Seq::<PullView>::empty());
    assert forall|rest: Seq<PageView>|
        #[trigger] run_spec(Seq::empty(), pages + rest, limit as nat) == run_spec(
            pull_views(pulls@),
            rest,
            limit as nat,
        ) by {
        assert(pages + rest =~= rest);
    }
    assert forall|rest: Seq<SearchCall>|
        #[trigger] trace_result(Seq::empty(), None, calls + rest, limit as nat) == trace_result(
            pull_views(pulls@),
            opt_view(cursor),
            rest,
            limit as nat,
        ) by {
        assert(calls + rest =~= rest);
    }
    while pulls.len() < limit
        invariant
            forall|rest: Seq<PageView>|
                #[trigger] run_spec(Seq::empty(), pages + rest, limit as nat) == run_spec(
                    pull_views(pulls@),
                    rest,
                    limit as nat,
                ),
            forall|rest: Seq<SearchCall>|
                #[trigger] trace_result(Seq::empty(), None, calls + rest, limit as nat) == trace_result(
                    pull_views(pulls@),
                    opt_view(cursor),
                    rest,
                    limit as nat,
                ),
            answered_by(*github, token@, query@, calls),
        decreases limit - pulls.len(),
    {
        let answer = match &cursor {
            Some(c) => github.authored_pulls(token, query, Some(c.as_str())),
            None => github.authored_pulls(token, query, None),
        };
        let ghost call = SearchCall { cursor: opt_view(cursor), answer };
        let ghost old_calls = calls;
        let ghost acc = pull_views(pulls@);
        proof {
            calls = calls.push(call);
            assert(answered_by(*github, token@, query@, calls)) by {
                assert forall|k: int| 0 <= k < calls.len() implies github.may_answer(
                    token@,
                    query@,
                    (#[trigger] calls[k]).cursor,
                    calls[k].answer,
                ) by {
                    if k < old_calls.len() {
                        assert(calls[k] == old_calls[k]);
                    }
                }
            }
            assert(old_calls + seq![call] =~= calls);
            assert(seq![call][0] == call);
            assert(seq![call].drop_first() =~= Seq::<SearchCall>::empty());
        }
        let page = match answer {
            Ok(p) => p,
            Err(e) => {
                proof {
                    assert(trace_result(acc, opt_view(cursor), seq![call], limit as nat) == Some(
                        Err::<(Seq<PullView>, bool), GithubError>(e),
                    ));
                    assert(trace_result(Seq::empty(), None, old_calls + seq![call], limit as nat)
                        == trace_result(acc, opt_view(cursor), seq![call], limit as nat));
                }
                return Err(e);
            },
        };
        let ghost before = pull_views(pulls@);
        let ghost pv = page_view(page);
        let ghost old_pages = pages;
        let step = take_page(&mut pulls, page, limit);
        match step {
            FetchStep::Stop { complete } => {
                proof {
                    assert(seq![pv][0] == pv);
                    assert(run_spec(before, seq![pv], limit as nat) == Some((pull_views(pulls@), complete)));
                    assert(run_spec(Seq::empty(), old_pages + seq![pv], limit as nat) == run_spec(
                        before,
                        seq![pv],
                        limit as nat,
                    ));
                    assert(trace_result(acc, opt_view(cursor), seq![call], limit as nat) == Some(
                        Ok::<(Seq<PullView>, bool), GithubError>((pull_views(pulls@), complete)),
                    ));
                    assert(trace_result(Seq::empty(), None, old_calls + seq![call], limit as nat)
                        == trace_result(acc, opt_view(cursor), seq![call], limit as nat));
                }
                return Ok(FetchedPulls { pulls, complete });
            },
            FetchStep::Next(next) => {
                proof {
                    pages = pages.push(pv);
                    assert forall|rest: Seq<PageView>|
                        #[trigger] run_spec(Seq::empty(), pages + rest, limit as nat) == run_spec(
                            pull_views(pulls@),
                            rest,
                            limit as nat,
                        ) by {
                        assert((seq![pv] + rest)[0] == pv);
                        assert((seq![pv] + rest).drop_first() =~= rest);
                        assert(old_pages + (seq![pv] + rest) =~= pages + rest);
                        assert(run_spec(Seq::empty(), old_pages + (seq![pv] + rest), limit as nat)
                            == run_spec(before, seq![pv] + rest, limit as nat));
                    }
                    assert forall|rest: Seq<SearchCall>|
                        #[trigger] trace_result(Seq::empty(), None, calls + rest, limit as nat) == trace_result(
                            pull_views(pulls@),
                            Some(next@),
                            rest,
                            limit as nat,
                        ) by {
                        assert((seq![call] + rest)[0] == call);
                        assert((seq![call] + rest).drop_first() =~= rest);
                        assert(old_calls + (seq![call] + rest) =~= calls + rest);
                        assert(trace_result(Seq::empty(), None, old_calls + (seq![call] + rest), limit as nat)
                            == trace_result(acc, opt_view(cursor), seq![call] + rest, limit as nat));
                    }
                }
                cursor = Some(next);
            },
        }
    }
    proof {
        assert(run_spec(pull_views(pulls@), Seq::<PageView>::empty(), limit as nat) == Some(
            (pull_views(pulls@), true),
        ));
        assert(pages + Seq::<PageView>::empty() =~= pages);
        assert(run_spec(Seq::empty(), pages + Seq::<PageView>::empty(), limit as nat) == run_spec(
            pull_views(pulls@),
            Seq::<PageView>::empty(),
            limit as nat,
        ));
        assert(calls + Seq::<SearchCall>::empty() =~= calls);
        assert(trace_result(Seq::empty(), None, calls + Seq::<SearchCall>::empty(), limit as nat)
            == trace_result(pull_views(pulls@), opt_view(cursor), Seq::<SearchCall>::empty(), limit as nat));
    }
    Ok(FetchedPulls { pulls, complete: true })
}

/// A fetch never collects more rows than the limit.
pub proof fn law_fetch_respects_limit(acc: Seq<PullView>, pages: Seq<PageView>, limit: nat)
    requires
        acc.len() <= limit,
        run_spec(acc, pages, limit) is Some,
    ensures
        match run_spec(acc, pages, limit) {
            Some((rows, _)) => rows.len() <= limit,
            None => true,
        },
    decreases pages.len(),
{
    if acc.len() < limit && pages.len() > 0 {
        let (next, step) = step_spec(acc, pages[0], limit);
        match step {
            StepView::Next(_) => law_fetch_respects_limit(next, pages.drop_first(), limit),
            StepView::Stop(_) => {},
        }
    }
}

} // verus!
