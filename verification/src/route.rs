//! In-window destinations and the guards that protect them.

use vstd::prelude::*;

verus! {

/// In-window destination. Nested variants are pages under a shared layout.
#[derive(Debug, PartialEq, Eq)]
pub enum Route {
    Login,
    PullRequests(PullRequestsPage),
    Activity,
}

#[derive(Debug, PartialEq, Eq)]
pub enum PullRequestsPage {
    All,
    Repo(String),
}

/// The value of a `Route`, with the repository name as characters.
pub enum RouteView {
    Login,
    PullRequests(PageView),
    Activity,
}

pub enum PageView {
    All,
    Repo(Seq<char>),
}

impl View for Route {
    type V = RouteView;

    open spec fn view(&self) -> RouteView {
        match self {
            Route::Login => RouteView::Login,
            Route::PullRequests(PullRequestsPage::All) => RouteView::PullRequests(PageView::All),
            Route::PullRequests(PullRequestsPage::Repo(r)) => RouteView::PullRequests(
                PageView::Repo(r@),
            ),
            Route::Activity => RouteView::Activity,
        }
    }
}

impl Clone for PullRequestsPage {
    fn clone(&self) -> (r: Self)
        ensures
            r == *self,
    {
        match self {
            PullRequestsPage::All => PullRequestsPage::All,
            PullRequestsPage::Repo(repo) => PullRequestsPage::Repo(repo.clone()),
        }
    }
}

impl Clone for Route {
    fn clone(&self) -> (r: Self)
        ensures
            r == *self,
    {
        match self {
            Route::Login => Route::Login,
            Route::PullRequests(page) => Route::PullRequests(page.clone()),
            Route::Activity => Route::Activity,
        }
    }
}

/// Named condition plus fallback. The app decides what each name means.
#[derive(Debug)]
pub struct Guard<R> {
    pub name: &'static str,
    pub redirect: R,
}

/// A destination that may be protected by a guard.
pub trait Guarded: Sized {
    /// The guard of this destination, if any.
    spec fn guard_spec(&self) -> Option<Guard<Self>>;

    fn guard(&self) -> (g: Option<Guard<Self>>)
        ensures
            g == self.guard_spec(),
    ;
}

/// The view of the route that `Route::pull_requests` makes.
pub open spec fn all_pulls_view() -> RouteView {
    RouteView::PullRequests(PageView::All)
}

/// The guard of a route, by its view: its name and its redirect. Login is for
/// guests and sends others to the pull requests; every other page needs a
/// session and sends others to the login.
pub open spec fn guard_of(r: RouteView) -> (&'static str, RouteView) {
    match r {
        RouteView::Login => ("guest", all_pulls_view()),
        _ => ("session", RouteView::Login),
    }
}

/// Where the guards lead from `start` in at most `fuel` redirects, for an
/// `allow` that may answer either way for a name: a route stays when `allow`
/// answered `true` for its guard's name, and is replaced by the redirect
/// when it answered `false`.
pub open spec fn resolves_to<F: Fn(&str) -> bool>(
    allow: F,
    start: RouteView,
    end: RouteView,
    fuel: nat,
) -> bool
    decreases fuel,
{
    if fuel == 0 {
        end == start
    } else {
        let (name, redirect) = guard_of(start);
        ||| call_ensures(allow, (name,), true) && end == start
        ||| call_ensures(allow, (name,), false) && resolves_to(allow, redirect, end, (fuel - 1) as nat)
    }
}

/// The number of guard redirects followed before giving up.
pub const GUARD_LIMIT: usize = 16;

impl Route {
    /// The pull request list of all repositories.
    pub fn pull_requests() -> (r: Self)
        ensures
            r@ == all_pulls_view(),
    {
        Route::PullRequests(PullRequestsPage::All)
    }

    pub fn is_pull_requests(&self) -> (b: bool)
        ensures
            b == (self@ is PullRequests),
    {
        match self {
            Route::PullRequests(_) => true,
            _ => false,
        }
    }

    /// Segmented-control id for the main layout section.
    pub fn section_id(&self) -> (id: &'static str)
        ensures
            id@ == (if self@ is Activity {
                "activity"@
            } else {
                "prs"@
            }),
    {
        match self {
            Route::PullRequests(_) | Route::Login => "prs",
            Route::Activity => "activity",
        }
    }

    /// The repository filter of a pull request page: `all` or the repository.
    pub fn selected_repo(&self) -> (r: Option<&str>)
        ensures
            match self@ {
                RouteView::PullRequests(PageView::All) => r is Some && r->0@ == "all"@,
                RouteView::PullRequests(PageView::Repo(repo)) => r is Some && r->0@ == repo,
                _ => r is None,
            },
    {
        match self {
            Route::PullRequests(PullRequestsPage::All) => Some("all"),
            Route::PullRequests(PullRequestsPage::Repo(repo)) => Some(repo.as_str()),
            Route::Login | Route::Activity => None,
        }
    }

    /// Whether two routes are the same destination.
    pub fn same(&self, other: &Route) -> (b: bool)
        ensures
            b == (self@ == other@),
    {
        match (self, other) {
            (Route::Login, Route::Login) => true,
            (Route::Activity, Route::Activity) => true,
            (
                Route::PullRequests(PullRequestsPage::All),
                Route::PullRequests(PullRequestsPage::All),
            ) => true,
            (
                Route::PullRequests(PullRequestsPage::Repo(a)),
                Route::PullRequests(PullRequestsPage::Repo(b)),
            ) => *a == *b,
            _ => false,
        }
    }

    /// Follows guards from this route: as long as `allow` refuses the guard's
    /// name, moves to the guard's redirect, at most `GUARD_LIMIT` times.
    pub fn apply_guards<F: Fn(&str) -> bool>(&self, allow: &F) -> (r: Route)
        requires
            forall|s: &str| call_requires(*allow, (s,)),
        ensures
            resolves_to(*allow, self@, r@, GUARD_LIMIT as nat),
    {
        let mut route = self.clone();
        let mut steps: usize = 0;
        let ghost start = self@;
        while steps < GUARD_LIMIT
            invariant
                steps <= GUARD_LIMIT,
                forall|s: &str| call_requires(*allow, (s,)),
                start == self@,
                forall|end: RouteView|
                    #[trigger] resolves_to(*allow, route@, end, (GUARD_LIMIT - steps) as nat)
                        ==> resolves_to(*allow, start, end, GUARD_LIMIT as nat),
            decreases GUARD_LIMIT - steps,
        {
            let guard = route.guard();
            match guard {
                Some(g) => {
                    let ok = allow(g.name);
                    if ok {
                        proof {
                            assert(g.name == guard_of(route@).0);
                            assert(resolves_to(*allow, route@, route@, (GUARD_LIMIT - steps) as nat));
                        }
                        return route;
                    }
                    let ghost before = route@;
                    route = g.redirect;
                    proof {
                        assert forall|end: RouteView|
                            resolves_to(*allow, route@, end, (GUARD_LIMIT - steps - 1) as nat)
                            implies resolves_to(*allow, start, end, GUARD_LIMIT as nat) by {
                            assert(resolves_to(*allow, before, end, (GUARD_LIMIT - steps) as nat));
                        }
                    }
                },
                None => {
                    return route;
                },
            }
            steps = steps + 1;
        }
        assert(resolves_to(*allow, route@, route@, (GUARD_LIMIT - steps) as nat));
        route
    }
}

/// With a session and no guest access (a logged-in user), the guards send the
/// login page to the pull requests and leave every other page alone.
pub proof fn law_guards_when_logged_in<F: Fn(&str) -> bool>(allow: F, start: RouteView, end: RouteView)
    requires
        forall|b: bool| call_ensures(allow, ("session",), b) ==> b,
        forall|b: bool| call_ensures(allow, ("guest",), b) ==> !b,
        resolves_to(allow, start, end, GUARD_LIMIT as nat),
    ensures
        end == (if start is Login {
            all_pulls_view()
        } else {
            start
        }),
{
    reveal_with_fuel(resolves_to, 3);
}

/// Without a session (a logged-out user), the guards send every page to the
/// login page, and the login page stays.
pub proof fn law_guards_when_logged_out<F: Fn(&str) -> bool>(allow: F, start: RouteView, end: RouteView)
    requires
        forall|b: bool| call_ensures(allow, ("session",), b) ==> !b,
        forall|b: bool| call_ensures(allow, ("guest",), b) ==> b,
        resolves_to(allow, start, end, GUARD_LIMIT as nat),
    ensures
        end == RouteView::Login,
{
    reveal_with_fuel(resolves_to, 3);
}

impl Guarded for Route {
    open spec fn guard_spec(&self) -> Option<Guard<Self>> {
        match self {
            Route::Login => Some(Guard { name: "guest", redirect: Route::PullRequests(PullRequestsPage::All) }),
            _ => Some(Guard { name: "session", redirect: Route::Login }),
        }
    }

    fn guard(&self) -> (g: Option<Guard<Self>>) {
        match self {
            Route::Login => Some(Guard { name: "guest", redirect: Self::pull_requests() }),
            Route::PullRequests(_) | Route::Activity => Some(
                Guard { name: "session", redirect: Route::Login },
            ),
        }
    }
}

} // verus!
