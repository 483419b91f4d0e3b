//! Browser-style navigation stack for a single window.

use vstd::prelude::*;

use crate::route::{guard_of, resolves_to, Route, RouteView, GUARD_LIMIT};

verus! {

/// Browser-style navigation stack for a single window.
///
/// `R` is the app's route type. This type does not know what pages exist
/// or what guard names mean. Callers pass `allow(name)` on each change.
/// Each operation returns whether the window must be redrawn.
pub struct Router<R> {
    history: Vec<R>,
    index: usize,
    previous: Option<R>,
}

/// The value of a router: its history, the index of the current entry, and
/// the route shown before the last successful navigation.
pub struct RouterModel {
    pub history: Seq<RouteView>,
    pub index: nat,
    pub previous: Option<RouteView>,
}

/// The current entry of a model.
pub open spec fn current_of(m: RouterModel) -> RouteView {
    m.history[m.index as int]
}

/// The current index points into the history.
pub open spec fn well_formed(m: RouterModel) -> bool {
    m.index < m.history.len()
}

/// `navigate` to the (already resolved) route `r`: nothing changes when `r` is
/// the current entry; otherwise the entries after the current one are
/// dropped and `r` is pushed and becomes current.
pub open spec fn navigated(m: RouterModel, r: RouteView) -> RouterModel {
    if r == current_of(m) {
        m
    } else {
        RouterModel {
            history: m.history.take(m.index + 1int).push(r),
            index: m.index + 1,
            previous: Some(current_of(m)),
        }
    }
}

/// `replace` the current entry by the resolved route `r`.
pub open spec fn replaced(m: RouterModel, r: RouteView) -> RouterModel {
    if r == current_of(m) {
        m
    } else {
        RouterModel {
            history: m.history.update(m.index as int, r),
            index: m.index,
            previous: Some(current_of(m)),
        }
    }
}

/// Moves the current index to `to`, whose entry resolved to `r`.
pub open spec fn moved(m: RouterModel, to: nat, r: RouteView) -> RouterModel {
    RouterModel {
        history: m.history.update(to as int, r),
        index: to,
        previous: Some(current_of(m)),
    }
}

/// A history holding only the resolved route `r`.
pub open spec fn reset_to(r: RouteView) -> RouterModel {
    RouterModel { history: seq![r], index: 0, previous: None }
}

/// The route behind the view of every history entry.
pub open spec fn views(h: Seq<Route>) -> Seq<RouteView> {
    h.map_values(|r: Route| r@)
}

impl Router<Route> {
    /// The value of this router.
    pub closed spec fn model(&self) -> RouterModel {
        RouterModel {
            history: views(self.history@),
            index: self.index as nat,
            previous: match self.previous {
                Some(p) => Some(p@),
                None => None,
            },
        }
    }

    /// The current index points into the history; every operation keeps it so.
    pub closed spec fn wf(&self) -> bool {
        &&& self.index < self.history@.len()
        &&& well_formed(self.model())
    }

    /// What a well-formed router tells its callers: its model's index is
    /// inside the history.
    pub proof fn lemma_wf_model(&self)
        requires
            self.wf(),
        ensures
            well_formed(self.model()),
    {
    }

    /// The routes of the history, oldest first.
    pub closed spec fn routes(&self) -> Seq<Route> {
        self.history@
    }

    /// A router whose only entry is `initial` after its guards.
    pub fn new<F: Fn(&str) -> bool>(initial: Route, allow: F) -> (router: Self)
        requires
            forall|s: &str| call_requires(allow, (s,)),
        ensures
            router.wf(),
            exists|r: RouteView|
                #[trigger] resolves_to(allow, initial@, r, GUARD_LIMIT as nat) && router.model() == reset_to(r),
    {
        let route = initial.apply_guards(&allow);
        let history = vec![route];
        assert(views(history@) =~= seq![route@]);
        Router { history, index: 0, previous: None }
    }

    pub fn current(&self) -> (r: &Route)
        requires
            self.wf(),
        ensures
            r@ == current_of(self.model()),
    {
        &self.history[self.index]
    }

    /// Route shown before the last successful navigation, if any.
    pub fn previous(&self) -> (r: Option<&Route>)
        ensures
            match r {
                Some(p) => self.model().previous == Some(p@),
                None => self.model().previous is None,
            },
    {
        match &self.previous {
            Some(p) => Some(p),
            None => None,
        }
    }

    /// Most recent route in the stack (including current) for which `pred`
    /// answered `true`; `pred` is asked from the newest entry backwards and
    /// not asked again once it answered `true`.
    pub fn find_last<P: Fn(&Route) -> bool>(&self, pred: P) -> (r: Option<Route>)
        requires
            forall|x: &Route| call_requires(pred, (x,)),
        ensures
            match r {
                Some(found) => exists|i: int|
                    0 <= i < self.routes().len() && found == self.routes()[i] && call_ensures(
                        pred,
                        (&self.routes()[i],),
                        true,
                    ) && forall|j: int|
                        i < j < self.routes().len() ==> call_ensures(
                            pred,
                            (&self.routes()[j],),
                            false,
                        ),
                None => forall|j: int|
                    0 <= j < self.routes().len() ==> call_ensures(pred, (&self.routes()[j],), false),
            },
    {
        let mut i = self.history.len();
        while i > 0
            invariant
                i <= self.history.len(),
                self.routes() == self.history@,
                forall|x: &Route| call_requires(pred, (x,)),
                forall|j: int|
                    i <= j < self.history.len() ==> call_ensures(pred, (&self.history@[j],), false),
            decreases i,
        {
            let hit = pred(&self.history[i - 1]);
            if hit {
                return Some(self.history[i - 1].clone());
            }
            i = i - 1;
        }
        None
    }

    pub fn can_go_back(&self) -> (b: bool)
        ensures
            b == (self.model().index > 0),
    {
        self.index > 0
    }

    pub fn can_go_forward(&self) -> (b: bool)
        requires
            self.wf(),
        ensures
            b == (self.model().index + 1 < self.model().history.len()),
    {
        let n = self.history.len();
        self.index + 1 < n
    }

    /// Push a new route and drop any forward entries.
    pub fn navigate<F: Fn(&str) -> bool>(&mut self, route: Route, allow: F) -> (changed: bool)
        requires
            old(self).wf(),
            forall|s: &str| call_requires(allow, (s,)),
        ensures
            final(self).wf(),
            exists|r: RouteView|
                #[trigger] resolves_to(allow, route@, r, GUARD_LIMIT as nat) && final(self).model() == navigated(
                    old(self).model(),
                    r,
                ) && changed == (r != current_of(old(self).model())),
    {
        let route = route.apply_guards(&allow);
        if self.current().same(&route) {
            return false;
        }
        let ghost m = self.model();
        self.previous = Some(self.current().clone());
        let n = self.history.len();
        assert(self.index < n);
        self.history.truncate(self.index + 1);
        self.history.push(route);
        self.index = self.index + 1;
        proof {
            assert(views(self.history@) =~= m.history.take(m.index + 1int).push(route@));
        }
        true
    }

    /// Swap the current entry without growing history.
    pub fn replace<F: Fn(&str) -> bool>(&mut self, route: Route, allow: F) -> (changed: bool)
        requires
            old(self).wf(),
            forall|s: &str| call_requires(allow, (s,)),
        ensures
            final(self).wf(),
            exists|r: RouteView|
                #[trigger] resolves_to(allow, route@, r, GUARD_LIMIT as nat) && final(self).model() == replaced(
                    old(self).model(),
                    r,
                ) && changed == (r != current_of(old(self).model())),
    {
        let route = route.apply_guards(&allow);
        if self.current().same(&route) {
            return false;
        }
        let ghost m = self.model();
        self.previous = Some(self.current().clone());
        let i = self.index;
        self.history.set(i, route);
        proof {
            assert(views(self.history@) =~= m.history.update(m.index as int, route@));
        }
        true
    }

    /// Step back one entry; the entry's guards are checked again and the entry
    /// is replaced by where they lead.
    pub fn back<F: Fn(&str) -> bool>(&mut self, allow: F) -> (changed: bool)
        requires
            old(self).wf(),
            forall|s: &str| call_requires(allow, (s,)),
        ensures
            final(self).wf(),
            changed == (old(self).model().index > 0),
            !changed ==> final(self).model() == old(self).model(),
            changed ==> exists|r: RouteView|
                #[trigger] resolves_to(
                    allow,
                    old(self).model().history[old(self).model().index - 1],
                    r,
                    GUARD_LIMIT as nat,
                ) && final(self).model() == moved(
                    old(self).model(),
                    (old(self).model().index - 1) as nat,
                    r,
                ),
    {
        if !self.can_go_back() {
            return false;
        }
        let ghost m = self.model();
        self.previous = Some(self.current().clone());
        self.index = self.index - 1;
        self.apply_current(&allow, Ghost(m));
        true
    }

    /// Step forward one entry; the entry's guards are checked again and the
    /// entry is replaced by where they lead.
    pub fn forward<F: Fn(&str) -> bool>(&mut self, allow: F) -> (changed: bool)
        requires
            old(self).wf(),
            forall|s: &str| call_requires(allow, (s,)),
        ensures
            final(self).wf(),
            changed == (old(self).model().index + 1 < old(self).model().history.len()),
            !changed ==> final(self).model() == old(self).model(),
            changed ==> exists|r: RouteView|
                #[trigger] resolves_to(
                    allow,
                    old(self).model().history[old(self).model().index + 1int],
                    r,
                    GUARD_LIMIT as nat,
                ) && final(self).model() == moved(
                    old(self).model(),
                    old(self).model().index + 1,
                    r,
                ),
    {
        if !self.can_go_forward() {
            return false;
        }
        let ghost m = self.model();
        self.previous = Some(self.current().clone());
        let n = self.history.len();
        assert(self.index < n);
        self.index = self.index + 1;
        self.apply_current(&allow, Ghost(m));
        true
    }

    /// Drop the whole history and start again from `route` after its guards.
    pub fn reset<F: Fn(&str) -> bool>(&mut self, route: Route, allow: F) -> (changed: bool)
        requires
            old(self).wf(),
            forall|s: &str| call_requires(allow, (s,)),
        ensures
            final(self).wf(),
            changed,
            exists|r: RouteView|
                #[trigger] resolves_to(allow, route@, r, GUARD_LIMIT as nat) && final(self).model() == reset_to(r),
    {
        let route = route.apply_guards(&allow);
        self.reset_resolved(route);
        true
    }

    fn reset_resolved(&mut self, route: Route)
        ensures
            final(self).wf(),
            final(self).model() == reset_to(route@),
    {
        self.previous = None;
        self.history = vec![route];
        self.index = 0;
        assert(views(self.history@) =~= seq![route@]);
    }

    /// Re-run guards on the current entry (e.g. after session changes).
    /// Replaces the stack when the resolved route differs so Back cannot
    /// return to a now-illegal page: the stack is reset to that route, whose
    /// guards run once more on the way in (see `reset`).
    pub fn enforce<F: Fn(&str) -> bool>(&mut self, allow: F) -> (changed: bool)
        requires
            old(self).wf(),
            forall|s: &str| call_requires(allow, (s,)),
        ensures
            final(self).wf(),
            exists|r: RouteView|
                #[trigger] resolves_to(allow, current_of(old(self).model()), r, GUARD_LIMIT as nat) && (if r
                    == current_of(old(self).model()) {
                    !changed && final(self).model() == old(self).model()
                } else {
                    changed && exists|r2: RouteView|
                        #[trigger] resolves_to(allow, r, r2, GUARD_LIMIT as nat) && final(self).model() == reset_to(
                            r2,
                        )
                }),
    {
        let dest = self.current().apply_guards(&allow);
        if dest.same(self.current()) {
            return false;
        }
        self.reset(dest, allow)
    }

    /// The current index has moved from where `before` had it; the current
    /// entry is replaced by where its guards lead.
    fn apply_current<F: Fn(&str) -> bool>(&mut self, allow: &F, Ghost(before): Ghost<RouterModel>)
        requires
            old(self).wf(),
            forall|s: &str| call_requires(*allow, (s,)),
            old(self).model().history == before.history,
            old(self).model().previous == Some(current_of(before)),
        ensures
            final(self).wf(),
            exists|r: RouteView|
                #[trigger] resolves_to(*allow, current_of(old(self).model()), r, GUARD_LIMIT as nat)
                    && final(self).model() == moved(before, old(self).model().index, r),
    {
        let dest = self.current().apply_guards(allow);
        let ghost m = self.model();
        if !dest.same(self.current()) {
            let i = self.index;
            self.history.set(i, dest);
        }
        proof {
            assert(views(self.history@) =~= m.history.update(m.index as int, dest@));
        }
    }
}

/// Navigating away and then going back shows the page shown before the
/// navigation again, when that page still passes its guards (it resolves to
/// itself); going forward again then shows the navigated-to page, when it too
/// still passes its guards.
pub proof fn law_back_undoes_navigate(m: RouterModel, r: RouteView)
    requires
        well_formed(m),
        r != current_of(m),
    ensures
        ({
            let after = navigated(m, r);
            let back = moved(after, (after.index - 1) as nat, current_of(m));
            &&& after.index > 0
            &&& current_of(back) == current_of(m)
            &&& back.history == m.history.take(m.index + 1int).push(r)
            &&& back.index + 1 < back.history.len()
            &&& current_of(moved(back, back.index + 1, r)) == r
        }),
{
    let after = navigated(m, r);
    assert(after.history[m.index as int] == m.history[m.index as int]);
    let back = moved(after, (after.index - 1) as nat, current_of(m));
    assert(back.history =~= after.history);
}

/// After a navigation that changed the page, there is nothing to go forward
/// to: the forward entries are gone.
pub proof fn law_navigate_drops_forward(m: RouterModel, r: RouteView)
    requires
        well_formed(m),
        r != current_of(m),
    ensures
        !(navigated(m, r).index + 1 < navigated(m, r).history.len()),
        current_of(navigated(m, r)) == r,
        navigated(m, r).previous == Some(current_of(m)),
{
}

/// Every operation keeps the current index inside the history.
pub proof fn law_operations_keep_index_in_history(m: RouterModel, r: RouteView, to: nat)
    requires
        well_formed(m),
        to < m.history.len(),
    ensures
        well_formed(navigated(m, r)),
        well_formed(replaced(m, r)),
        well_formed(moved(m, to, r)),
        well_formed(reset_to(r)),
        replaced(m, r).history.len() == m.history.len(),
{
}

/// When re-running the guards moves the user off the current page, the
/// history is only the page reached: Back cannot return to the page that is
/// no longer allowed, nor to anything before it.
pub proof fn law_enforce_leaves_no_way_back(m: RouterModel, r: RouteView)
    requires
        well_formed(m),
        r != current_of(m),
    ensures
        well_formed(reset_to(r)),
        current_of(reset_to(r)) == r,
        !(reset_to(r).index > 0),
        !(reset_to(r).index + 1 < reset_to(r).history.len()),
        forall|i: int| 0 <= i < reset_to(r).history.len() ==> reset_to(r).history[i] == r,
{
}

/// `allow` lets every guard pass: it never answers `false`.
pub open spec fn allows_all<F: Fn(&str) -> bool>(allow: F) -> bool {
    forall|name: &str, b: bool| #[trigger] call_ensures(allow, (name,), b) ==> b
}

/// With every guard passing, a route resolves to itself.
pub proof fn lemma_all_allowed_resolves_to_itself<F: Fn(&str) -> bool>(
    allow: F,
    start: RouteView,
    end: RouteView,
    fuel: nat,
)
    requires
        allows_all(allow),
        resolves_to(allow, start, end, fuel),
    ensures
        end == start,
    decreases fuel,
{
    if fuel > 0 {
        let (name, redirect) = guard_of(start);
        if !(call_ensures(allow, (name,), true) && end == start) {
            assert(call_ensures(allow, (name,), false));
        }
    }
}

/// With every guard passing, going back and then forward again returns to
/// the same page with the same history, the page gone back to being the
/// one shown before; going forward and then back does the same.
pub proof fn law_back_and_forward_return<F: Fn(&str) -> bool>(
    allow: F,
    m: RouterModel,
    r1: RouteView,
    r2: RouteView,
    r3: RouteView,
    r4: RouteView,
)
    requires
        well_formed(m),
        allows_all(allow),
        m.index > 0 ==> resolves_to(allow, m.history[m.index - 1], r1, GUARD_LIMIT as nat),
        m.index > 0 ==> resolves_to(
            allow,
            moved(m, (m.index - 1) as nat, r1).history[m.index as int],
            r2,
            GUARD_LIMIT as nat,
        ),
        m.index + 1 < m.history.len() ==> resolves_to(allow, m.history[m.index + 1int], r3, GUARD_LIMIT as nat),
        m.index + 1 < m.history.len() ==> resolves_to(
            allow,
            moved(m, m.index + 1, r3).history[m.index as int],
            r4,
            GUARD_LIMIT as nat,
        ),
    ensures
        m.index > 0 ==> moved(moved(m, (m.index - 1) as nat, r1), m.index, r2) == (RouterModel {
            history: m.history,
            index: m.index,
            previous: Some(m.history[m.index - 1]),
        }),
        m.index + 1 < m.history.len() ==> moved(moved(m, m.index + 1, r3), m.index, r4) == (RouterModel {
            history: m.history,
            index: m.index,
            previous: Some(m.history[m.index + 1int]),
        }),
{
    if m.index > 0 {
        lemma_all_allowed_resolves_to_itself(allow, m.history[m.index - 1], r1, GUARD_LIMIT as nat);
        let back = moved(m, (m.index - 1) as nat, r1);
        assert(back.history =~= m.history);
        lemma_all_allowed_resolves_to_itself(allow, back.history[m.index as int], r2, GUARD_LIMIT as nat);
        assert(moved(back, m.index, r2).history =~= m.history);
    }
    if m.index + 1 < m.history.len() {
        lemma_all_allowed_resolves_to_itself(allow, m.history[m.index + 1int], r3, GUARD_LIMIT as nat);
        let fwd = moved(m, m.index + 1, r3);
        assert(fwd.history =~= m.history);
        lemma_all_allowed_resolves_to_itself(allow, fwd.history[m.index as int], r4, GUARD_LIMIT as nat);
        assert(moved(fwd, m.index, r4).history =~= m.history);
    }
}

} // verus!
