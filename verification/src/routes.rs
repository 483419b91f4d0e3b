//! Who may see which page: the login page is for guests, the rest for a
//! signed-in user; a refused visit is redirected.

use vstd::prelude::*;

verus! {

/// What a guard answers a visit.
#[derive(Debug, Clone, Copy)]
pub enum GuardResult {
    Allow,
    Redirect(&'static str),
}

/// The signed-in pages let a signed-in user in and send a guest to `/login`.
pub open spec fn authenticated_spec(logged_in: bool) -> (bool, Seq<char>) {
    if logged_in {
        (true, Seq::empty())
    } else {
        (false, "/login"@)
    }
}

/// The login page lets a guest in and sends a signed-in user to `/`.
pub open spec fn guest_only_spec(logged_in: bool) -> (bool, Seq<char>) {
    if logged_in {
        (false, "/"@)
    } else {
        (true, Seq::empty())
    }
}

/// The answer as a pair: whether the visit is allowed, and where a refused
/// one goes.
pub open spec fn outcome(r: GuardResult) -> (bool, Seq<char>) {
    match r {
        GuardResult::Allow => (true, Seq::empty()),
        GuardResult::Redirect(to) => (false, to@),
    }
}

/// The guard of the signed-in pages.
pub fn authenticated(logged_in: bool) -> (r: GuardResult)
    ensures
        outcome(r) == authenticated_spec(logged_in),
{
    if logged_in {
        GuardResult::Allow
    } else {
        GuardResult::Redirect("/login")
    }
}

/// The guard of the login page.
pub fn guest_only(logged_in: bool) -> (r: GuardResult)
    ensures
        outcome(r) == guest_only_spec(logged_in),
{
    if logged_in {
        GuardResult::Redirect("/")
    } else {
        GuardResult::Allow
    }
}

/// Exactly one side lets a visitor in: whichever the session, one guard
/// allows and the other one refuses.
pub proof fn law_one_side_allows(logged_in: bool)
    ensures
        authenticated_spec(logged_in).0 != guest_only_spec(logged_in).0,
        authenticated_spec(logged_in).0 == logged_in,
{
}

} // verus!
