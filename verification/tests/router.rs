use angry_hub::route::{PullRequestsPage, Route};
use angry_hub::router::Router;

fn signed_in(name: &str) -> bool {
    name == "session"
}

fn signed_out(name: &str) -> bool {
    name == "guest"
}

#[test]
fn a_guest_starting_on_a_page_lands_on_the_login() {
    let router = Router::new(Route::Activity, signed_out);
    assert_eq!(router.current(), &Route::Login);
    assert!(!router.can_go_back());
}

#[test]
fn back_undoes_a_navigation_and_forward_redoes_it() {
    let mut router = Router::new(Route::pull_requests(), signed_in);
    assert!(router.navigate(Route::Activity, signed_in));
    assert_eq!(router.previous(), Some(&Route::pull_requests()));
    assert!(router.can_go_back());
    assert!(router.back(signed_in));
    assert_eq!(router.current(), &Route::pull_requests());
    assert!(router.can_go_forward());
    assert!(router.forward(signed_in));
    assert_eq!(router.current(), &Route::Activity);
}

#[test]
fn navigating_drops_the_forward_entries() {
    let mut router = Router::new(Route::pull_requests(), signed_in);
    router.navigate(Route::Activity, signed_in);
    router.back(signed_in);
    router.navigate(Route::PullRequests(PullRequestsPage::Repo("acme/app".into())), signed_in);
    assert!(!router.can_go_forward());
    assert_eq!(router.find_last(|r| *r == Route::Activity), None);
}

#[test]
fn navigating_to_the_current_page_changes_nothing() {
    let mut router = Router::new(Route::Activity, signed_in);
    assert!(!router.navigate(Route::Activity, signed_in));
    assert!(!router.can_go_back());
}

#[test]
fn signing_out_leaves_no_way_back() {
    let mut router = Router::new(Route::pull_requests(), signed_in);
    router.navigate(Route::Activity, signed_in);
    assert!(router.enforce(signed_out));
    assert_eq!(router.current(), &Route::Login);
    assert!(!router.can_go_back());
    assert!(!router.can_go_forward());
    assert!(!router.enforce(signed_out));
}
