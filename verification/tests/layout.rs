use angry_hub::layout::main::{path_for_view, view_for_path, Chrome, SettingsClick};
use angry_hub::routes::{authenticated, guest_only, GuardResult};

#[test]
fn the_chrome_follows_the_view() {
    let mut chrome = Chrome::new();
    assert_eq!(chrome.selected, "prs");
    assert!(!chrome.sync_view("activity", false));
    assert_eq!(chrome.selected, "activity");
    assert_eq!(chrome.previous_selected, "prs");
    assert!(chrome.sync_view("prs", true));
    assert_eq!(chrome.selected, "activity");
    assert_eq!(chrome.settings_click(), SettingsClick::Back);
    assert_eq!(chrome.control_id(), "close-settings");
    assert!(chrome.sync_view("prs", false));
    assert_eq!(chrome.selected, "prs");
    assert_eq!(chrome.previous_selected, "prs");
    assert_eq!(chrome.settings_click(), SettingsClick::OpenSettings);
}

#[test]
fn refreshing_changes_only_when_it_flips() {
    let mut chrome = Chrome::new();
    assert!(chrome.set_refreshing(true));
    assert!(!chrome.set_refreshing(true));
    assert!(chrome.set_refreshing(false));
}

#[test]
fn paths_and_views() {
    assert_eq!(view_for_path("/settings"), (true, "prs"));
    assert_eq!(view_for_path("/activity"), (false, "activity"));
    assert_eq!(view_for_path("/"), (false, "prs"));
    assert_eq!(path_for_view("activity"), "/activity");
    assert_eq!(path_for_view("prs"), "/");
}

#[test]
fn guards_send_each_visitor_to_their_side() {
    assert!(matches!(authenticated(true), GuardResult::Allow));
    assert!(matches!(authenticated(false), GuardResult::Redirect("/login")));
    assert!(matches!(guest_only(false), GuardResult::Allow));
    assert!(matches!(guest_only(true), GuardResult::Redirect("/")));
}
