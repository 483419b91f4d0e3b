use angry_hub::color::ThemePreference;
use angry_hub::prefs::{sorted_repos, StoredPrefs};

#[test]
fn repositories_are_stored_sorted() {
    let sorted = sorted_repos(vec!["zeta/b".into(), "acme/app".into(), "Acme/app".into(), "acme/api".into()]);
    assert_eq!(sorted, vec!["Acme/app", "acme/api", "acme/app", "zeta/b"]);
    assert!(sorted_repos(vec![]).is_empty());
}

#[test]
fn default_preferences() {
    let p = StoredPrefs::default();
    assert!(p.visible_tab_repos.is_empty());
    assert_eq!(p.theme, ThemePreference::System);
}
