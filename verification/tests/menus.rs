use angry_hub::app_menus::{key_bindings, menus, view_items, Action, MenuEntry};

fn actions(items: &[MenuEntry]) -> Vec<Option<Action>> {
    items
        .iter()
        .map(|e| match e {
            MenuEntry::Action(_, a) => Some(*a),
            MenuEntry::SystemAction(_, a, _) => Some(*a),
            _ => None,
        })
        .collect()
}

#[test]
fn refresh_is_offered_only_where_it_applies() {
    assert_eq!(
        actions(&view_items(true)),
        vec![
            Some(Action::ShowPullRequests),
            Some(Action::ShowActivity),
            None,
            Some(Action::Refresh),
            None,
            Some(Action::ToggleFullScreen),
        ]
    );
    assert_eq!(
        actions(&view_items(false)),
        vec![Some(Action::ShowPullRequests), Some(Action::ShowActivity), None, Some(Action::ToggleFullScreen)]
    );
}

#[test]
fn the_menu_bar() {
    let m = menus(false);
    let names: Vec<&str> = m.iter().map(|m| m.name).collect();
    assert_eq!(names, vec!["Angry Hub", "Edit", "View", "Window"]);
    assert_eq!(key_bindings()[8], ("cmd-r", Action::Refresh));
}

#[test]
fn only_the_view_menu_depends_on_refresh() {
    let with = menus(true);
    let without = menus(false);
    for k in [0usize, 1, 3] {
        assert_eq!(format!("{:?}", with[k].items), format!("{:?}", without[k].items));
    }
    assert!(matches!(with[0].items.last(), Some(MenuEntry::Action("Quit Angry Hub", Action::Quit))));
    assert!(matches!(with[3].items[3], MenuEntry::Action("Close Window", Action::CloseWindow)));
}

#[test]
fn each_view_has_its_own_key() {
    let b = key_bindings();
    assert!(b.contains(&("cmd-1", Action::ShowPullRequests)));
    assert!(b.contains(&("cmd-2", Action::ShowActivity)));
}
